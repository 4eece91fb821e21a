use screen_locker::utf16::wide_z_to_string;

#[test]
fn the_text_ends_at_the_first_zero() {
    let mut buffer = [0u16; 32];
    for (i, unit) in "\\\\.\\DISPLAY1".encode_utf16().enumerate() {
        buffer[i] = unit;
    }
    buffer[20] = 65;
    assert_eq!(wide_z_to_string(&buffer), "\\\\.\\DISPLAY1");
    assert_eq!(wide_z_to_string(&[65, 66]), "AB");
    assert_eq!(wide_z_to_string(&[]), "");
    assert_eq!(wide_z_to_string(&[0, 65]), "");
}

#[test]
fn single_units_decode_as_the_standard_library_decodes_them() {
    for unit in 1..=u16::MAX {
        assert_eq!(wide_z_to_string(&[unit]), String::from_utf16_lossy(&[unit]));
    }
}

#[test]
fn pairs_decode_as_the_standard_library_decodes_them() {
    let units = [
        1, 0x41, 0xd7ff, 0xd800, 0xd801, 0xdabc, 0xdbff, 0xdc00, 0xdc01, 0xdeef, 0xdfff, 0xe000,
        0xffff,
    ];
    for a in units {
        for b in units {
            for c in units {
                let text = [a, b, c];
                assert_eq!(wide_z_to_string(&text), String::from_utf16_lossy(&text));
            }
        }
    }
}
