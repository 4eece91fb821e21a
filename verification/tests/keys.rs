use screen_locker::keys::{
    egui_key_to_vk, is_egui_modifier_key, is_letter_vk, is_modifier_vk, vk_from_name, vk_to_name,
    Key,
};

#[test]
fn letters_and_digits_name_themselves() {
    for c in ('A'..='Z').chain('0'..='9') {
        assert_eq!(vk_to_name(c as u32), c.to_string());
        assert_eq!(vk_from_name(&c.to_string()), Some(c as u32));
        assert_eq!(
            vk_from_name(&c.to_ascii_lowercase().to_string()),
            Some(c as u32)
        );
    }
}

#[test]
fn function_keys_are_numbered() {
    for n in 1..=24u32 {
        assert_eq!(vk_to_name(0x6f + n), format!("F{}", n));
        assert_eq!(vk_from_name(&format!("f{}", n)), Some(0x6f + n));
    }
    assert_eq!(vk_from_name("F0"), None);
    assert_eq!(vk_from_name("F25"), None);
    assert_eq!(vk_from_name("F"), Some(0x46));
    assert_eq!(vk_from_name("F05"), Some(0x74));
    assert_eq!(vk_from_name("F+5"), Some(0x74));
    assert_eq!(vk_from_name("F-5"), None);
    assert_eq!(vk_from_name("F99999999999"), None);
}

#[test]
fn other_keys_have_names() {
    for (vk, name) in [
        (0x1b, "Esc"),
        (0x20, "Space"),
        (0x09, "Tab"),
        (0x0d, "Enter"),
        (0x08, "Backspace"),
        (0x2d, "Insert"),
        (0x2e, "Delete"),
        (0x24, "Home"),
        (0x23, "End"),
        (0x21, "PageUp"),
        (0x22, "PageDown"),
        (0x25, "Left"),
        (0x26, "Up"),
        (0x27, "Right"),
        (0x28, "Down"),
        (0xba, "Semicolon"),
        (0xbb, "Plus"),
        (0xbc, "Comma"),
        (0xbd, "Minus"),
        (0xbe, "Period"),
        (0xbf, "Slash"),
        (0xc0, "Backtick"),
        (0xdb, "OpenBracket"),
        (0xdc, "Backslash"),
        (0xdd, "CloseBracket"),
        (0xde, "Quote"),
    ] {
        assert_eq!(vk_to_name(vk), name);
        assert_eq!(vk_from_name(name), Some(vk));
        assert_eq!(vk_from_name(&format!(" {}\t", name.to_lowercase())), Some(vk));
    }
}

#[test]
fn some_keys_have_a_second_name() {
    for (name, vk) in [
        ("Escape", 0x1b),
        ("Return", 0x0d),
        ("Ins", 0x2d),
        ("Del", 0x2e),
        ("PgUp", 0x21),
        ("PgDn", 0x22),
    ] {
        assert_eq!(vk_from_name(name), Some(vk));
    }
}

#[test]
fn keys_without_a_name_do_not_read_back() {
    assert_eq!(vk_to_name(0xff), "VK255");
    assert_eq!(vk_to_name(0), "VK0");
    assert_eq!(vk_to_name(u32::MAX), "VK4294967295");
    assert_eq!(vk_from_name("VK255"), None);
    assert_eq!(vk_from_name(""), None);
    assert_eq!(vk_from_name("\u{e9}"), None);
    assert_eq!(vk_from_name("+"), None);
    assert_eq!(vk_from_name("Page Up"), None);
}

#[test]
fn every_name_of_a_byte_sized_code_reads_back_or_is_its_code() {
    for vk in 0..=0x1ffu32 {
        let name = vk_to_name(vk);
        if name.starts_with("VK") {
            assert_eq!(vk_from_name(&name), None);
        } else {
            assert_eq!(vk_from_name(&name), Some(vk));
        }
    }
}

#[test]
fn letters_are_told_from_their_neighbours() {
    assert!(!is_letter_vk(0x40));
    assert!(is_letter_vk(0x41));
    assert!(is_letter_vk(0x5a));
    assert!(!is_letter_vk(0x5b));
}

#[test]
fn modifier_codes_are_known() {
    let known: Vec<u32> = (0..=0xffu32).filter(|vk| is_modifier_vk(*vk)).collect();
    assert_eq!(
        known,
        vec![0x10, 0x11, 0x12, 0x5b, 0x5c, 0xa0, 0xa1, 0xa2, 0xa3, 0xa4, 0xa5]
    );
}

#[test]
fn binds_use_the_code_of_their_key() {
    assert_eq!(egui_key_to_vk(Key::A), Some(0x41));
    assert_eq!(egui_key_to_vk(Key::Z), Some(0x5a));
    assert_eq!(egui_key_to_vk(Key::Num0), Some(0x30));
    assert_eq!(egui_key_to_vk(Key::Num9), Some(0x39));
    assert_eq!(egui_key_to_vk(Key::F1), Some(0x70));
    assert_eq!(egui_key_to_vk(Key::F24), Some(0x87));
    assert_eq!(egui_key_to_vk(Key::Escape), Some(0x1b));
    assert_eq!(egui_key_to_vk(Key::ArrowLeft), Some(0x25));
    assert_eq!(egui_key_to_vk(Key::Slash), Some(0xbf));
    assert_eq!(egui_key_to_vk(Key::Questionmark), Some(0xbf));
    assert_eq!(egui_key_to_vk(Key::OpenCurlyBracket), Some(0xdb));
    assert_eq!(egui_key_to_vk(Key::Pipe), Some(0xdc));
    assert_eq!(egui_key_to_vk(Key::CloseCurlyBracket), Some(0xdd));
    assert_eq!(egui_key_to_vk(Key::Quote), Some(0xde));
    assert_eq!(egui_key_to_vk(Key::ShiftLeft), None);
    assert_eq!(egui_key_to_vk(Key::Other), None);
}

#[test]
fn keys_that_only_modify_are_known() {
    for key in [
        Key::ShiftLeft,
        Key::ShiftRight,
        Key::ControlLeft,
        Key::ControlRight,
        Key::AltLeft,
        Key::AltRight,
        Key::SuperLeft,
        Key::SuperRight,
    ] {
        assert!(is_egui_modifier_key(key));
    }
    assert!(!is_egui_modifier_key(Key::Escape));
    assert!(!is_egui_modifier_key(Key::Other));
}
