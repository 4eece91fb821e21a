use screen_locker::geometry::RECT;
use screen_locker::monitor::{
    clicked_tile, is_drawable, layout, lock_targets_equal, monitors_equal, virtual_bounds, Monitor,
};

fn rect(left: i32, top: i32, right: i32, bottom: i32) -> RECT {
    RECT {
        left,
        top,
        right,
        bottom,
    }
}

fn monitor(r: RECT, primary: bool) -> Monitor {
    Monitor {
        rect: r,
        work_rect: r,
        device: "DISPLAY".to_string(),
        primary,
    }
}

fn two() -> Vec<Monitor> {
    vec![
        monitor(rect(0, 0, 1920, 1080), true),
        monitor(rect(-1280, 100, 0, 1124), false),
    ]
}

#[test]
fn monitors_are_made_from_what_the_system_reports() {
    let m = Monitor::from_info(
        rect(0, 0, 10, 20),
        rect(0, 0, 10, 15),
        3,
        &[68, 49, 0, 68],
    );
    assert_eq!(m.rect, rect(0, 0, 10, 20));
    assert_eq!(m.work_rect, rect(0, 0, 10, 15));
    assert_eq!(m.device, "D1");
    assert!(m.primary);
    assert!(!Monitor::from_info(m.rect, m.rect, 2, &[]).primary);
}

#[test]
fn monitors_have_a_size_and_a_label() {
    let ms = two();
    assert_eq!((ms[1].width(), ms[1].height()), (1280, 1024));
    assert_eq!(ms[0].short_label(0), "Monitor 1 - Primary");
    assert_eq!(ms[1].short_label(1), "Monitor 2");
    assert_eq!(ms[1].short_label(9), "Monitor 10");
    assert!(ms[0].is_measurable());
    assert!(!monitor(rect(i32::MIN, 0, 1, 1), false).is_measurable());
    assert!(!monitor(rect(0, i32::MIN, 1, 1), false).is_measurable());
    assert!(!monitor(rect(i32::MAX, 0, -2, 1), false).is_measurable());
    assert!(monitor(rect(i32::MIN, 0, -1, 1), false).is_measurable());
}

#[test]
fn the_bounds_go_around_all_monitors() {
    assert_eq!(virtual_bounds(&two()), rect(-1280, 0, 1920, 1124));
    assert_eq!(
        virtual_bounds(&[]),
        rect(i32::MAX, i32::MAX, i32::MIN, i32::MIN)
    );
}

#[test]
fn every_difference_tells_monitors_apart() {
    assert!(monitors_equal(&two(), &two()));
    assert!(lock_targets_equal(&two(), &two()));
    assert!(monitors_equal(&[], &[]));
    assert!(!monitors_equal(&two(), &two()[..1]));
    assert!(!lock_targets_equal(&two()[..1], &two()));
    let mut moved = two();
    moved[1].rect.left = -1;
    assert!(!monitors_equal(&two(), &moved));
    assert!(!lock_targets_equal(&two(), &moved));
    let mut renamed = two();
    renamed[0].device = "OTHER".to_string();
    assert!(!monitors_equal(&two(), &renamed));
    assert!(!lock_targets_equal(&two(), &renamed));
    let mut demoted = two();
    demoted[0].primary = false;
    assert!(!monitors_equal(&two(), &demoted));
    assert!(!lock_targets_equal(&two(), &demoted));
}

#[test]
fn work_areas_are_no_part_of_a_lock_target() {
    let mut shrunk = two();
    shrunk[0].work_rect.bottom = 1040;
    assert!(!monitors_equal(&two(), &shrunk));
    assert!(lock_targets_equal(&two(), &shrunk));
}

#[test]
fn tiles_count_from_the_corner_of_the_bounds() {
    let l = layout(&two(), 1).unwrap();
    assert_eq!((l.width, l.height), (3200, 1124));
    assert_eq!(l.tiles.len(), 2);
    assert_eq!(l.tiles[0].rect, rect(1280, 0, 3200, 1080));
    assert_eq!(l.tiles[1].rect, rect(0, 100, 1280, 1124));
    assert!(!l.tiles[0].selected);
    assert!(l.tiles[1].selected);
    assert_eq!(l.tiles[0].label, "1");
    assert_eq!(l.tiles[1].label, "2");
    assert!(layout(&[], 0).is_none());
}

#[test]
fn a_drawing_is_at_least_one_wide_and_high() {
    let l = layout(&[monitor(rect(5, 5, 5, 5), true)], 0).unwrap();
    assert_eq!((l.width, l.height), (1, 1));
}

#[test]
fn a_drawing_has_to_fit() {
    assert!(is_drawable(&two()));
    assert!(is_drawable(&[]));
    assert!(!is_drawable(&[
        monitor(rect(i32::MIN, 0, 0, 10), true),
        monitor(rect(0, 0, 10, 10), false),
    ]));
    assert!(!is_drawable(&[monitor(rect(0, 5, 10, i32::MIN), true)]));
}

#[test]
fn the_last_tile_that_is_hit_is_clicked() {
    assert_eq!(clicked_tile(&[]), None);
    assert_eq!(clicked_tile(&[false, false]), None);
    assert_eq!(clicked_tile(&[true, false]), Some(0));
    assert_eq!(clicked_tile(&[true, true, false]), Some(1));
}
