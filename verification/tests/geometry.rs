use screen_locker::geometry::{
    enforce_cursor_rect, rect_contains_point, rect_has_room, EnforceEvent, EnforceStep, POINT, RECT,
};

const SCREEN: RECT = RECT {
    left: -1920,
    top: 0,
    right: 0,
    bottom: 1080,
};

fn moved(rect: RECT, x: i32, y: i32) -> Option<POINT> {
    match enforce_cursor_rect(rect, EnforceEvent::Cursor(Some(POINT { x, y }))) {
        EnforceStep::Move(point) => Some(point),
        EnforceStep::Done(Ok(())) => None,
        _ => panic!("unexpected step"),
    }
}

#[test]
fn right_and_bottom_edges_lie_outside() {
    assert!(rect_contains_point(SCREEN, POINT { x: -1920, y: 0 }));
    assert!(rect_contains_point(SCREEN, POINT { x: -1, y: 1079 }));
    assert!(!rect_contains_point(SCREEN, POINT { x: 0, y: 0 }));
    assert!(!rect_contains_point(SCREEN, POINT { x: -1, y: 1080 }));
    assert!(!rect_contains_point(SCREEN, POINT { x: -1921, y: 5 }));
    assert!(!rect_contains_point(SCREEN, POINT { x: -5, y: -1 }));
}

#[test]
fn the_cursor_is_clipped_before_it_is_looked_at() {
    assert!(matches!(
        enforce_cursor_rect(SCREEN, EnforceEvent::Start),
        EnforceStep::Clip(SCREEN)
    ));
    assert!(matches!(
        enforce_cursor_rect(SCREEN, EnforceEvent::Clipped(Ok(()))),
        EnforceStep::ReadCursor
    ));
}

#[test]
fn a_refused_clip_ends_with_its_error() {
    assert!(matches!(
        enforce_cursor_rect(SCREEN, EnforceEvent::Clipped(Err(5))),
        EnforceStep::Done(Err(5))
    ));
}

#[test]
fn a_cursor_outside_moves_to_the_nearest_point() {
    assert_eq!(moved(SCREEN, 100, 500), Some(POINT { x: -1, y: 500 }));
    assert_eq!(moved(SCREEN, -2000, -7), Some(POINT { x: -1920, y: 0 }));
    assert_eq!(moved(SCREEN, 9, 9999), Some(POINT { x: -1, y: 1079 }));
}

#[test]
fn a_cursor_inside_stays() {
    assert_eq!(moved(SCREEN, -1, 1079), None);
    assert_eq!(moved(SCREEN, -1920, 0), None);
}

#[test]
fn an_unknown_cursor_is_left_alone() {
    assert!(matches!(
        enforce_cursor_rect(SCREEN, EnforceEvent::Cursor(None)),
        EnforceStep::Done(Ok(()))
    ));
    assert!(matches!(
        enforce_cursor_rect(SCREEN, EnforceEvent::Moved),
        EnforceStep::Done(Ok(()))
    ));
}

#[test]
fn an_empty_rectangle_has_no_room() {
    let empty = RECT { right: -1920, ..SCREEN };
    assert!(!rect_has_room(empty));
    assert!(!rect_has_room(RECT { bottom: 0, ..SCREEN }));
    assert!(rect_has_room(SCREEN));
    let lowest = RECT {
        left: i32::MIN,
        top: i32::MIN,
        right: i32::MIN,
        bottom: i32::MIN,
    };
    assert!(rect_has_room(lowest));
    assert_eq!(
        moved(lowest, 3, 4),
        Some(POINT { x: i32::MIN, y: i32::MIN })
    );
}
