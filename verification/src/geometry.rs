//! Rectangles and points of the virtual screen, and the steps that keep the cursor
//! inside a rectangle.

use vstd::prelude::*;

verus! {

/// A rectangle of the virtual screen. Its right and bottom edges lie outside it.
#[derive(Clone, Copy, PartialEq, Eq, Structural, Debug)]
pub struct RECT {
    pub left: i32,
    pub top: i32,
    pub right: i32,
    pub bottom: i32,
}

#[derive(Clone, Copy, PartialEq, Eq, Structural, Debug)]
pub struct POINT {
    pub x: i32,
    pub y: i32,
}

/// Whether `p` lies in `r`.
pub open spec fn inside(r: RECT, p: POINT) -> bool {
    r.left <= p.x < r.right && r.top <= p.y < r.bottom
}

pub fn rect_contains_point(rect: RECT, point: POINT) -> (b: bool)
    ensures
        b == inside(rect, point),
{
    point.x >= rect.left && point.x < rect.right && point.y >= rect.top && point.y < rect.bottom
}

/// The last coordinate before `edge`; the lowest coordinate is its own.
pub open spec fn before(edge: i32) -> i32 {
    if edge == i32::MIN {
        edge
    } else {
        (edge - 1) as i32
    }
}

/// Whether there is a coordinate between the edges on each axis for a cursor to be put
/// on.
pub open spec fn has_room(r: RECT) -> bool {
    r.left <= before(r.right) && r.top <= before(r.bottom)
}

/// The coordinate of `low ..= high` that is nearest to `x`.
pub open spec fn nearest(x: i32, low: i32, high: i32) -> i32 {
    if x < low {
        low
    } else if x > high {
        high
    } else {
        x
    }
}

/// The point of `r` that is nearest to `p` on each axis.
pub open spec fn pulled_in(r: RECT, p: POINT) -> POINT {
    POINT {
        x: nearest(p.x, r.left, before(r.right)),
        y: nearest(p.y, r.top, before(r.bottom)),
    }
}

fn coordinate_before(edge: i32) -> (x: i32)
    ensures
        x == before(edge),
{
    if edge == i32::MIN {
        edge
    } else {
        edge - 1
    }
}

/// Whether the cursor can be put in `rect`.
pub fn rect_has_room(rect: RECT) -> (b: bool)
    ensures
        b == has_room(rect),
{
    rect.left <= coordinate_before(rect.right) && rect.top <= coordinate_before(rect.bottom)
}

fn clamp(x: i32, low: i32, high: i32) -> (r: i32)
    ensures
        r == nearest(x, low, high),
{
    if x < low {
        low
    } else if x > high {
        high
    } else {
        x
    }
}

/// What happened last while the cursor is put in its rectangle.
#[derive(Clone, Copy)]
pub enum EnforceEvent {
    Start,
    /// The cursor was clipped, or the system refused with an error code.
    Clipped(Result<(), u32>),
    /// Where the cursor is, if the system says so.
    Cursor(Option<POINT>),
    Moved,
}

/// What to do next to put the cursor in its rectangle.
#[derive(Clone, Copy)]
pub enum EnforceStep {
    Clip(RECT),
    ReadCursor,
    Move(POINT),
    Done(Result<(), u32>),
}

/// What follows `event`: clip the cursor, look where it is, and move it where it lies
/// outside. Only a refused clip fails.
pub open spec fn enforce_step(rect: RECT, event: EnforceEvent) -> EnforceStep {
    match event {
        EnforceEvent::Start => EnforceStep::Clip(rect),
        EnforceEvent::Clipped(Err(error)) => EnforceStep::Done(Err(error)),
        EnforceEvent::Clipped(Ok(())) => EnforceStep::ReadCursor,
        EnforceEvent::Cursor(Some(p)) => if inside(rect, p) {
            EnforceStep::Done(Ok(()))
        } else {
            EnforceStep::Move(pulled_in(rect, p))
        },
        EnforceEvent::Cursor(None) => EnforceStep::Done(Ok(())),
        EnforceEvent::Moved => EnforceStep::Done(Ok(())),
    }
}

/// The next step that puts the cursor in `rect`.
pub fn enforce_cursor_rect(rect: RECT, event: EnforceEvent) -> (step: EnforceStep)
    requires
        event matches EnforceEvent::Cursor(Some(p)) ==> has_room(rect),
    ensures
        step == enforce_step(rect, event),
{
    match event {
        EnforceEvent::Start => EnforceStep::Clip(rect),
        EnforceEvent::Clipped(Err(error)) => EnforceStep::Done(Err(error)),
        EnforceEvent::Clipped(Ok(())) => EnforceStep::ReadCursor,
        EnforceEvent::Cursor(Some(point)) => {
            if rect_contains_point(rect, point) {
                EnforceStep::Done(Ok(()))
            } else {
                let x: i32 = clamp(point.x, rect.left, coordinate_before(rect.right));
                let y: i32 = clamp(point.y, rect.top, coordinate_before(rect.bottom));
                EnforceStep::Move(POINT { x, y })
            }
        },
        EnforceEvent::Cursor(None) => EnforceStep::Done(Ok(())),
        EnforceEvent::Moved => EnforceStep::Done(Ok(())),
    }
}

/// The distance between two coordinates.
pub open spec fn distance(a: i32, b: i32) -> int {
    if a < b {
        b - a
    } else {
        a - b
    }
}

/// A cursor that is outside a rectangle with an inside is moved to a point of it, and no
/// point of the rectangle is nearer on either axis.
pub proof fn law_cursor_ends_inside(rect: RECT, point: POINT)
    requires
        rect.left < rect.right,
        rect.top < rect.bottom,
        !inside(rect, point),
    ensures
        enforce_step(rect, EnforceEvent::Cursor(Some(point))) == EnforceStep::Move(
            pulled_in(rect, point),
        ),
        inside(rect, pulled_in(rect, point)),
        forall|q: POINT| #[trigger]
            inside(rect, q) ==> distance(point.x, pulled_in(rect, point).x) <= distance(
                point.x,
                q.x,
            ) && distance(point.y, pulled_in(rect, point).y) <= distance(point.y, q.y),
{
}

/// A cursor that is inside is left where it is.
pub proof fn law_cursor_inside_stays(rect: RECT, point: POINT)
    requires
        inside(rect, point),
    ensures
        enforce_step(rect, EnforceEvent::Cursor(Some(point))) == EnforceStep::Done(Ok(())),
        pulled_in(rect, point) == point,
{
}

/// A point lies in a rectangle where no edge cuts it off. The left and the top edge belong to
/// the rectangle, the right and the bottom edge do not.
pub proof fn law_a_point_is_inside_where_no_edge_cuts_it_off(r: RECT, p: POINT)
    ensures
        p.x < r.left || p.y < r.top || p.x >= r.right || p.y >= r.bottom ==> !inside(r, p),
        p.x >= r.left && p.y >= r.top && p.x < r.right && p.y < r.bottom ==> inside(r, p),
{
}

/// The first step clips the cursor to the very rectangle, no other step clips it, and the
/// cursor is never clipped to anything else.
pub proof fn law_the_cursor_is_clipped_to_its_rectangle(rect: RECT, event: EnforceEvent)
    ensures
        event == EnforceEvent::Start ==> enforce_step(rect, event) == EnforceStep::Clip(rect),
        enforce_step(rect, event) matches EnforceStep::Clip(r) ==> r == rect && event
            == EnforceEvent::Start,
{
}

/// It fails with an error exactly where clipping was refused with that error.
pub proof fn law_enforcing_fails_where_clipping_was_refused(
    rect: RECT,
    event: EnforceEvent,
    error: u32,
)
    ensures
        (enforce_step(rect, event) == EnforceStep::Done(Err(error))) == (event
            == EnforceEvent::Clipped(Err(error))),
{
}

/// Where the cursor is is looked up exactly once it is clipped.
pub proof fn law_the_cursor_is_looked_up_once_it_is_clipped(rect: RECT, event: EnforceEvent)
    ensures
        enforce_step(rect, event) is ReadCursor == (event matches EnforceEvent::Clipped(Ok(_))),
{
}

/// It is done, and well, once the cursor was moved, where nobody knows where it is, and where
/// it is inside; not before.
pub proof fn law_enforcing_ends_with_the_cursor(rect: RECT, event: EnforceEvent)
    ensures
        (enforce_step(rect, event) == EnforceStep::Done(Ok(()))) == match event {
            EnforceEvent::Start => false,
            EnforceEvent::Clipped(_) => false,
            EnforceEvent::Cursor(None) => true,
            EnforceEvent::Cursor(Some(p)) => !(p.x < rect.left || p.y < rect.top || p.x
                >= rect.right || p.y >= rect.bottom),
            EnforceEvent::Moved => true,
        },
{
}

/// A cursor is moved only where it is outside, and along each axis no further than needed: a
/// coordinate between the edges stays, one before them goes to the first edge, and one
/// behind them to the last coordinate before the other edge.
pub proof fn law_a_cursor_is_moved_no_further_than_needed(rect: RECT, event: EnforceEvent)
    requires
        rect.left < rect.right,
        rect.top < rect.bottom,
    ensures
        enforce_step(rect, event) matches EnforceStep::Move(q) ==> {
            &&& event matches EnforceEvent::Cursor(Some(p))
            &&& p.x < rect.left || p.y < rect.top || p.x >= rect.right || p.y >= rect.bottom
            &&& p.x < rect.left ==> q.x == rect.left
            &&& p.x >= rect.right ==> q.x == rect.right - 1
            &&& rect.left <= p.x < rect.right ==> q.x == p.x
            &&& p.y < rect.top ==> q.y == rect.top
            &&& p.y >= rect.bottom ==> q.y == rect.bottom - 1
            &&& rect.top <= p.y < rect.bottom ==> q.y == p.y
        },
        event matches EnforceEvent::Cursor(Some(p)) ==> p.x < rect.left || p.y < rect.top || p.x
            >= rect.right || p.y >= rect.bottom ==> enforce_step(rect, event) is Move,
{
}

/// A rectangle has room where its edges leave a coordinate on each axis, or where both edges
/// are at the lowest coordinate, which is then the one to move to.
pub proof fn law_room_is_between_the_edges(rect: RECT, p: POINT)
    ensures
        has_room(rect) == ((rect.left < rect.right || rect.left == rect.right == i32::MIN) && (
        rect.top < rect.bottom || rect.top == rect.bottom == i32::MIN)),
        has_room(rect) && rect.right == i32::MIN ==> (enforce_step(
            rect,
            EnforceEvent::Cursor(Some(p)),
        ) matches EnforceStep::Move(q) && q.x == i32::MIN && (rect.top <= p.y < rect.bottom ==> q.y
            == p.y)),
        has_room(rect) && rect.bottom == i32::MIN ==> (enforce_step(
            rect,
            EnforceEvent::Cursor(Some(p)),
        ) matches EnforceStep::Move(q) && q.y == i32::MIN && (rect.left <= p.x < rect.right ==> q.x
            == p.x)),
{
}

} // verus!
