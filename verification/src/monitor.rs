//! Monitors, how they are told apart, and where they lie on the virtual screen.

use crate::geometry::RECT;
use crate::text::{decimal, push_decimal};
use crate::utf16::{decoded, until_zero, wide_z_to_string};
use vstd::prelude::*;

verus! {

/// A monitor that the system reported.
#[derive(Clone, Debug)]
pub struct Monitor {
    pub rect: RECT,
    /// The part of `rect` that the task bar leaves free.
    pub work_rect: RECT,
    pub device: String,
    pub primary: bool,
}

/// What a [`Monitor`] stands for.
pub struct MonitorView {
    pub rect: RECT,
    pub work_rect: RECT,
    pub device: Seq<char>,
    pub primary: bool,
}

impl View for Monitor {
    type V = MonitorView;

    open spec fn view(&self) -> MonitorView {
        MonitorView {
            rect: self.rect,
            work_rect: self.work_rect,
            device: self.device@,
            primary: self.primary,
        }
    }
}

/// What a sequence of monitors stands for.
pub open spec fn monitor_views(ms: Seq<Monitor>) -> Seq<MonitorView> {
    ms.map_values(|m: Monitor| m@)
}

/// Whether `n` is an `i32`.
pub open spec fn fits(n: int) -> bool {
    i32::MIN <= n <= i32::MAX
}

impl MonitorView {
    pub open spec fn width(self) -> int {
        self.rect.right - self.rect.left
    }

    pub open spec fn height(self) -> int {
        self.rect.bottom - self.rect.top
    }

    /// Whether its width and its height are numbers that can be computed with.
    pub open spec fn measurable(self) -> bool {
        fits(self.width()) && fits(self.height())
    }

    /// Its short name, as the monitor with the number `index`, counted from zero.
    pub open spec fn label(self, index: nat) -> Seq<char> {
        "Monitor "@ + decimal(index + 1) + if self.primary {
            " - Primary"@
        } else {
            Seq::empty()
        }
    }

    /// Whether a lock on one of the two is a lock on the other.
    pub open spec fn same_target(self, other: MonitorView) -> bool {
        self.rect == other.rect && self.device == other.device && self.primary == other.primary
    }
}

/// The bit of the reported flags that marks the primary monitor.
pub const MONITORINFOF_PRIMARY: u32 = 1;

/// Whether the difference of two coordinates is an `i32`.
fn difference_fits(a: i32, b: i32) -> (r: bool)
    ensures
        r == fits(a - b),
{
    let d: i64 = a as i64 - b as i64;
    -0x8000_0000 <= d && d <= 0x7fff_ffff
}

impl Monitor {
    /// The monitor that the system describes by its rectangles, its flags and its
    /// zero-terminated device name.
    pub fn from_info(rect: RECT, work_rect: RECT, flags: u32, device: &[u16]) -> (m: Monitor)
        ensures
            m@ == (MonitorView {
                rect,
                work_rect,
                device: decoded(until_zero(device@)),
                primary: flags & MONITORINFOF_PRIMARY != 0,
            }),
    {
        Monitor {
            rect,
            work_rect,
            device: wide_z_to_string(device),
            primary: flags & MONITORINFOF_PRIMARY != 0,
        }
    }

    pub fn width(&self) -> (w: i32)
        requires
            fits(self@.width()),
        ensures
            w == self@.width(),
    {
        self.rect.right - self.rect.left
    }

    pub fn height(&self) -> (h: i32)
        requires
            fits(self@.height()),
        ensures
            h == self@.height(),
    {
        self.rect.bottom - self.rect.top
    }

    /// Whether the width and the height can be computed.
    pub fn is_measurable(&self) -> (b: bool)
        ensures
            b == self@.measurable(),
    {
        difference_fits(self.rect.right, self.rect.left) && difference_fits(
            self.rect.bottom,
            self.rect.top,
        )
    }

    pub fn short_label(&self, index: usize) -> (s: String)
        requires
            index < usize::MAX,
        ensures
            s@ == self@.label(index as nat),
    {
        let mut s: String = "Monitor ".to_string();
        push_decimal(&mut s, (index + 1) as u64);
        if self.primary {
            s.append(" - Primary");
        }
        assert(s@ =~= self@.label(index as nat));
        s
    }
}

/// The smallest rectangle around `r` and `s`.
pub open spec fn join(r: RECT, s: RECT) -> RECT {
    RECT {
        left: if r.left <= s.left {
            r.left
        } else {
            s.left
        },
        top: if r.top <= s.top {
            r.top
        } else {
            s.top
        },
        right: if r.right >= s.right {
            r.right
        } else {
            s.right
        },
        bottom: if r.bottom >= s.bottom {
            r.bottom
        } else {
            s.bottom
        },
    }
}

/// The rectangle around all monitors. Around none it is turned inside out.
pub open spec fn bounds(ms: Seq<MonitorView>) -> RECT
    decreases ms.len(),
{
    if ms.len() == 0 {
        RECT { left: i32::MAX, top: i32::MAX, right: i32::MIN, bottom: i32::MIN }
    } else {
        join(bounds(ms.drop_last()), ms.last().rect)
    }
}

/// The rectangle around all monitors.
pub fn virtual_bounds(monitors: &[Monitor]) -> (r: RECT)
    ensures
        r == bounds(monitor_views(monitors@)),
{
    let mut r: RECT = RECT { left: i32::MAX, top: i32::MAX, right: i32::MIN, bottom: i32::MIN };
    let mut i: usize = 0;
    let ghost ms = monitor_views(monitors@);
    while i < monitors.len()
        invariant
            i <= monitors@.len(),
            ms == monitor_views(monitors@),
            r == bounds(ms.take(i as int)),
        decreases monitors@.len() - i,
    {
        let m: RECT = monitors[i].rect;
        if m.left < r.left {
            r.left = m.left;
        }
        if m.top < r.top {
            r.top = m.top;
        }
        if m.right > r.right {
            r.right = m.right;
        }
        if m.bottom > r.bottom {
            r.bottom = m.bottom;
        }
        assert(ms.take(i + 1).drop_last() =~= ms.take(i as int));
        assert(ms.take(i + 1).last() == monitors@[i as int]@);
        i += 1;
    }
    assert(ms.take(i as int) =~= ms);
    r
}

/// Whether the two lists hold equal monitors in the same order.
pub fn monitors_equal(left: &[Monitor], right: &[Monitor]) -> (b: bool)
    ensures
        b == (monitor_views(left@) == monitor_views(right@)),
{
    let ghost ls = monitor_views(left@);
    let ghost rs = monitor_views(right@);
    if left.len() != right.len() {
        assert(ls.len() != rs.len());
        return false;
    }
    let mut i: usize = 0;
    while i < left.len()
        invariant
            i <= left@.len() == right@.len(),
            ls == monitor_views(left@),
            rs == monitor_views(right@),
            forall|j: int| 0 <= j < i ==> ls[j] == rs[j],
        decreases left@.len() - i,
    {
        let l: &Monitor = &left[i];
        let r: &Monitor = &right[i];
        if !(l.rect == r.rect && l.work_rect == r.work_rect && l.device == r.device && l.primary
            == r.primary) {
            assert(ls[i as int] != rs[i as int]);
            return false;
        }
        assert(ls[i as int] == rs[i as int]);
        i += 1;
    }
    assert(ls =~= rs);
    true
}

/// Whether a lock on a monitor of `ls` is a lock on the same monitor of `rs`.
pub open spec fn same_targets(ls: Seq<MonitorView>, rs: Seq<MonitorView>) -> bool {
    ls.len() == rs.len() && forall|i: int|
        0 <= i < ls.len() ==> (#[trigger] ls[i]).same_target(rs[i])
}

/// Whether the two lists are equal but for the work areas.
pub fn lock_targets_equal(left: &[Monitor], right: &[Monitor]) -> (b: bool)
    ensures
        b == same_targets(monitor_views(left@), monitor_views(right@)),
{
    let ghost ls = monitor_views(left@);
    let ghost rs = monitor_views(right@);
    if left.len() != right.len() {
        return false;
    }
    let mut i: usize = 0;
    while i < left.len()
        invariant
            i <= left@.len() == right@.len(),
            ls == monitor_views(left@),
            rs == monitor_views(right@),
            forall|j: int| 0 <= j < i ==> (#[trigger] ls[j]).same_target(rs[j]),
        decreases left@.len() - i,
    {
        let l: &Monitor = &left[i];
        let r: &Monitor = &right[i];
        if !(l.rect == r.rect && l.device == r.device && l.primary == r.primary) {
            assert(!ls[i as int].same_target(rs[i as int]));
            return false;
        }
        assert(ls[i as int].same_target(rs[i as int]));
        i += 1;
    }
    true
}

/// One monitor in a drawing of all of them. Coordinates count from the top left corner
/// of the rectangle around all monitors.
pub struct Tile {
    pub rect: RECT,
    pub selected: bool,
    /// The number of the monitor, counted from one.
    pub label: String,
}

/// What a [`Tile`] stands for.
pub struct TileView {
    pub rect: RECT,
    pub selected: bool,
    pub label: Seq<char>,
}

impl View for Tile {
    type V = TileView;

    open spec fn view(&self) -> TileView {
        TileView { rect: self.rect, selected: self.selected, label: self.label@ }
    }
}

/// A drawing of all monitors.
pub struct MonitorLayout {
    pub width: i32,
    pub height: i32,
    pub tiles: Vec<Tile>,
}

/// `r` with its coordinates counted from the top left corner of `around`.
pub open spec fn relative(r: RECT, around: RECT) -> RECT {
    RECT {
        left: (r.left - around.left) as i32,
        top: (r.top - around.top) as i32,
        right: (r.right - around.left) as i32,
        bottom: (r.bottom - around.top) as i32,
    }
}

/// Whether the coordinates of `r`, counted from the corner of `around`, are numbers that
/// can be computed with.
pub open spec fn relative_fits(r: RECT, around: RECT) -> bool {
    fits(r.left - around.left) && fits(r.top - around.top) && fits(r.right - around.left) && fits(
        r.bottom - around.top,
    )
}

/// Whether a drawing of the monitors can be computed.
pub open spec fn drawable(ms: Seq<MonitorView>) -> bool {
    let b = bounds(ms);
    &&& fits(b.right - b.left) && fits(b.bottom - b.top)
    &&& forall|i: int| 0 <= i < ms.len() ==> relative_fits((#[trigger] ms[i]).rect, b)
}

/// `n`, or one where it is less.
pub open spec fn at_least_one(n: int) -> int {
    if n < 1 {
        1
    } else {
        n
    }
}

/// The tile of the monitor `index`.
pub open spec fn tile(ms: Seq<MonitorView>, selected: usize, index: int) -> TileView {
    TileView {
        rect: relative(ms[index].rect, bounds(ms)),
        selected: index == selected,
        label: decimal((index + 1) as nat),
    }
}

/// Whether a drawing of the monitors can be computed.
pub fn is_drawable(monitors: &[Monitor]) -> (b: bool)
    ensures
        b == (monitors@.len() == 0 || drawable(monitor_views(monitors@))),
{
    let ghost ms = monitor_views(monitors@);
    let around: RECT = virtual_bounds(monitors);
    if monitors.len() == 0 {
        return true;
    }
    if !(difference_fits(around.right, around.left) && difference_fits(around.bottom, around.top)) {
        return false;
    }
    let mut i: usize = 0;
    while i < monitors.len()
        invariant
            i <= monitors@.len(),
            ms == monitor_views(monitors@),
            around == bounds(ms),
            monitors@.len() > 0,
            forall|j: int| 0 <= j < i ==> relative_fits((#[trigger] ms[j]).rect, around),
        decreases monitors@.len() - i,
    {
        let r: RECT = monitors[i].rect;
        assert(r == ms[i as int].rect);
        if !(difference_fits(r.left, around.left) && difference_fits(r.top, around.top)
            && difference_fits(r.right, around.left) && difference_fits(r.bottom, around.top)) {
            return false;
        }
        i += 1;
    }
    true
}

/// The drawing of the monitors, where there is one at least.
pub fn layout(monitors: &[Monitor], selected: usize) -> (l: Option<MonitorLayout>)
    requires
        monitors@.len() > 0 ==> drawable(monitor_views(monitors@)),
    ensures
        l is None == (monitors@.len() == 0),
        l matches Some(l) ==> {
            let ms = monitor_views(monitors@);
            let b = bounds(ms);
            &&& l.width == at_least_one(b.right - b.left)
            &&& l.height == at_least_one(b.bottom - b.top)
            &&& l.tiles@.len() == ms.len()
            &&& forall|i: int|
                0 <= i < ms.len() ==> (#[trigger] l.tiles@[i])@ == tile(ms, selected, i)
        },
{
    if monitors.len() == 0 {
        return None;
    }
    let ghost ms = monitor_views(monitors@);
    let around: RECT = virtual_bounds(monitors);
    let mut tiles: Vec<Tile> = Vec::new();
    let mut i: usize = 0;
    while i < monitors.len()
        invariant
            i <= monitors@.len(),
            ms == monitor_views(monitors@),
            drawable(ms),
            around == bounds(ms),
            tiles@.len() == i,
            forall|j: int| 0 <= j < i ==> (#[trigger] tiles@[j])@ == tile(ms, selected, j),
        decreases monitors@.len() - i,
    {
        let r: RECT = monitors[i].rect;
        assert(r == ms[i as int].rect);
        let mut label: String = String::new();
        push_decimal(&mut label, i as u64 + 1);
        assert(label@ =~= decimal((i + 1) as nat));
        tiles.push(
            Tile {
                rect: RECT {
                    left: r.left - around.left,
                    top: r.top - around.top,
                    right: r.right - around.left,
                    bottom: r.bottom - around.top,
                },
                selected: i == selected,
                label,
            },
        );
        i += 1;
    }
    let width: i32 = around.right - around.left;
    let height: i32 = around.bottom - around.top;
    Some(
        MonitorLayout {
            width: if width < 1 {
                1
            } else {
                width
            },
            height: if height < 1 {
                1
            } else {
                height
            },
            tiles,
        },
    )
}

/// The last marked position.
pub open spec fn last_marked(marks: Seq<bool>) -> Option<int>
    decreases marks.len(),
{
    if marks.len() == 0 {
        None
    } else if marks.last() {
        Some(marks.len() - 1)
    } else {
        last_marked(marks.drop_last())
    }
}

/// The tile that a click selects, where `hits` marks the tiles under the pointer: the one
/// drawn last.
pub fn clicked_tile(hits: &[bool]) -> (index: Option<usize>)
    ensures
        index is Some == last_marked(hits@) is Some,
        index is Some ==> index->0 == last_marked(hits@)->0 && index->0 < hits@.len()
            && hits@[index->0 as int],
{
    let mut i: usize = hits.len();
    assert(hits@.take(i as int) =~= hits@);
    while i > 0
        invariant
            i <= hits@.len(),
            last_marked(hits@) == last_marked(hits@.take(i as int)),
        decreases i,
    {
        if hits[i - 1] {
            return Some(i - 1);
        }
        assert(hits@.take(i as int).drop_last() =~= hits@.take(i - 1));
        i -= 1;
    }
    None
}

/// Whether `outer` holds every point of `inner`.
pub open spec fn encloses(outer: RECT, inner: RECT) -> bool {
    outer.left <= inner.left && outer.top <= inner.top && outer.right >= inner.right
        && outer.bottom >= inner.bottom
}

/// The rectangle around all monitors encloses each of them, and every rectangle that
/// does so encloses it.
pub proof fn law_bounds_are_tight(ms: Seq<MonitorView>)
    ensures
        forall|i: int| 0 <= i < ms.len() ==> encloses(bounds(ms), (#[trigger] ms[i]).rect),
        forall|r: RECT|
            (forall|i: int| 0 <= i < ms.len() ==> encloses(r, (#[trigger] ms[i]).rect))
                ==> #[trigger] encloses(r, bounds(ms)),
    decreases ms.len(),
{
    if ms.len() > 0 {
        let front = ms.drop_last();
        law_bounds_are_tight(front);
        assert forall|i: int| 0 <= i < ms.len() implies encloses(
            bounds(ms),
            (#[trigger] ms[i]).rect,
        ) by {
            if i < front.len() {
                assert(front[i] == ms[i]);
            }
        }
        assert forall|r: RECT|
            (forall|i: int| 0 <= i < ms.len() ==> encloses(r, (#[trigger] ms[i]).rect)) implies
            #[trigger] encloses(r, bounds(ms)) by {
            assert forall|i: int| 0 <= i < front.len() implies encloses(
                r,
                (#[trigger] front[i]).rect,
            ) by {
                assert(front[i] == ms[i]);
            }
            assert(encloses(r, bounds(front)));
            assert(encloses(r, ms[ms.len() - 1].rect));
        }
    }
}

/// Equal lists of monitors have equal lock targets.
pub proof fn law_equal_monitors_are_equal_targets(ls: Seq<MonitorView>, rs: Seq<MonitorView>)
    requires
        ls == rs,
    ensures
        same_targets(ls, rs),
{
}

/// Every tile lies in the drawing.
pub proof fn law_tiles_lie_in_the_drawing(ms: Seq<MonitorView>, selected: usize, index: int)
    requires
        drawable(ms),
        0 <= index < ms.len(),
    ensures
        ({
            let b = bounds(ms);
            let r = tile(ms, selected, index).rect;
            &&& 0 <= r.left && 0 <= r.top
            &&& r.right <= at_least_one(b.right - b.left)
            &&& r.bottom <= at_least_one(b.bottom - b.top)
        }),
{
    law_bounds_are_tight(ms);
    assert(encloses(bounds(ms), ms[index].rect));
    assert(relative_fits(ms[index].rect, bounds(ms)));
}

/// The size of a monitor is what leads from its one edge to the other, and can be computed
/// where it is a number of thirty-two bits.
pub proof fn law_the_size_leads_from_edge_to_edge(m: MonitorView)
    ensures
        m.rect.left + m.width() == m.rect.right,
        m.rect.top + m.height() == m.rect.bottom,
        m.measurable() == (-2147483648 <= m.width() <= 2147483647 && -2147483648 <= m.height()
            <= 2147483647),
{
}

/// Monitors are counted from one, and only the primary one is called so.
pub proof fn law_labels_count_from_one(m: MonitorView, index: nat)
    ensures
        m.primary ==> m.label(index) == "Monitor "@ + decimal(index + 1) + " - Primary"@,
        !m.primary ==> m.label(index) == "Monitor "@ + decimal(index + 1),
{
    if !m.primary {
        assert(m.label(index) =~= "Monitor "@ + decimal(index + 1));
    }
}

/// Lock targets differ exactly where the number of monitors does, or at some place the
/// rectangle, the device or which one is primary. Work areas do not matter.
pub proof fn law_what_makes_lock_targets_differ(
    ls: Seq<MonitorView>,
    rs: Seq<MonitorView>,
    i: int,
    work: Seq<RECT>,
)
    ensures
        ls.len() != rs.len() ==> !same_targets(ls, rs),
        0 <= i < ls.len() && 0 <= i < rs.len() && (ls[i].rect != rs[i].rect || ls[i].device
            != rs[i].device || ls[i].primary != rs[i].primary) ==> !same_targets(ls, rs),
        same_targets(
            ls,
            Seq::new(ls.len(), |j: int| MonitorView { work_rect: work[j], ..ls[j] }),
        ),
{
    if 0 <= i < ls.len() && 0 <= i < rs.len() && (ls[i].rect != rs[i].rect || ls[i].device
        != rs[i].device || ls[i].primary != rs[i].primary) {
        assert(!ls[i].same_target(rs[i]));
    }
}

/// Each edge of the rectangle around all monitors is the outermost of theirs.
pub proof fn law_each_edge_is_that_of_a_monitor(ms: Seq<MonitorView>, i: int)
    requires
        0 <= i < ms.len(),
    ensures
        bounds(ms).left <= ms[i].rect.left && bounds(ms).top <= ms[i].rect.top,
        bounds(ms).right >= ms[i].rect.right && bounds(ms).bottom >= ms[i].rect.bottom,
        exists|j: int| 0 <= j < ms.len() && (#[trigger] ms[j]).rect.left == bounds(ms).left,
        exists|j: int| 0 <= j < ms.len() && (#[trigger] ms[j]).rect.top == bounds(ms).top,
        exists|j: int| 0 <= j < ms.len() && (#[trigger] ms[j]).rect.right == bounds(ms).right,
        exists|j: int| 0 <= j < ms.len() && (#[trigger] ms[j]).rect.bottom == bounds(ms).bottom,
    decreases ms.len(),
{
    let front = ms.drop_last();
    let last = ms.len() - 1;
    law_bounds_are_tight(ms);
    assert(encloses(bounds(ms), ms[i].rect));
    if front.len() > 0 {
        law_each_edge_is_that_of_a_monitor(front, 0);
        let l = choose|j: int|
            0 <= j < front.len() && (#[trigger] front[j]).rect.left == bounds(front).left;
        let t = choose|j: int|
            0 <= j < front.len() && (#[trigger] front[j]).rect.top == bounds(front).top;
        let r = choose|j: int|
            0 <= j < front.len() && (#[trigger] front[j]).rect.right == bounds(front).right;
        let b = choose|j: int|
            0 <= j < front.len() && (#[trigger] front[j]).rect.bottom == bounds(front).bottom;
        assert(ms[l].rect.left == bounds(ms).left || ms[last].rect.left == bounds(ms).left);
        assert(ms[t].rect.top == bounds(ms).top || ms[last].rect.top == bounds(ms).top);
        assert(ms[r].rect.right == bounds(ms).right || ms[last].rect.right == bounds(ms).right);
        assert(ms[b].rect.bottom == bounds(ms).bottom || ms[last].rect.bottom == bounds(ms).bottom);
    } else {
        assert(bounds(front) == RECT {
            left: i32::MAX,
            top: i32::MAX,
            right: i32::MIN,
            bottom: i32::MIN,
        });
        assert(ms[last].rect == bounds(ms));
    }
}

/// A tile is its monitor, moved so that the corner of the drawing is the origin. It carries the
/// number of the monitor, counted from one, and only that of the selected one is marked.
pub proof fn law_a_tile_is_its_monitor_moved(ms: Seq<MonitorView>, selected: usize, index: int)
    requires
        drawable(ms),
        0 <= index < ms.len(),
    ensures
        ({
            let r = tile(ms, selected, index).rect;
            &&& r.left + bounds(ms).left == ms[index].rect.left
            &&& r.top + bounds(ms).top == ms[index].rect.top
            &&& r.right + bounds(ms).left == ms[index].rect.right
            &&& r.bottom + bounds(ms).top == ms[index].rect.bottom
        }),
        tile(ms, selected, index).selected == (index == selected),
        tile(ms, selected, index).label == decimal((index + 1) as nat),
{
    assert(relative_fits(ms[index].rect, bounds(ms)));
}

/// A drawing can be computed exactly where its size and the place of every tile are numbers of
/// thirty-two bits. A drawing without a size is one wide and high.
pub proof fn law_what_can_be_drawn(ms: Seq<MonitorView>, n: int)
    ensures
        drawable(ms) == ({
            let b = bounds(ms);
            &&& -2147483648 <= b.right - b.left <= 2147483647
            &&& -2147483648 <= b.bottom - b.top <= 2147483647
            &&& forall|i: int|
                0 <= i < ms.len() ==> {
                    let r = (#[trigger] ms[i]).rect;
                    &&& -2147483648 <= r.left - b.left <= 2147483647
                    &&& -2147483648 <= r.top - b.top <= 2147483647
                    &&& -2147483648 <= r.right - b.left <= 2147483647
                    &&& -2147483648 <= r.bottom - b.top <= 2147483647
                }
        }),
        n >= 1 ==> at_least_one(n) == n,
        n < 1 ==> at_least_one(n) == 1,
{
    let b = bounds(ms);
    if drawable(ms) {
        assert forall|i: int| 0 <= i < ms.len() implies {
            let r = (#[trigger] ms[i]).rect;
            &&& -2147483648 <= r.left - b.left <= 2147483647
            &&& -2147483648 <= r.top - b.top <= 2147483647
            &&& -2147483648 <= r.right - b.left <= 2147483647
            &&& -2147483648 <= r.bottom - b.top <= 2147483647
        } by {
            assert(relative_fits(ms[i].rect, b));
        }
    }
}

/// Of the marked positions the last is found, and one is found where there is one.
pub proof fn law_the_last_mark_is_found(marks: Seq<bool>, i: int)
    requires
        0 <= i < marks.len(),
        marks[i],
    ensures
        last_marked(marks) matches Some(k) && i <= k < marks.len() && marks[k],
    decreases marks.len(),
{
    if !marks.last() {
        law_the_last_mark_is_found(marks.drop_last(), i);
    }
}

/// Without a mark none is found.
pub proof fn law_no_mark_is_found_where_there_is_none(marks: Seq<bool>)
    requires
        forall|i: int| 0 <= i < marks.len() ==> !marks[i],
    ensures
        last_marked(marks) is None,
    decreases marks.len(),
{
    if marks.len() > 0 {
        law_no_mark_is_found_where_there_is_none(marks.drop_last());
    }
}

/// What a monitor and a tile stand for shows all of their parts, in the order of the list.
pub proof fn law_views_show_every_part(m: Monitor, t: Tile, ms: Seq<Monitor>, i: int)
    ensures
        m@.rect == m.rect && m@.work_rect == m.work_rect && m@.device == m.device@ && m@.primary
            == m.primary,
        t@.rect == t.rect && t@.selected == t.selected && t@.label == t.label@,
        monitor_views(ms).len() == ms.len(),
        0 <= i < ms.len() ==> monitor_views(ms)[i] == ms[i]@,
        MONITORINFOF_PRIMARY == 1,
{
}

} // verus!
