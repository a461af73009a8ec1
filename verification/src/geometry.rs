//! Integer rectangles and the geometry of moving the selection and resizing text: the
//! selection's bounding box, how far a move may go before leaving the screen, and how wide
//! a text box may be dragged.
use vstd::prelude::*;

verus! {

/// A non-empty rectangle of integer pixels whose far edges are representable.
#[derive(Debug, Clone, Copy, PartialEq, Eq, Structural)]
pub struct Rect {
    pub x: i32,
    pub y: i32,
    pub width: i32,
    pub height: i32,
}

impl Rect {
    /// Positive size, and the right and bottom edges fit in an `i32`.
    pub open spec fn wf(self) -> bool {
        &&& self.width > 0
        &&& self.height > 0
        &&& self.x + self.width <= i32::MAX
        &&& self.y + self.height <= i32::MAX
    }

    /// A rectangle from its origin and size; none when it would be empty or its far edges
    /// would not fit.
    pub fn new(x: i32, y: i32, width: i32, height: i32) -> (r: Option<Rect>)
        ensures
            r == if width > 0 && height > 0 && x + width <= i32::MAX && y + height <= i32::MAX {
                Some(Rect { x, y, width, height })
            } else {
                None
            },
            r matches Some(rect) ==> rect.wf(),
    {
        if width > 0 && height > 0 && x as i64 + width as i64 <= i32::MAX as i64 && y as i64 + height as i64
            <= i32::MAX as i64 {
            Some(Rect { x, y, width, height })
        } else {
            None
        }
    }

    /// A rectangle from its corners; none unless the maximum lies strictly beyond the
    /// minimum on both axes (with a size that fits).
    pub fn from_min_max(min_x: i32, min_y: i32, max_x: i32, max_y: i32) -> (r: Option<Rect>)
        ensures
            r == if min_x < max_x && min_y < max_y && max_x - min_x <= i32::MAX && max_y - min_y <= i32::MAX {
                Some(Rect { x: min_x, y: min_y, width: (max_x - min_x) as i32, height: (max_y - min_y) as i32 })
            } else {
                None
            },
            r matches Some(rect) ==> rect.wf(),
    {
        if min_x < max_x && min_y < max_y && (max_x as i64 - min_x as i64) <= i32::MAX as i64 && (max_y as i64
            - min_y as i64) <= i32::MAX as i64 {
            Some(Rect { x: min_x, y: min_y, width: max_x - min_x, height: max_y - min_y })
        } else {
            None
        }
    }

    pub open spec fn right(self) -> int {
        self.x + self.width
    }

    pub open spec fn bottom(self) -> int {
        self.y + self.height
    }
}

/// A selected shape as the selection geometry sees it: its bounding box (none when the
/// shape is gone or has no extent), and whether it is locked.
#[derive(Debug, Clone, Copy, PartialEq, Eq, Structural)]
pub struct SelectedBox {
    pub bounds: Option<Rect>,
    pub locked: bool,
}

/// Whether a box takes part: it has bounds, and it is unlocked unless all shapes count.
pub open spec fn counts(b: SelectedBox, include_locked: bool) -> bool {
    b.bounds is Some && (include_locked || !b.locked)
}

/// The union of the counted boxes as (min x, min y, max x, max y), or none.
pub open spec fn union_extent(s: Seq<SelectedBox>, include_locked: bool) -> Option<(int, int, int, int)>
    decreases s.len(),
{
    if s.len() == 0 {
        None
    } else {
        let rest = union_extent(s.drop_last(), include_locked);
        let b = s.last();
        if !counts(b, include_locked) {
            rest
        } else {
            let r = b.bounds->0;
            match rest {
                None => Some((r.x as int, r.y as int, r.right(), r.bottom())),
                Some((a, c, e, f)) => Some(
                    (
                        if r.x < a { r.x as int } else { a },
                        if r.y < c { r.y as int } else { c },
                        if r.right() > e { r.right() } else { e },
                        if r.bottom() > f { r.bottom() } else { f },
                    ),
                ),
            }
        }
    }
}

/// The bounding box of the counted boxes: none when none counts.
pub open spec fn spec_union_box(s: Seq<SelectedBox>, include_locked: bool) -> Option<Rect> {
    match union_extent(s, include_locked) {
        None => None,
        Some((a, c, e, f)) => if a < e && c < f && e - a <= i32::MAX && f - c <= i32::MAX {
            Some(Rect { x: a as i32, y: c as i32, width: (e - a) as i32, height: (f - c) as i32 })
        } else {
            None
        },
    }
}

proof fn lemma_extent_in_range(s: Seq<SelectedBox>, include_locked: bool)
    requires
        forall|i: int| 0 <= i < s.len() && (#[trigger] s[i]).bounds is Some ==> s[i].bounds->0.wf(),
    ensures
        union_extent(s, include_locked) matches Some((a, c, e, f)) ==> i32::MIN <= a && a < e && e <= i32::MAX
            && i32::MIN <= c && c < f && f <= i32::MAX,
    decreases s.len(),
{
    if s.len() > 0 {
        assert forall|i: int| 0 <= i < s.drop_last().len() && (#[trigger] s.drop_last()[i]).bounds is Some implies s.drop_last()[i].bounds->0.wf() by {
            assert(s.drop_last()[i] == s[i]);
        }
        lemma_extent_in_range(s.drop_last(), include_locked);
        assert(s.last() == s[s.len() - 1]);
    }
}

/// Every counted box lies within the extent `(a, c, e, f)`.
pub open spec fn extent_covers(s: Seq<SelectedBox>, include_locked: bool, a: int, c: int, e: int, f: int) -> bool {
    forall|i: int|
        0 <= i < s.len() && counts(#[trigger] s[i], include_locked) ==> a <= s[i].bounds->0.x && c
            <= s[i].bounds->0.y && s[i].bounds->0.right() <= e && s[i].bounds->0.bottom() <= f
}

/// Each edge of the extent `(a, c, e, f)` is the matching edge of some counted box.
pub open spec fn extent_attained(s: Seq<SelectedBox>, include_locked: bool, a: int, c: int, e: int, f: int) -> bool {
    &&& exists|i: int| 0 <= i < s.len() && counts(#[trigger] s[i], include_locked) && s[i].bounds->0.x == a
    &&& exists|i: int| 0 <= i < s.len() && counts(#[trigger] s[i], include_locked) && s[i].bounds->0.y == c
    &&& exists|i: int| 0 <= i < s.len() && counts(#[trigger] s[i], include_locked) && s[i].bounds->0.right() == e
    &&& exists|i: int| 0 <= i < s.len() && counts(#[trigger] s[i], include_locked) && s[i].bounds->0.bottom() == f
}

proof fn lemma_extent_tight(s: Seq<SelectedBox>, include_locked: bool)
    ensures
        union_extent(s, include_locked) is None <==> (forall|i: int| 0 <= i < s.len() ==> !counts(#[trigger] s[i], include_locked)),
        union_extent(s, include_locked) matches Some((a, c, e, f)) ==> extent_covers(s, include_locked, a, c, e, f)
            && extent_attained(s, include_locked, a, c, e, f),
    decreases s.len(),
{
    if s.len() > 0 {
        let t = s.drop_last();
        let n = s.len() - 1;
        lemma_extent_tight(t, include_locked);
        assert forall|i: int| 0 <= i < t.len() implies #[trigger] t[i] == s[i] by {}
        assert(s.last() == s[n]);
        let b = s[n];
        if !counts(b, include_locked) {
            if let Some((a, c, e, f)) = union_extent(t, include_locked) {
                let i0 = choose|i: int| 0 <= i < t.len() && counts(#[trigger] t[i], include_locked) && t[i].bounds->0.x == a;
                let i1 = choose|i: int| 0 <= i < t.len() && counts(#[trigger] t[i], include_locked) && t[i].bounds->0.y == c;
                let i2 = choose|i: int| 0 <= i < t.len() && counts(#[trigger] t[i], include_locked) && t[i].bounds->0.right() == e;
                let i3 = choose|i: int| 0 <= i < t.len() && counts(#[trigger] t[i], include_locked) && t[i].bounds->0.bottom() == f;
                assert(t[i0] == s[i0] && t[i1] == s[i1] && t[i2] == s[i2] && t[i3] == s[i3]);
                assert(counts(s[i0], include_locked) && counts(s[i1], include_locked));
                assert(counts(s[i2], include_locked) && counts(s[i3], include_locked));
                assert forall|i: int| 0 <= i < s.len() && counts(#[trigger] s[i], include_locked) implies a <= s[i].bounds->0.x && c
                    <= s[i].bounds->0.y && s[i].bounds->0.right() <= e && s[i].bounds->0.bottom() <= f by {
                    if i < n {
                        assert(t[i] == s[i]);
                        assert(counts(t[i], include_locked));
                    }
                }
            } else {
                assert forall|i: int| 0 <= i < s.len() implies !counts(#[trigger] s[i], include_locked) by {
                    if i < n {
                        assert(t[i] == s[i]);
                        assert(!counts(t[i], include_locked));
                    }
                }
            }
        } else {
            let r = b.bounds->0;
            assert(counts(s[n], include_locked));
            match union_extent(t, include_locked) {
                None => {
                    assert forall|i: int| 0 <= i < s.len() && counts(#[trigger] s[i], include_locked) implies i == n by {
                        if i < n {
                            assert(t[i] == s[i]);
                            assert(!counts(t[i], include_locked));
                        }
                    }
                },
                Some((a0, c0, e0, f0)) => {
                    let a = if r.x < a0 { r.x as int } else { a0 };
                    let c = if r.y < c0 { r.y as int } else { c0 };
                    let e = if r.right() > e0 { r.right() } else { e0 };
                    let f = if r.bottom() > f0 { r.bottom() } else { f0 };
                    assert(union_extent(s, include_locked) == Some((a, c, e, f)));
                    assert forall|i: int| 0 <= i < s.len() && counts(#[trigger] s[i], include_locked) implies a <= s[i].bounds->0.x && c
                        <= s[i].bounds->0.y && s[i].bounds->0.right() <= e && s[i].bounds->0.bottom() <= f by {
                        if i < n {
                            assert(t[i] == s[i]);
                            assert(counts(t[i], include_locked));
                        }
                    }
                    let i0 = choose|i: int| 0 <= i < t.len() && counts(#[trigger] t[i], include_locked) && t[i].bounds->0.x == a0;
                    let i1 = choose|i: int| 0 <= i < t.len() && counts(#[trigger] t[i], include_locked) && t[i].bounds->0.y == c0;
                    let i2 = choose|i: int| 0 <= i < t.len() && counts(#[trigger] t[i], include_locked) && t[i].bounds->0.right() == e0;
                    let i3 = choose|i: int| 0 <= i < t.len() && counts(#[trigger] t[i], include_locked) && t[i].bounds->0.bottom() == f0;
                    assert(t[i0] == s[i0] && t[i1] == s[i1] && t[i2] == s[i2] && t[i3] == s[i3]);
                    assert(counts(s[i0], include_locked) && counts(s[i1], include_locked));
                    assert(counts(s[i2], include_locked) && counts(s[i3], include_locked));
                    if r.x < a0 {
                        assert(s[n].bounds->0.x == a);
                    } else {
                        assert(s[i0].bounds->0.x == a);
                    }
                    if r.y < c0 {
                        assert(s[n].bounds->0.y == c);
                    } else {
                        assert(s[i1].bounds->0.y == c);
                    }
                    if r.right() > e0 {
                        assert(s[n].bounds->0.right() == e);
                    } else {
                        assert(s[i2].bounds->0.right() == e);
                    }
                    if r.bottom() > f0 {
                        assert(s[n].bounds->0.bottom() == f);
                    } else {
                        assert(s[i3].bounds->0.bottom() == f);
                    }
                },
            }
        }
    }
}

/// The bounding box of the counted boxes is the smallest box that covers them all: it
/// covers every counted box, and each of its four edges is an edge of some counted box.
/// There is none exactly when no box counts or the union is too large for an `i32` size.
pub proof fn lemma_union_box_is_the_tightest_cover(s: Seq<SelectedBox>, include_locked: bool)
    ensures
        spec_union_box(s, include_locked) matches Some(u) ==> {
            &&& forall|i: int|
                0 <= i < s.len() && counts(#[trigger] s[i], include_locked) ==> u.x <= s[i].bounds->0.x && u.y
                    <= s[i].bounds->0.y && s[i].bounds->0.right() <= u.right() && s[i].bounds->0.bottom()
                    <= u.bottom()
            &&& exists|i: int| 0 <= i < s.len() && counts(#[trigger] s[i], include_locked) && s[i].bounds->0.x == u.x
            &&& exists|i: int| 0 <= i < s.len() && counts(#[trigger] s[i], include_locked) && s[i].bounds->0.y == u.y
            &&& exists|i: int| 0 <= i < s.len() && counts(#[trigger] s[i], include_locked) && s[i].bounds->0.right()
                == u.right()
            &&& exists|i: int| 0 <= i < s.len() && counts(#[trigger] s[i], include_locked) && s[i].bounds->0.bottom()
                == u.bottom()
        },
        (forall|i: int| 0 <= i < s.len() ==> !counts(#[trigger] s[i], include_locked)) ==> spec_union_box(
            s,
            include_locked,
        ) is None,
{
    lemma_extent_tight(s, include_locked);
}

/// The bounding box of the selected shapes (all of them, or only the unlocked ones, which
/// are those a move affects). Boxes are well formed.
pub fn union_box(boxes: &Vec<SelectedBox>, include_locked: bool) -> (r: Option<Rect>)
    requires
        forall|i: int| 0 <= i < boxes@.len() && (#[trigger] boxes@[i]).bounds is Some ==> boxes@[i].bounds->0.wf(),
    ensures
        r == spec_union_box(boxes@, include_locked),
{
    let mut min_x: i32 = i32::MAX;
    let mut min_y: i32 = i32::MAX;
    let mut max_x: i32 = i32::MIN;
    let mut max_y: i32 = i32::MIN;
    let mut found = false;
    let mut i: usize = 0;
    while i < boxes.len()
        invariant
            i <= boxes.len(),
            forall|k: int| 0 <= k < boxes@.len() && (#[trigger] boxes@[k]).bounds is Some ==> boxes@[k].bounds->0.wf(),
            found == (union_extent(boxes@.take(i as int), include_locked) is Some),
            found ==> union_extent(boxes@.take(i as int), include_locked) == Some(
                (min_x as int, min_y as int, max_x as int, max_y as int),
            ),
        decreases boxes.len() - i,
    {
        let b = boxes[i];
        proof {
            let t = boxes@.take(i as int + 1);
            assert(t.drop_last() == boxes@.take(i as int));
            assert(t.last() == b);
        }
        if b.bounds.is_some() && (include_locked || !b.locked) {
            match b.bounds {
                Some(r) => {
                    assert(boxes@[i as int] == b);
                    let right = r.x + r.width;
                    let bottom = r.y + r.height;
                    if !found {
                        min_x = r.x;
                        min_y = r.y;
                        max_x = right;
                        max_y = bottom;
                    } else {
                        if r.x < min_x {
                            min_x = r.x;
                        }
                        if r.y < min_y {
                            min_y = r.y;
                        }
                        if right > max_x {
                            max_x = right;
                        }
                        if bottom > max_y {
                            max_y = bottom;
                        }
                    }
                    found = true;
                },
                None => {},
            }
        }
        i += 1;
    }
    assert(boxes@.take(boxes.len() as int) == boxes@);
    proof {
        lemma_extent_in_range(boxes@, include_locked);
    }
    if found {
        Rect::from_min_max(min_x, min_y, max_x, max_y)
    } else {
        None
    }
}

/// Clamps a value into the `i32` range.
pub open spec fn sat(v: int) -> int {
    if v > i32::MAX {
        i32::MAX as int
    } else if v < i32::MIN {
        i32::MIN as int
    } else {
        v
    }
}

/// The lowest and highest move along one axis that keeps a span of `size` at `position`
/// on a screen of `screen` pixels: inside it when it fits, covering it when it is larger.
pub open spec fn axis_limits(position: i32, size: i32, screen: i32) -> (int, int) {
    let end = sat(position + size);
    if size <= screen {
        (sat(0 - position), sat(screen - end))
    } else {
        (sat(screen - end), sat(0 - position))
    }
}

/// A move along one axis clamped to the limits; unclamped when the screen or the span is
/// empty.
pub open spec fn spec_clamp_axis_delta(position: i32, size: i32, screen: i32, delta: i32) -> int {
    if screen <= 0 || size <= 0 {
        delta as int
    } else {
        let (lo, hi) = axis_limits(position, size, screen);
        if delta < lo {
            lo
        } else if delta > hi {
            hi
        } else {
            delta as int
        }
    }
}

fn sat_i32(v: i64) -> (r: i32)
    ensures
        r == sat(v as int),
{
    if v > i32::MAX as i64 {
        i32::MAX
    } else if v < i32::MIN as i64 {
        i32::MIN
    } else {
        v as i32
    }
}

/// Clamps a move along one axis (see `spec_clamp_axis_delta`). The limits must be ordered,
/// which holds whenever the span's far edge is representable.
pub fn clamp_axis_delta(position: i32, size: i32, screen: i32, delta: i32) -> (d: i32)
    requires
        screen > 0 && size > 0 ==> axis_limits(position, size, screen).0 <= axis_limits(position, size, screen).1,
    ensures
        d == spec_clamp_axis_delta(position, size, screen, delta),
{
    if screen <= 0 || size <= 0 {
        return delta;
    }
    let end = sat_i32(position as i64 + size as i64);
    let (lo, hi) = if size <= screen {
        (sat_i32(0 - position as i64), sat_i32(screen as i64 - end as i64))
    } else {
        (sat_i32(screen as i64 - end as i64), sat_i32(0 - position as i64))
    };
    if delta < lo {
        lo
    } else if delta > hi {
        hi
    } else {
        delta
    }
}

/// The limits of a non-empty span whose far edge is representable, on a non-empty screen,
/// are ordered, so a clamped move lies between them.
pub proof fn lemma_axis_limits_ordered(position: i32, size: i32, screen: i32)
    requires
        screen > 0,
        size > 0,
        position + size <= i32::MAX,
    ensures
        axis_limits(position, size, screen).0 <= axis_limits(position, size, screen).1,
{
}

/// A move of a span that lies on the screen keeps it there: the clamped move leaves the
/// span inside the screen, is the requested move whenever that already keeps it inside, and
/// never goes further than the request nor in the other direction.
pub proof fn lemma_clamped_move_stays_on_screen(position: i32, size: i32, screen: i32, delta: i32)
    requires
        size > 0,
        0 <= position,
        position + size <= screen,
    ensures
        0 <= position + spec_clamp_axis_delta(position, size, screen, delta),
        position + spec_clamp_axis_delta(position, size, screen, delta) + size <= screen,
        0 <= position + delta && position + delta + size <= screen ==> spec_clamp_axis_delta(
            position,
            size,
            screen,
            delta,
        ) == delta,
        delta >= 0 ==> 0 <= spec_clamp_axis_delta(position, size, screen, delta) <= delta,
        delta <= 0 ==> delta <= spec_clamp_axis_delta(position, size, screen, delta) <= 0,
{
}

/// A screen size in pixels as an `i32` (capped).
pub open spec fn screen_i32(v: u32) -> i32 {
    if v > i32::MAX as u32 {
        i32::MAX
    } else {
        v as i32
    }
}

fn cap_i32(v: u32) -> (r: i32)
    ensures
        r == screen_i32(v),
{
    if v > i32::MAX as u32 {
        i32::MAX
    } else {
        v as i32
    }
}

/// The move of the selection clamped to the screen, given the bounds of its unlocked
/// shapes; none when there are no such bounds. A zero component stays zero.
pub fn clamp_selection_translation(bounds: Option<Rect>, surface_width: u32, surface_height: u32, dx: i32, dy: i32) -> (r:
    Option<(i32, i32)>)
    requires
        bounds matches Some(b) ==> b.wf(),
    ensures
        match bounds {
            None => r is None,
            Some(b) => r == Some(
                (
                    (if dx == 0 {
                        0int
                    } else {
                        spec_clamp_axis_delta(b.x, b.width, screen_i32(surface_width), dx)
                    }) as i32,
                    (if dy == 0 {
                        0int
                    } else {
                        spec_clamp_axis_delta(b.y, b.height, screen_i32(surface_height), dy)
                    }) as i32,
                ),
            ),
        },
{
    match bounds {
        None => None,
        Some(b) => {
            proof {
                if screen_i32(surface_width) > 0 {
                    lemma_axis_limits_ordered(b.x, b.width, screen_i32(surface_width));
                }
                if screen_i32(surface_height) > 0 {
                    lemma_axis_limits_ordered(b.y, b.height, screen_i32(surface_height));
                }
            }
            let w = cap_i32(surface_width);
            let h = cap_i32(surface_height);
            let cx = if dx == 0 { 0 } else { clamp_axis_delta(b.x, b.width, w, dx) };
            let cy = if dy == 0 { 0 } else { clamp_axis_delta(b.y, b.height, h, dy) };
            Some((cx, cy))
        },
    }
}

/// The move that takes the selection to a screen edge along one axis: to `0`, or until its
/// far edge meets the screen's end. None without bounds, on an empty screen, or when the
/// selection is already there.
pub fn edge_move(position: i32, size: i32, screen: u32, to_start: bool) -> (d: Option<i32>)
    requires
        size > 0,
        position + size <= i32::MAX,
        i32::MIN <= (if to_start { 0 - position } else { screen_i32(screen) - size - position }) <= i32::MAX,
    ensures
        screen_i32(screen) <= 0 ==> d is None,
        screen_i32(screen) > 0 ==> {
            let target: int = if to_start { 0 } else { screen_i32(screen) - size };
            if target - position == 0 {
                d is None
            } else {
                d == Some((target - position) as i32)
            }
        },
{
    let s = cap_i32(screen);
    if s <= 0 {
        return None;
    }
    let target: i32 = if to_start { 0 } else { s - size };
    let delta = target - position;
    if delta == 0 {
        None
    } else {
        Some(delta)
    }
}

/// The narrowest a text box may be dragged, in pixels, whatever its font size.
pub const TEXT_WRAP_MIN_WIDTH: i32 = 40;

/// The width a text box takes when its resize handle is dragged to `cursor_x`: at least one
/// pixel; on a non-empty screen no wider than the space right of `base_x` (and at least
/// `min_width` when that fits), otherwise at least `min_width`.
pub open spec fn spec_wrap_width(base_x: i32, cursor_x: i32, min_width: i32, surface_width: u32) -> int {
    let raw = cursor_x - base_x;
    let width = if raw < 1 { 1 } else { raw };
    let screen = screen_i32(surface_width);
    if screen > 0 {
        let space = sat(screen - base_x);
        let max_width = if space < 1 { 1 } else { space };
        let target_min = if min_width < max_width { min_width as int } else { max_width };
        let w1 = if width < target_min { target_min } else { width };
        if w1 > max_width { max_width } else { w1 }
    } else {
        if width < min_width { min_width as int } else { width }
    }
}

/// Clamps the width of a dragged text box (see `spec_wrap_width`). `min_width` is the
/// font-dependent minimum, itself at least `TEXT_WRAP_MIN_WIDTH`.
pub fn clamp_text_wrap_width(base_x: i32, cursor_x: i32, min_width: i32, surface_width: u32) -> (w: i32)
    requires
        i32::MIN <= cursor_x - base_x <= i32::MAX,
    ensures
        w == spec_wrap_width(base_x, cursor_x, min_width, surface_width),
{
    let raw = cursor_x - base_x;
    let mut width = if raw < 1 { 1 } else { raw };
    let screen = cap_i32(surface_width);
    if screen > 0 {
        let space = sat_i32(screen as i64 - base_x as i64);
        let max_width = if space < 1 { 1 } else { space };
        let target_min = if min_width < max_width { min_width } else { max_width };
        if width < target_min {
            width = target_min;
        }
        if width > max_width {
            width = max_width;
        }
    } else if width < min_width {
        width = min_width;
    }
    width
}

/// On a non-empty screen a dragged text box is at least one pixel wide and never reaches
/// past the screen's right edge (when its left edge is on screen).
pub proof fn lemma_wrap_width_fits(base_x: i32, cursor_x: i32, min_width: i32, surface_width: u32)
    requires
        screen_i32(surface_width) > 0,
        0 <= base_x < screen_i32(surface_width),
    ensures
        1 <= spec_wrap_width(base_x, cursor_x, min_width, surface_width),
        base_x + spec_wrap_width(base_x, cursor_x, min_width, surface_width) <= screen_i32(surface_width),
{
}

/// Dragging a text box's handle to a point right of its left edge, far enough for the
/// minimum width and still on the screen, makes the box exactly that wide.
pub proof fn lemma_wrap_width_follows_the_cursor(base_x: i32, cursor_x: i32, min_width: i32, surface_width: u32)
    requires
        screen_i32(surface_width) > 0,
        0 <= base_x,
        1 <= min_width,
        base_x + min_width <= cursor_x <= screen_i32(surface_width),
    ensures
        spec_wrap_width(base_x, cursor_x, min_width, surface_width) == cursor_x - base_x,
{
}


/// The move actually applied to the selection: none for a zero request, without movable
/// bounds, or when clamping leaves nothing to move.
pub fn translation_to_apply(bounds: Option<Rect>, surface_width: u32, surface_height: u32, dx: i32, dy: i32) -> (r:
    Option<(i32, i32)>)
    requires
        bounds matches Some(b) ==> b.wf(),
    ensures
        (dx == 0 && dy == 0) || bounds is None ==> r is None,
        !(dx == 0 && dy == 0) ==> (bounds matches Some(b) ==> {
            let cx = if dx == 0 { 0int } else { spec_clamp_axis_delta(b.x, b.width, screen_i32(surface_width), dx) };
            let cy = if dy == 0 { 0int } else { spec_clamp_axis_delta(b.y, b.height, screen_i32(surface_height), dy) };
            if cx == 0 && cy == 0 {
                r is None
            } else {
                r == Some((cx as i32, cy as i32))
            }
        }),
{
    if dx == 0 && dy == 0 {
        return None;
    }
    match clamp_selection_translation(bounds, surface_width, surface_height, dx, dy) {
        None => None,
        Some((cx, cy)) => if cx == 0 && cy == 0 {
            None
        } else {
            Some((cx, cy))
        },
    }
}


/// A selected shape by id: whether it is still present and whether it is locked.
#[derive(Debug, Clone, Copy, PartialEq, Eq, Structural)]
pub struct SelectedShape {
    pub id: u64,
    pub present: bool,
    pub locked: bool,
}

/// The ids of the selected shapes a move affects: those that exist and are unlocked, in
/// selection order.
pub open spec fn movable(s: Seq<SelectedShape>) -> Seq<u64>
    decreases s.len(),
{
    if s.len() == 0 {
        Seq::empty()
    } else {
        let rest = movable(s.drop_last());
        if s.last().present && !s.last().locked {
            rest.push(s.last().id)
        } else {
            rest
        }
    }
}

/// The ids whose snapshots a move records for undo (see `movable`).
pub fn movable_selection_ids(shapes: &Vec<SelectedShape>) -> (ids: Vec<u64>)
    ensures
        ids@ == movable(shapes@),
{
    let mut ids: Vec<u64> = Vec::new();
    let mut i: usize = 0;
    while i < shapes.len()
        invariant
            i <= shapes.len(),
            ids@ == movable(shapes@.take(i as int)),
        decreases shapes.len() - i,
    {
        let s = shapes[i];
        proof {
            let t = shapes@.take(i as int + 1);
            assert(t.drop_last() == shapes@.take(i as int));
            assert(t.last() == s);
        }
        if s.present && !s.locked {
            ids.push(s.id);
        }
        i += 1;
    }
    assert(shapes@.take(shapes.len() as int) == shapes@);
    ids
}

/// Whether a resized text box takes a new wrap width: only an unlocked text or sticky-note
/// shape whose width differs.
pub fn wrap_width_changes(present: bool, locked: bool, is_text: bool, current: Option<i32>, new_width: i32) -> (b: bool)
    ensures
        b == (present && !locked && is_text && current != Some(new_width)),
{
    if !present || locked || !is_text {
        return false;
    }
    match current {
        Some(w) => w != new_width,
        None => true,
    }
}

} // verus!
