//! Screen geometry: rectangles, the per-class hit-testing rules, and the
//! size and position computations for the custom tooltip window.
//!
//! Boundary convention, pinned once for the whole library: a rectangle
//! contains a point when `left <= x <= right` and `top <= y <= bottom`
//! (both edges inclusive), and a rectangle whose bounds query failed or
//! came back zero-sized (`right <= left` or `bottom <= top`) contains no
//! point at all.
use vstd::prelude::*;
use crate::classes::{spec_classify, classify_class_name, TargetClass};

verus! {

/// A rectangle in screen coordinates, as the window system reports it.
#[derive(Clone, Copy, PartialEq, Eq, Structural, Debug)]
pub struct Rect {
    pub left: i32,
    pub top: i32,
    pub right: i32,
    pub bottom: i32,
}

/// A usable (non-stale, non-zero-sized) rectangle.
pub open spec fn nondegenerate(r: Rect) -> bool {
    r.left < r.right && r.top < r.bottom
}

/// Inclusive containment in the exact rectangle.
pub open spec fn in_rect(x: int, y: int, r: Rect) -> bool {
    r.left <= x <= r.right && r.top <= y <= r.bottom
}

/// The x coordinate where the rightmost third of `r` begins.
pub open spec fn right_third_start(r: Rect) -> int {
    r.left + (r.right - r.left) * 2 / 3
}

/// Inclusive containment in the rightmost third of the rectangle, the
/// sub-region of the notification area where the clock sits.
pub open spec fn in_right_third(x: int, y: int, r: Rect) -> bool {
    right_third_start(r) <= x <= r.right && r.top <= y <= r.bottom
}

/// The hit-test rule for one target: no rectangle or a degenerate one
/// never contains a point; a clock control and a fallback container use
/// the exact rectangle; the notification area uses its rightmost third.
pub open spec fn spec_hit(x: int, y: int, class: TargetClass, bounds: Option<Rect>) -> bool {
    match bounds {
        None => false,
        Some(r) => nondegenerate(r) && match class {
            TargetClass::ClockExact => in_rect(x, y, r),
            TargetClass::NotifyRestricted => in_right_third(x, y, r),
            TargetClass::Fallback => in_rect(x, y, r),
        },
    }
}

/// Hit-test a point against a single target's current bounds.
pub fn point_hits_target(x: i32, y: i32, class: TargetClass, bounds: &Option<Rect>) -> (r: bool)
    ensures
        r == spec_hit(x as int, y as int, class, *bounds),
{
    match bounds {
        None => false,
        Some(rc) => {
            if !(rc.left < rc.right && rc.top < rc.bottom) {
                return false;
            }
            let in_y = rc.top <= y && y <= rc.bottom;
            match class {
                TargetClass::NotifyRestricted => {
                    let width: i64 = rc.right as i64 - rc.left as i64;
                    let start: i64 = rc.left as i64 + width * 2 / 3;
                    start <= x as i64 && x <= rc.right && in_y
                },
                _ => rc.left <= x && x <= rc.right && in_y,
            }
        },
    }
}

/// One discovered target as the hook sees it on an event: its class name,
/// resolved once at discovery, and its bounds, re-queried live for this
/// very event (`None` when the query failed).
pub struct ResolvedTarget {
    pub name: Vec<u8>,
    pub bounds: Option<Rect>,
}

/// Whether any target in the set contains the point under its class rule.
pub open spec fn spec_any_hit(x: int, y: int, ts: Seq<ResolvedTarget>) -> bool {
    exists|i: int| 0 <= i < ts.len() && spec_hit(x, y, spec_classify(ts[i].name@), ts[i].bounds)
}

/// The hit-test oracle: walk the targets in discovery order and report
/// whether the point falls in any of them; the first match decides.
pub fn is_point_in_targets(x: i32, y: i32, ts: &Vec<ResolvedTarget>) -> (r: bool)
    ensures
        r == spec_any_hit(x as int, y as int, ts@),
{
    let mut i: usize = 0;
    while i < ts.len()
        invariant
            i <= ts@.len(),
            forall|j: int| 0 <= j < i ==> !spec_hit(x as int, y as int, spec_classify(ts@[j].name@), ts@[j].bounds),
        decreases ts@.len() - i,
    {
        let t = &ts[i];
        let class = classify_class_name(t.name.as_slice());
        if point_hits_target(x, y, class, &t.bounds) {
            return true;
        }
        i = i + 1;
    }
    false
}

/// The taskbar band test the deferred tooltip check uses: a window whose
/// top edge lies within 200 pixels of the bottom of the screen is taken
/// to sit in the taskbar area.
pub fn rect_in_taskbar_band(r: &Rect, screen_height: i32) -> (b: bool)
    ensures
        b == (r.top > screen_height - 200),
{
    (r.top as i64) > (screen_height as i64 - 200)
}

/// Width and height for the custom tooltip window, from the text to show:
/// wide enough for the longest line at eight pixels a character but at
/// least 250, and tall enough for every line at sixteen pixels plus
/// padding but at least 60. A line is a maximal run of bytes between
/// newline bytes; the line count is one more than the newline count.
pub open spec fn spec_tooltip_size(text: Seq<u8>) -> (int, int) {
    (
        max_int(250, max_line_len(text) * 8int),
        max_int(60, (count_byte_occurrences(text, 10) + 1nat) * 16int + 20int),
    )
}

pub open spec fn max_int(a: int, b: int) -> int {
    if a >= b { a } else { b }
}

/// How often `c` occurs in `s`.
pub open spec fn count_byte_occurrences(s: Seq<u8>, c: u8) -> nat
    decreases s.len(),
{
    if s.len() == 0 {
        0
    } else {
        count_byte_occurrences(s.drop_last(), c) + if s.last() == c { 1nat } else { 0nat }
    }
}

/// Length of the longest newline-separated line, as a fold with the
/// current run length and the best run seen so far.
pub open spec fn max_line_len_from(s: Seq<u8>, cur: nat, best: nat) -> nat
    decreases s.len(),
{
    if s.len() == 0 {
        max_int(cur as int, best as int) as nat
    } else if s[0] == 10 {
        max_line_len_from(s.subrange(1, s.len() as int), 0, max_int(cur as int, best as int) as nat)
    } else {
        max_line_len_from(s.subrange(1, s.len() as int), cur + 1, best)
    }
}

pub open spec fn max_line_len(s: Seq<u8>) -> nat {
    max_line_len_from(s, 0, 0)
}

/// Compute the tooltip window size for `text`.
pub fn tooltip_size(text: &[u8]) -> (wh: (i32, i32))
    requires
        text@.len() <= 100000000,
    ensures
        (wh.0 as int, wh.1 as int) == spec_tooltip_size(text@),
{
    let n: usize = text.len();
    let mut i: usize = 0;
    let mut newlines: usize = 0;
    let mut cur: usize = 0;
    let mut best: usize = 0;
    proof {
        assert(text@.subrange(0, n as int) =~= text@);
        assert(text@.subrange(0, 0) =~= Seq::<u8>::empty());
    }
    while i < n
        invariant
            n == text@.len(),
            n <= 100000000,
            i <= n,
            newlines <= i,
            newlines == count_byte_occurrences(text@.subrange(0, i as int), 10),
            cur <= i,
            best <= i,
            max_line_len(text@) == max_line_len_from(text@.subrange(i as int, n as int), cur as nat, best as nat),
        decreases n - i,
    {
        proof {
            let pre = text@.subrange(0, i as int);
            let post = text@.subrange(0, i + 1 as int);
            assert(post.drop_last() =~= pre);
            assert(post.last() == text@[i as int]);
            let suf = text@.subrange(i as int, n as int);
            let suf1 = text@.subrange(i + 1 as int, n as int);
            assert(suf.subrange(1, suf.len() as int) =~= suf1);
            assert(suf[0] == text@[i as int]);
        }
        if text[i] == 10 {
            newlines = newlines + 1;
            if cur > best {
                best = cur;
            }
            cur = 0;
        } else {
            cur = cur + 1;
        }
        i = i + 1;
    }
    proof {
        assert(text@.subrange(0, n as int) =~= text@);
        assert(text@.subrange(n as int, n as int) =~= Seq::<u8>::empty());
        assert(max_line_len(text@) == max_int(cur as int, best as int));
        assert(count_byte_occurrences(text@, 10) == newlines);
    }
    let maxlen: usize = if cur > best { cur } else { best };
    let w64: u64 = (maxlen as u64) * 8;
    let h64: u64 = ((newlines as u64) + 1) * 16 + 20;
    let w: i32 = if w64 < 250 { 250 } else { w64 as i32 };
    let h: i32 = if h64 < 60 { 60 } else { h64 as i32 };
    (w, h)
}

/// Where to place the tooltip window: beside and above the cursor, flipped
/// to the left when it would leave the right screen edge, and moved below
/// the cursor when it would leave the top edge.
pub open spec fn spec_tooltip_position(x: int, y: int, w: int, h: int, screen_w: int) -> (int, int) {
    let tx = if x + 15 + w > screen_w { x - w - 15 } else { x + 15 };
    let ty = if y - h - 10 < 0 { y + 25 } else { y - h - 10 };
    (tx, ty)
}

/// Compute the tooltip window position.
pub fn tooltip_position(x: i32, y: i32, w: i32, h: i32, screen_w: i32) -> (p: (i32, i32))
    requires
        0 <= w,
        0 <= h,
        x + 15 <= i32::MAX,
        i32::MIN <= x - w - 15,
        y + 25 <= i32::MAX,
        i32::MIN <= y - h - 10,
    ensures
        (p.0 as int, p.1 as int) == spec_tooltip_position(x as int, y as int, w as int, h as int, screen_w as int),
{
    let tx: i32 = if (x as i64) + 15 + (w as i64) > (screen_w as i64) {
        x - w - 15
    } else {
        x + 15
    };
    let ty: i32 = if (y as i64) - (h as i64) - 10 < 0 {
        y + 25
    } else {
        y - h - 10
    };
    (tx, ty)
}

/// The area of the tooltip's client rectangle that text is drawn into:
/// the client rectangle shrunk by an eight-pixel margin on every side.
pub fn text_area(client: &Rect) -> (r: Rect)
    requires
        i32::MIN + 8 <= client.right,
        i32::MIN + 8 <= client.bottom,
    ensures
        r.left == 8 && r.top == 8 && r.right == client.right - 8 && r.bottom == client.bottom - 8,
{
    Rect { left: 8, top: 8, right: client.right - 8, bottom: client.bottom - 8 }
}

} // verus!
