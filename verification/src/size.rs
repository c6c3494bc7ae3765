//! The size calculator: a notification's natural width and height in cells
//! from its content, title, padding and border, clamped by its size
//! constraints against the current frame.
//!
//! Widths count characters; content height counts wrapped rows, wrapping
//! each logical line at the available interior width.

use vstd::prelude::*;

verus! {

use vstd::arithmetic::div_mod::{lemma_div_is_ordered, lemma_div_is_ordered_by_denominator};
use vstd::string::StrSliceExecFns;

use crate::geometry::Rect;
use crate::notification::{Notification, CONTENT_LIMIT};
use crate::types::SizeConstraint;

/// The character lengths of the newline-separated lines of `s`. Text with no
/// newline is one line; every newline starts a further line, so the result
/// never is empty.
pub open spec fn spec_line_lengths(s: Seq<char>) -> Seq<int>
    decreases s.len(),
{
    if s.len() == 0 {
        seq![0int]
    } else if s.last() == '\n' {
        spec_line_lengths(s.drop_last()).push(0)
    } else {
        let p = spec_line_lengths(s.drop_last());
        p.update(p.len() - 1, p.last() + 1)
    }
}

/// Appending one character either starts a new empty line (a newline) or
/// lengthens the current last line by one.
proof fn lemma_line_lengths_push(s: Seq<char>, c: char)
    ensures
        spec_line_lengths(s).len() >= 1,
        c == '\n' ==> spec_line_lengths(s.push(c)) == spec_line_lengths(s).push(0),
        c != '\n' ==> spec_line_lengths(s.push(c)) == spec_line_lengths(s).update(
            spec_line_lengths(s).len() - 1,
            spec_line_lengths(s).last() + 1,
        ),
    decreases s.len(),
{
    if s.len() > 0 {
        lemma_line_lengths_push(s.drop_last(), s.last());
    }
    assert(s.push(c).drop_last() =~= s);
    assert(s.push(c).last() == c);
}

/// The largest element of a sequence of line lengths (zero for none).
pub open spec fn spec_seq_max(q: Seq<int>) -> int
    decreases q.len(),
{
    if q.len() == 0 {
        0
    } else {
        vstd::math::max(spec_seq_max(q.drop_last()), q.last())
    }
}

/// The length, in characters, of the longest line of `s`.
pub open spec fn spec_max_line_len(s: Seq<char>) -> int {
    spec_seq_max(spec_line_lengths(s))
}

/// How many rows a line of `len` characters occupies when wrapped at `width`
/// characters per row: at least one, else the rounded-up quotient.
pub open spec fn spec_row_count(len: int, width: int) -> int {
    if len <= 0 {
        1
    } else {
        (len + width - 1) / width
    }
}

/// The total rows of a sequence of line lengths wrapped at `width`.
pub open spec fn spec_rows(lens: Seq<int>, width: int) -> int
    decreases lens.len(),
{
    if lens.len() == 0 {
        0
    } else {
        spec_rows(lens.drop_last(), width) + spec_row_count(lens.last(), width)
    }
}

/// The character lengths of the newline-separated lines of `s`.
pub fn line_lengths(s: &str) -> (r: Vec<usize>)
    ensures
        r@.len() == spec_line_lengths(s@).len(),
        forall|k: int| 0 <= k < r@.len() ==> r@[k] as int == spec_line_lengths(s@)[k],
        r@.len() <= s@.len() + 1,
        forall|k: int| 0 <= k < r@.len() ==> r@[k] <= s@.len(),
{
    let n: usize = s.unicode_len();
    let mut lens: Vec<usize> = Vec::new();
    let mut cur: usize = 0;
    let mut i: usize = 0;
    while i < n
        invariant
            n == s@.len(),
            i <= n,
            cur <= i,
            lens@.len() <= i,
            forall|k: int| 0 <= k < lens@.len() ==> lens@[k] <= n,
            lens@.len() + 1 == spec_line_lengths(s@.subrange(0, i as int)).len(),
            forall|k: int| 0 <= k < lens@.len() ==> lens@[k] as int == spec_line_lengths(
                s@.subrange(0, i as int),
            )[k],
            cur as int == spec_line_lengths(s@.subrange(0, i as int)).last(),
        decreases n - i,
    {
        let ghost prefix = s@.subrange(0, i as int);
        let c = s.get_char(i);
        proof {
            lemma_line_lengths_push(prefix, c);
            assert(s@.subrange(0, i + 1 as int) =~= prefix.push(c));
        }
        if c == '\n' {
            lens.push(cur);
            cur = 0;
        } else {
            cur = cur + 1;
        }
        i = i + 1;
    }
    proof {
        assert(s@.subrange(0, n as int) =~= s@);
    }
    lens.push(cur);
    lens
}

/// The largest value in a vector of line lengths.
pub fn max_line_len(lens: &Vec<usize>) -> (m: usize)
    ensures
        m as int == spec_seq_max(lens@.map_values(|v: usize| v as int)),
{
    let ghost q = lens@.map_values(|v: usize| v as int);
    let mut m: usize = 0;
    let mut i: usize = 0;
    while i < lens.len()
        invariant
            i <= lens@.len(),
            q == lens@.map_values(|v: usize| v as int),
            m as int == spec_seq_max(q.subrange(0, i as int)),
        decreases lens@.len() - i,
    {
        proof {
            assert(q.subrange(0, i + 1 as int).drop_last() =~= q.subrange(0, i as int));
            assert(q.subrange(0, i + 1 as int).last() == q[i as int]);
        }
        let v = lens[i];
        if v > m {
            m = v;
        }
        i = i + 1;
    }
    proof {
        assert(q.subrange(0, lens@.len() as int) =~= q);
    }
    m
}

/// The total rows of the given line lengths wrapped at `width` characters.
pub fn wrapped_rows(lens: &Vec<usize>, width: usize) -> (r: usize)
    requires
        1 <= width <= u16::MAX,
        lens@.len() <= CONTENT_LIMIT + 1,
        forall|k: int| 0 <= k < lens@.len() ==> lens@[k] <= CONTENT_LIMIT,
    ensures
        r as int == spec_rows(lens@.map_values(|v: usize| v as int), width as int),
        r <= lens@.len() * (CONTENT_LIMIT + u16::MAX as int),
{
    let ghost q = lens@.map_values(|v: usize| v as int);
    let mut acc: usize = 0;
    let mut i: usize = 0;
    while i < lens.len()
        invariant
            i <= lens@.len(),
            lens@.len() <= CONTENT_LIMIT + 1,
            forall|k: int| 0 <= k < lens@.len() ==> lens@[k] <= CONTENT_LIMIT,
            1 <= width <= u16::MAX,
            q == lens@.map_values(|v: usize| v as int),
            acc as int == spec_rows(q.subrange(0, i as int), width as int),
            acc <= i * (CONTENT_LIMIT + u16::MAX as int),
        decreases lens@.len() - i,
    {
        proof {
            assert(q.subrange(0, i + 1 as int).drop_last() =~= q.subrange(0, i as int));
            assert(q.subrange(0, i + 1 as int).last() == q[i as int]);
        }
        let l = lens[i];
        let row: usize = if l == 0 {
            1
        } else {
            (l + width - 1) / width
        };
        proof {
            if l > 0 {
                lemma_div_is_ordered_by_denominator(l + width - 1, 1, width as int);
                assert(row <= l + width - 1);
            }
            assert(row <= CONTENT_LIMIT + u16::MAX as int);
            assert((i + 1) * (CONTENT_LIMIT + u16::MAX as int) == i * (CONTENT_LIMIT
                + u16::MAX as int) + (CONTENT_LIMIT + u16::MAX as int)) by (nonlinear_arith);
            assert(i * (CONTENT_LIMIT + u16::MAX as int) <= 4096 * (4096 + 65535))
                by (nonlinear_arith)
                requires 0 <= i <= 4096;
        }
        acc = acc + row;
        i = i + 1;
    }
    proof {
        assert(q.subrange(0, lens@.len() as int) =~= q);
    }
    acc
}

/// The effective upper bound a size constraint puts on one dimension:
/// absolute cells, a whole-percent share of the frame's dimension, or the
/// frame's dimension itself when no constraint is set.
pub open spec fn spec_resolve_max(c: Option<SizeConstraint>, frame_dim: int) -> int {
    match c {
        None => frame_dim,
        Some(SizeConstraint::Absolute(n)) => n as int,
        Some(SizeConstraint::Percentage(p)) => frame_dim * p / 100,
    }
}

/// The effective upper bound a size constraint puts on one dimension.
fn resolve_max(c: Option<SizeConstraint>, frame_dim: u16) -> (r: u32)
    requires
        (c matches Some(SizeConstraint::Percentage(p)) ==> p <= 100),
    ensures
        r == spec_resolve_max(c, frame_dim as int),
        r <= u16::MAX,
{
    match c {
        None => frame_dim as u32,
        Some(SizeConstraint::Absolute(n)) => n as u32,
        Some(SizeConstraint::Percentage(p)) => {
            proof {
                assert(frame_dim as int * p as int <= 65535 * 65535) by (nonlinear_arith)
                    requires 0 <= frame_dim <= 65535 && 0 <= p <= 65535;
            }
            let raw: u64 = frame_dim as u64 * p as u64 / 100;
            proof {
                assert(frame_dim as int * p as int <= frame_dim as int * 100) by (nonlinear_arith)
                    requires 0 <= p <= 100 && frame_dim >= 0;
                lemma_div_is_ordered(frame_dim as int * p as int, frame_dim as int * 100, 100);
                assert(frame_dim as int * 100 / 100 == frame_dim as int) by (nonlinear_arith);
            }
            raw as u32
        },
    }
}

/// The cells a notification's chrome (padding plus border) adds to the
/// content width.
pub open spec fn spec_chrome_w(n: Notification) -> int {
    n.padding.left + n.padding.right + 2 * match n.border_type {
        Some(b) => b.spec_thickness() as int,
        None => 0,
    }
}

/// The cells a notification's chrome adds to the content height.
pub open spec fn spec_chrome_h(n: Notification) -> int {
    n.padding.top + n.padding.bottom + 2 * match n.border_type {
        Some(b) => b.spec_thickness() as int,
        None => 0,
    }
}

/// The width `calculate_size` chooses: the longest content line or the
/// title, whichever is wider, plus chrome, capped by the width constraint
/// and floored at the minimum box size.
pub open spec fn spec_calc_width(n: Notification, frame: Rect) -> int {
    let content_w = spec_max_line_len(n.content@);
    let title_w: int = match n.title {
        Some(t) => t@.len() as int,
        None => 0,
    };
    let natural = vstd::math::max(content_w, title_w) + spec_chrome_w(n);
    let cap = spec_resolve_max(n.max_width, frame.width as int);
    vstd::math::max(vstd::math::min(natural, cap), 3)
}

/// The height `calculate_size` chooses: the content's rows when wrapped at
/// the interior width left inside the chosen width, plus chrome, capped by
/// the height constraint and floored at the minimum box size.
pub open spec fn spec_calc_height(n: Notification, frame: Rect) -> int {
    let width = spec_calc_width(n, frame);
    let avail = vstd::math::max(width - spec_chrome_w(n), 1);
    let rows = spec_rows(spec_line_lengths(n.content@), avail);
    let natural = rows + spec_chrome_h(n);
    let cap = spec_resolve_max(n.max_height, frame.height as int);
    vstd::math::max(vstd::math::min(natural, cap), 3)
}

/// A notification's size in cells against the current frame.
///
/// The width is the longest content line or the title (whichever is wider)
/// plus padding and border, capped by the width constraint (percentages are
/// resolved against this frame) and floored at three cells. The height
/// counts the content's rows when each line is wrapped at the interior width
/// that remains, plus padding and border, capped and floored the same way.
pub fn calculate_size(notification: &Notification, frame_area: Rect) -> (r: (u16, u16))
    requires
        notification.wf(),
    ensures
        r.0 as int == spec_calc_width(*notification, frame_area),
        r.1 as int == spec_calc_height(*notification, frame_area),
        3 <= r.0,
        3 <= r.1,
{
    let lens = line_lengths(notification.content.as_str());
    proof {
        assert(lens@.map_values(|v: usize| v as int) =~= spec_line_lengths(
            notification.content@,
        ));
    }
    let content_w: usize = max_line_len(&lens);
    proof {
        lemma_seq_max_bound(lens@.map_values(|v: usize| v as int), CONTENT_LIMIT as int);
    }
    let title_w: usize = match &notification.title {
        Some(t) => t.as_str().unicode_len(),
        None => 0,
    };
    let border_each: u16 = match notification.border_type {
        Some(b) => b.thickness(),
        None => 0,
    };
    let chrome_w: u32 = notification.padding.left as u32 + notification.padding.right as u32 + 2
        * border_each as u32;
    let chrome_h: u32 = notification.padding.top as u32 + notification.padding.bottom as u32 + 2
        * border_each as u32;

    let inner_w: u32 = if content_w as u32 > title_w as u32 {
        content_w as u32
    } else {
        title_w as u32
    };
    let natural_w: u32 = inner_w + chrome_w;
    let cap_w: u32 = resolve_max(notification.max_width, frame_area.width);
    let capped_w: u32 = if natural_w < cap_w { natural_w } else { cap_w };
    let width: u16 = if capped_w > 3 { capped_w as u16 } else { 3 };

    let avail: u32 = if width as u32 > chrome_w { width as u32 - chrome_w } else { 1 };
    let rows: usize = wrapped_rows(&lens, avail as usize);
    let natural_h: u64 = rows as u64 + chrome_h as u64;
    let cap_h: u64 = resolve_max(notification.max_height, frame_area.height) as u64;
    let capped_h: u64 = if natural_h < cap_h { natural_h } else { cap_h };
    let height: u16 = if capped_h > 3 { capped_h as u16 } else { 3 };

    (width, height)
}

/// Every element of `q` at most `b` bounds the maximum by `b` (and the
/// maximum of line lengths is never negative).
proof fn lemma_seq_max_bound(q: Seq<int>, b: int)
    requires
        b >= 0,
        forall|k: int| 0 <= k < q.len() ==> q[k] <= b,
    ensures
        0 <= spec_seq_max(q) <= b,
    decreases q.len(),
{
    if q.len() > 0 {
        lemma_seq_max_bound(q.drop_last(), b);
    }
}

} // verus!
