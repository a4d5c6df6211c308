//! The layout engine: constraint-based partitioning of a rectangular area.
//!
//! [`resolve_layout`] splits an area among a container's children according
//! to their declared constraints, one rectangle per child. The resolution
//! exactly tiles the (margin-shrunk) area: the child rectangles are pairwise
//! disjoint and their union is the whole inner area
//! ([`lemma_layout_tiles`]). Constraint arithmetic never produces a
//! negative-size rectangle; sizes are clamped instead.

use vstd::prelude::*;
use crate::geometry::Rect;

verus! {

/// The axis along which a layout container splits its area.
#[derive(Clone, Copy, PartialEq, Eq, Structural, Debug)]
pub enum Direction {
    Horizontal,
    Vertical,
}

/// A declarative sizing rule for one child of a layout split.
#[derive(Clone, Copy, PartialEq, Eq, Structural, Debug)]
pub enum Constraint {
    Length(u16),
    Min(u16),
    Max(u16),
    Percentage(u16),
    Ratio(u32, u32),
}

/// The extent a constraint asks for along the split axis of an area of
/// `total` cells, before clamping against the space that is still free.
/// `Percentage` and `Ratio` are rounded down and capped at `total`;
/// a `Ratio` with a zero denominator asks for the whole area.
pub open spec fn spec_desired_len(c: Constraint, total: u16) -> u16 {
    match c {
        Constraint::Length(n) => n,
        Constraint::Min(n) => n,
        Constraint::Max(n) => if n <= total {
            n
        } else {
            total
        },
        Constraint::Percentage(p) => {
            let q = (total as int) * (p as int) / 100;
            if q <= total as int {
                q as u16
            } else {
                total
            }
        },
        Constraint::Ratio(a, b) => if b == 0 {
            total
        } else {
            let q = (total as int) * (a as int) / (b as int);
            if q <= total as int {
                q as u16
            } else {
                total
            }
        },
    }
}

/// The greedy pass of a split: front to back, every chunk receives its
/// desired extent clamped to the space still free.
pub open spec fn spec_greedy_sizes(total: u16, remaining: u16, cs: Seq<Constraint>) -> Seq<u16>
    decreases cs.len(),
{
    if cs.len() == 0 {
        Seq::empty()
    } else {
        let d = spec_desired_len(cs[0], total);
        let s = if d <= remaining {
            d
        } else {
            remaining
        };
        seq![s] + spec_greedy_sizes(total, (remaining - s) as u16, cs.drop_first())
    }
}

/// The chunk that absorbs whatever space the greedy pass left over: the
/// last chunk not bounded by `Max`, or the first chunk when every one is.
/// So a `Max` bound is respected wherever exact tiling allows it, and only
/// an all-`Max` split lets tiling override a bound.
pub open spec fn spec_slack_recipient(cs: Seq<Constraint>) -> int
    decreases cs.len(),
{
    if cs.len() <= 1 {
        0
    } else if !(cs.last() is Max) {
        cs.len() - 1
    } else {
        spec_slack_recipient(cs.drop_last())
    }
}

/// The sizes of the chunks a split produces: the greedy pass, with the
/// leftover space added to the slack recipient, so the sizes always add up
/// exactly to the area being split.
pub open spec fn spec_split_sizes(total: u16, remaining: u16, cs: Seq<Constraint>) -> Seq<u16> {
    let g = spec_greedy_sizes(total, remaining, cs);
    if cs.len() == 0 {
        g
    } else {
        let rcp = spec_slack_recipient(cs);
        let slack = remaining - prefix_total(g, cs.len() as int);
        g.update(rcp, (g[rcp] + slack) as u16)
    }
}

/// The sum of the first `i` chunk sizes: the offset of chunk `i` from the
/// start of the split area.
pub open spec fn prefix_total(s: Seq<u16>, i: int) -> int
    decreases i,
{
    if i <= 0 {
        0
    } else {
        prefix_total(s, i - 1) + s[i - 1]
    }
}

/// The constraint list adjusted to the child count: truncated if longer,
/// and padded with `Ratio(1, 1)` entries if shorter, so a mismatched arity
/// never faults.
pub open spec fn spec_padded_constraints(cs: Seq<Constraint>, n: int) -> Seq<Constraint> {
    if n <= cs.len() {
        cs.take(n)
    } else {
        cs + Seq::new((n - cs.len()) as nat, |i: int| Constraint::Ratio(1, 1))
    }
}

/// The area left after applying the horizontal and vertical margins
/// uniformly on all sides, clamped so the result never has negative size.
pub open spec fn spec_margin_inner(area: Rect, h_margin: u16, v_margin: u16) -> Rect {
    let mh = if h_margin <= area.width / 2 {
        h_margin
    } else {
        area.width / 2
    };
    let mv = if v_margin <= area.height / 2 {
        v_margin
    } else {
        area.height / 2
    };
    Rect {
        x: (area.x + mh) as u16,
        y: (area.y + mv) as u16,
        width: (area.width - 2 * mh) as u16,
        height: (area.height - 2 * mv) as u16,
    }
}

/// The length of a rectangle along the split axis.
pub open spec fn axis_len(dir: Direction, r: Rect) -> u16 {
    match dir {
        Direction::Horizontal => r.width,
        Direction::Vertical => r.height,
    }
}

/// Chunk `i` of a split of `inner`: the chunks stack along the split axis
/// at consecutive offsets and span the full extent of the other axis.
pub open spec fn spec_chunk_rect(inner: Rect, dir: Direction, sizes: Seq<u16>, i: int) -> Rect {
    match dir {
        Direction::Horizontal => Rect {
            x: (inner.x + prefix_total(sizes, i)) as u16,
            y: inner.y,
            width: sizes[i],
            height: inner.height,
        },
        Direction::Vertical => Rect {
            x: inner.x,
            y: (inner.y + prefix_total(sizes, i)) as u16,
            width: inner.width,
            height: sizes[i],
        },
    }
}

/// All chunks of a split of `inner` with the given sizes.
pub open spec fn spec_chunk_rects(inner: Rect, dir: Direction, sizes: Seq<u16>) -> Seq<Rect> {
    Seq::new(sizes.len(), |i: int| spec_chunk_rect(inner, dir, sizes, i))
}

/// The rectangles a layout container's children receive: margins applied,
/// the constraint list adjusted to the child count, and the inner area
/// split along the container's direction.
pub open spec fn spec_resolve_layout(
    dir: Direction,
    cs: Seq<Constraint>,
    n_children: int,
    h_margin: u16,
    v_margin: u16,
    area: Rect,
) -> Seq<Rect> {
    let inner = spec_margin_inner(area, h_margin, v_margin);
    let total = axis_len(dir, inner);
    let sizes = spec_split_sizes(total, total, spec_padded_constraints(cs, n_children));
    spec_chunk_rects(inner, dir, sizes)
}

/// The rectangles are pairwise disjoint: no cell lies in two of them.
pub open spec fn spec_rects_disjoint(rects: Seq<Rect>) -> bool {
    forall|i: int, j: int, px: int, py: int|
        #![trigger rects[i].covers(px, py), rects[j].covers(px, py)]
        0 <= i < j < rects.len() ==> !(rects[i].covers(px, py) && rects[j].covers(px, py))
}

/// Every cell of `area` lies in at least one of the rectangles.
pub open spec fn spec_rects_cover(rects: Seq<Rect>, area: Rect) -> bool {
    forall|px: int, py: int|
        #[trigger] area.covers(px, py) ==> exists|i: int|
            0 <= i < rects.len() && (#[trigger] rects[i].covers(px, py))
}

proof fn lemma_prefix_mono(s: Seq<u16>, i: int, j: int)
    requires
        0 <= i <= j,
    ensures
        prefix_total(s, i) <= prefix_total(s, j),
    decreases j,
{
    if i < j {
        lemma_prefix_mono(s, i, j - 1);
    }
}

proof fn lemma_prefix_shift(first: u16, t: Seq<u16>, i: int)
    requires
        1 <= i <= t.len() + 1,
    ensures
        prefix_total(seq![first] + t, i) == first + prefix_total(t, i - 1),
    decreases i,
{
    let s = seq![first] + t;
    if i == 1 {
        assert(prefix_total(s, 0) == 0);
        assert(prefix_total(t, 0) == 0);
        assert(prefix_total(s, 1) == prefix_total(s, 0) + s[0]);
        assert(s[0] == first);
    } else {
        lemma_prefix_shift(first, t, i - 1);
        assert(s[i - 1] == t[i - 2]);
    }
}

proof fn lemma_prefix_frame(s1: Seq<u16>, s2: Seq<u16>, i: int)
    requires
        forall|k: int| 0 <= k < i ==> s1[k] == s2[k],
    ensures
        prefix_total(s1, i) == prefix_total(s2, i),
    decreases i,
{
    if i > 0 {
        lemma_prefix_frame(s1, s2, i - 1);
    }
}

proof fn lemma_prefix_update(s: Seq<u16>, k: int, v: u16, i: int)
    requires
        0 <= k < s.len(),
        0 <= i <= s.len(),
    ensures
        prefix_total(s.update(k, v), i) == prefix_total(s, i) + (if k < i {
            v - s[k]
        } else {
            0
        }),
    decreases i,
{
    if i > 0 {
        lemma_prefix_update(s, k, v, i - 1);
    }
}

proof fn lemma_greedy_len(total: u16, remaining: u16, cs: Seq<Constraint>)
    ensures
        spec_greedy_sizes(total, remaining, cs).len() == cs.len(),
    decreases cs.len(),
{
    if cs.len() > 0 {
        let d = spec_desired_len(cs[0], total);
        let s = if d <= remaining {
            d
        } else {
            remaining
        };
        lemma_greedy_len(total, (remaining - s) as u16, cs.drop_first());
    }
}

proof fn lemma_greedy_sum(total: u16, remaining: u16, cs: Seq<Constraint>)
    ensures
        0 <= prefix_total(spec_greedy_sizes(total, remaining, cs), cs.len() as int) <= remaining,
    decreases cs.len(),
{
    if cs.len() == 0 {
        assert(prefix_total(spec_greedy_sizes(total, remaining, cs), 0) == 0);
    } else {
        let d = spec_desired_len(cs[0], total);
        let s = if d <= remaining {
            d
        } else {
            remaining
        };
        let rest = spec_greedy_sizes(total, (remaining - s) as u16, cs.drop_first());
        lemma_greedy_len(total, (remaining - s) as u16, cs.drop_first());
        lemma_greedy_sum(total, (remaining - s) as u16, cs.drop_first());
        if cs.len() == 1 {
            assert(prefix_total(seq![s] + rest, 0) == 0);
            assert(prefix_total(seq![s] + rest, 1) == prefix_total(seq![s] + rest, 0) + (seq![s]
                + rest)[0]);
        } else {
            lemma_prefix_shift(s, rest, cs.len() as int);
        }
    }
}

proof fn lemma_recipient_range(cs: Seq<Constraint>)
    requires
        cs.len() > 0,
    ensures
        0 <= spec_slack_recipient(cs) < cs.len(),
    decreases cs.len(),
{
    if cs.len() > 1 && cs.last() is Max {
        lemma_recipient_range(cs.drop_last());
    }
}

proof fn lemma_recipient_is(cs: Seq<Constraint>, j: int)
    requires
        0 <= j < cs.len(),
        !(cs[j] is Max),
        forall|m: int| j < m < cs.len() ==> (#[trigger] cs[m]) is Max,
    ensures
        spec_slack_recipient(cs) == j,
    decreases cs.len(),
{
    if j < cs.len() - 1 {
        assert(cs.last() is Max);
        let t = cs.drop_last();
        assert(t[j] == cs[j]);
        assert forall|m: int| j < m < t.len() implies (#[trigger] t[m]) is Max by {
            assert(t[m] == cs[m]);
        }
        lemma_recipient_is(t, j);
    }
}

proof fn lemma_recipient_all_max(cs: Seq<Constraint>)
    requires
        forall|m: int| 0 <= m < cs.len() ==> (#[trigger] cs[m]) is Max,
    ensures
        spec_slack_recipient(cs) == 0,
    decreases cs.len(),
{
    if cs.len() > 1 {
        assert(cs.last() is Max);
        let t = cs.drop_last();
        assert forall|m: int| 0 <= m < t.len() implies (#[trigger] t[m]) is Max by {
            assert(t[m] == cs[m]);
        }
        lemma_recipient_all_max(t);
    }
}

proof fn lemma_split_sizes_len(total: u16, remaining: u16, cs: Seq<Constraint>)
    ensures
        spec_split_sizes(total, remaining, cs).len() == cs.len(),
{
    lemma_greedy_len(total, remaining, cs);
    if cs.len() > 0 {
        lemma_recipient_range(cs);
    }
}

proof fn lemma_split_sizes_sum(total: u16, remaining: u16, cs: Seq<Constraint>)
    requires
        cs.len() > 0,
    ensures
        prefix_total(spec_split_sizes(total, remaining, cs), cs.len() as int) == remaining,
{
    let g = spec_greedy_sizes(total, remaining, cs);
    let n = cs.len() as int;
    lemma_greedy_len(total, remaining, cs);
    lemma_greedy_sum(total, remaining, cs);
    lemma_recipient_range(cs);
    let rcp = spec_slack_recipient(cs);
    let slack = remaining - prefix_total(g, n);
    lemma_prefix_mono(g, 0, rcp);
    lemma_prefix_mono(g, rcp + 1, n);
    assert(prefix_total(g, rcp + 1) == prefix_total(g, rcp) + g[rcp]);
    assert(0 <= g[rcp] + slack <= remaining);
    lemma_prefix_update(g, rcp, (g[rcp] + slack) as u16, n);
}

proof fn lemma_prefix_cover(s: Seq<u16>, o: int)
    requires
        0 <= o < prefix_total(s, s.len() as int),
    ensures
        exists|i: int|
            0 <= i < s.len() && #[trigger] prefix_total(s, i) <= o < prefix_total(s, i) + s[i],
    decreases s.len(),
{
    if s.len() == 0 {
        assert(false);
    } else {
        let first = s[0];
        let t = s.drop_first();
        assert(s =~= seq![first] + t);
        if o < first {
            assert(prefix_total(s, 0) == 0);
            assert(prefix_total(s, 0) <= o < prefix_total(s, 0) + s[0]);
        } else {
            lemma_prefix_shift(first, t, s.len() as int);
            lemma_prefix_cover(t, o - first);
            let i = choose|i: int|
                0 <= i < t.len() && #[trigger] prefix_total(t, i) <= o - first < prefix_total(
                    t,
                    i,
                ) + t[i];
            lemma_prefix_shift(first, t, i + 1);
            assert(prefix_total(s, i + 1) == first + prefix_total(t, i));
            assert(s[i + 1] == t[i]);
            assert(prefix_total(s, i + 1) <= o < prefix_total(s, i + 1) + s[i + 1]);
        }
    }
}

/// Law: for a layout with at least one child, the child rectangles exactly
/// tile the margin-shrunk input area — they are pairwise disjoint, each lies
/// within the input area, and their union covers the whole inner area —
/// whatever the length of the constraint list (shorter than, equal to, or
/// longer than the child count).
pub proof fn lemma_layout_tiles(
    dir: Direction,
    cs: Seq<Constraint>,
    n_children: int,
    h_margin: u16,
    v_margin: u16,
    area: Rect,
)
    requires
        area.wf(),
        n_children > 0,
    ensures
        spec_rects_disjoint(spec_resolve_layout(dir, cs, n_children, h_margin, v_margin, area)),
        spec_rects_cover(
            spec_resolve_layout(dir, cs, n_children, h_margin, v_margin, area),
            spec_margin_inner(area, h_margin, v_margin),
        ),
        forall|i: int|
            0 <= i < spec_resolve_layout(dir, cs, n_children, h_margin, v_margin, area).len()
                ==> (#[trigger] spec_resolve_layout(
                dir,
                cs,
                n_children,
                h_margin,
                v_margin,
                area,
            )[i]).wf() && spec_resolve_layout(dir, cs, n_children, h_margin, v_margin, area)[i]
                .within(area),
{
    let inner = spec_margin_inner(area, h_margin, v_margin);
    let total = axis_len(dir, inner);
    let padded = spec_padded_constraints(cs, n_children);
    let sizes = spec_split_sizes(total, total, padded);
    let rects = spec_chunk_rects(inner, dir, sizes);
    assert(padded.len() == n_children);
    lemma_split_sizes_len(total, total, padded);
    lemma_split_sizes_sum(total, total, padded);
    let n = sizes.len() as int;
    assert(prefix_total(sizes, n) == total);
    assert(inner.wf());
    assert(inner.within(area));

    // Each chunk's span along the axis stays within the inner area.
    assert forall|i: int| 0 <= i < n implies 0 <= prefix_total(sizes, i) && prefix_total(sizes, i)
        + sizes[i] <= total by {
        lemma_prefix_mono(sizes, 0, i);
        lemma_prefix_mono(sizes, i + 1, n);
        assert(prefix_total(sizes, i + 1) == prefix_total(sizes, i) + sizes[i]);
    }

    lemma_layout_tiles_chunks(dir, cs, n_children, h_margin, v_margin, area);

    // Disjointness: chunks at distinct indices occupy disjoint offset ranges.
    assert forall|i: int, j: int, px: int, py: int|
        0 <= i < j < rects.len() implies !(#[trigger] rects[i].covers(px, py)
        && #[trigger] rects[j].covers(px, py)) by {
        lemma_prefix_mono(sizes, i + 1, j);
        assert(prefix_total(sizes, i + 1) == prefix_total(sizes, i) + sizes[i]);
        lemma_prefix_mono(sizes, 0, i);
        lemma_prefix_mono(sizes, j + 1, n);
        assert(prefix_total(sizes, j + 1) == prefix_total(sizes, j) + sizes[j]);
    }

    // Coverage: every cell of the inner area lies in the chunk whose offset
    // range contains the cell's offset along the split axis.
    assert forall|px: int, py: int| #[trigger] inner.covers(px, py) implies exists|i: int|
        0 <= i < rects.len() && (#[trigger] rects[i].covers(px, py)) by {
        let o = match dir {
            Direction::Horizontal => px - inner.x,
            Direction::Vertical => py - inner.y,
        };
        assert(0 <= o < total);
        lemma_prefix_cover(sizes, o);
        let i = choose|i: int|
            0 <= i < sizes.len() && #[trigger] prefix_total(sizes, i) <= o < prefix_total(
                sizes,
                i,
            ) + sizes[i];
        lemma_prefix_mono(sizes, 0, i);
        lemma_prefix_mono(sizes, i + 1, n);
        assert(prefix_total(sizes, i + 1) == prefix_total(sizes, i) + sizes[i]);
        assert(rects[i] == spec_chunk_rect(inner, dir, sizes, i));
        assert(rects[i].covers(px, py));
    }
}

/// Law: a constraint list shorter than the child count behaves identically
/// to one with explicit `Ratio(1, 1)` entries appended up to the child
/// count — both the adjusted constraint lists and the resolved rectangles
/// coincide.
pub proof fn lemma_missing_constraints_default(
    dir: Direction,
    cs: Seq<Constraint>,
    n_children: int,
    h_margin: u16,
    v_margin: u16,
    area: Rect,
)
    requires
        cs.len() <= n_children,
    ensures
        spec_padded_constraints(cs, n_children) == cs + Seq::new(
            (n_children - cs.len()) as nat,
            |i: int| Constraint::Ratio(1, 1),
        ),
        spec_resolve_layout(dir, cs, n_children, h_margin, v_margin, area)
            == spec_resolve_layout(
            dir,
            cs + Seq::new((n_children - cs.len()) as nat, |i: int| Constraint::Ratio(1, 1)),
            n_children,
            h_margin,
            v_margin,
            area,
        ),
{
    let ext = cs + Seq::new((n_children - cs.len()) as nat, |i: int| Constraint::Ratio(1, 1));
    if cs.len() == n_children {
        assert(spec_padded_constraints(cs, n_children) =~= ext);
    }
    assert(ext.len() == n_children);
    assert(spec_padded_constraints(ext, n_children) =~= ext);
    assert(spec_padded_constraints(cs, n_children) =~= ext);
}

/// The extent a constraint asks for, before clamping against free space.
pub fn desired_len(c: Constraint, total: u16) -> (r: u16)
    ensures
        r == spec_desired_len(c, total),
{
    match c {
        Constraint::Length(n) => n,
        Constraint::Min(n) => n,
        Constraint::Max(n) => if n <= total {
            n
        } else {
            total
        },
        Constraint::Percentage(p) => {
            proof {
                vstd::arithmetic::mul::lemma_mul_upper_bound(
                    total as int,
                    u16::MAX as int,
                    p as int,
                    u16::MAX as int,
                );
            }
            let q: u64 = total as u64 * p as u64 / 100;
            if q <= total as u64 {
                q as u16
            } else {
                total
            }
        },
        Constraint::Ratio(a, b) => {
            if b == 0 {
                total
            } else {
                proof {
                    vstd::arithmetic::mul::lemma_mul_upper_bound(
                        total as int,
                        u16::MAX as int,
                        a as int,
                        u32::MAX as int,
                    );
                }
                let q: u64 = total as u64 * a as u64 / b as u64;
                if q <= total as u64 {
                    q as u16
                } else {
                    total
                }
            }
        },
    }
}

/// Adjusts a constraint list to the child count: truncates extra entries
/// and pads missing ones with `Ratio(1, 1)`.
pub fn padded_constraints(cs: &Vec<Constraint>, n_children: usize) -> (r: Vec<Constraint>)
    ensures
        r@ == spec_padded_constraints(cs@, n_children as int),
        r@.len() == n_children,
{
    let mut r: Vec<Constraint> = Vec::new();
    let mut i: usize = 0;
    while i < n_children && i < cs.len()
        invariant
            i <= n_children,
            i <= cs.len(),
            r@ == cs@.take(i as int),
        decreases cs.len() - i,
    {
        r.push(cs[i]);
        proof {
            assert(cs@.take(i + 1) =~= cs@.take(i as int).push(cs@[i as int]));
        }
        i = i + 1;
    }
    while r.len() < n_children
        invariant
            cs@.len() >= n_children ==> r@ == cs@.take(n_children as int),
            cs@.len() < n_children ==> r@.len() >= cs@.len() && r@ == cs@ + Seq::new(
                (r@.len() - cs@.len()) as nat,
                |k: int| Constraint::Ratio(1, 1),
            ),
            r@.len() <= n_children,
        decreases n_children - r.len(),
    {
        proof {
            if cs@.len() >= n_children {
                assert(r@.len() == n_children);
                assert(false);
            }
        }
        r.push(Constraint::Ratio(1, 1));
        proof {
            assert(r@ =~= cs@ + Seq::new((r@.len() - cs@.len()) as nat, |k: int| Constraint::Ratio(1, 1)));
        }
    }
    proof {
        if cs@.len() < n_children {
            assert(r@ =~= spec_padded_constraints(cs@, n_children as int));
        }
    }
    r
}

/// Splits `total` cells among the constraints: the greedy pass gives each
/// chunk its desired extent clamped to the free space, then the leftover
/// goes to the last chunk not bounded by `Max` (or the first, if every one
/// is), so the sizes add up exactly to `total` while `Max` bounds are kept
/// wherever that allows.
pub fn split_lengths(total: u16, cs: &Vec<Constraint>) -> (r: Vec<u16>)
    ensures
        r@ == spec_split_sizes(total, total, cs@),
        r@.len() == cs@.len(),
{
    let n = cs.len();
    let mut r: Vec<u16> = Vec::new();
    let mut remaining: u16 = total;
    let mut i: usize = 0;
    proof {
        assert(cs@.skip(0) =~= cs@);
        assert(Seq::<u16>::empty() + spec_greedy_sizes(total, total, cs@) =~= spec_greedy_sizes(
            total,
            total,
            cs@,
        ));
    }
    while i < n
        invariant
            n == cs@.len(),
            i <= n,
            r@.len() == i,
            remaining <= total,
            remaining + prefix_total(r@, i as int) == total,
            spec_greedy_sizes(total, total, cs@) == r@ + spec_greedy_sizes(
                total,
                remaining,
                cs@.skip(i as int),
            ),
        decreases n - i,
    {
        let ghost suffix = cs@.skip(i as int);
        let ghost rold = r@;
        proof {
            assert(suffix.len() == n - i);
            assert(suffix[0] == cs@[i as int]);
            assert(suffix.drop_first() =~= cs@.skip(i + 1));
        }
        let d = desired_len(cs[i], total);
        let s = if d <= remaining {
            d
        } else {
            remaining
        };
        r.push(s);
        remaining = remaining - s;
        proof {
            lemma_prefix_frame(rold, r@, i as int);
            assert(prefix_total(r@, i + 1) == prefix_total(r@, i as int) + s);
            assert(spec_greedy_sizes(total, (remaining + s) as u16, suffix) =~= seq![s]
                + spec_greedy_sizes(total, remaining, cs@.skip(i + 1)));
            assert(r@ + spec_greedy_sizes(total, remaining, cs@.skip(i + 1)) =~= rold + (seq![s]
                + spec_greedy_sizes(total, remaining, cs@.skip(i + 1))));
        }
        i = i + 1;
    }
    proof {
        assert(cs@.skip(n as int) =~= Seq::<Constraint>::empty());
        assert(r@ + Seq::<u16>::empty() =~= r@);
        assert(r@ == spec_greedy_sizes(total, total, cs@));
    }
    if n > 0 {
        let ghost g = r@;
        // Find the slack recipient: scan back for the last chunk not
        // bounded by `Max`; the first chunk stands in when every one is.
        let mut rcp: usize = 0;
        let mut found = false;
        let mut j: usize = n;
        while j > 0 && !found
            invariant
                j <= n,
                n == cs@.len(),
                !found ==> rcp == 0,
                !found ==> forall|m: int| j <= m < n ==> (#[trigger] cs@[m]) is Max,
                found ==> rcp < n && !(cs@[rcp as int] is Max) && (forall|m: int|
                    rcp < m < n ==> (#[trigger] cs@[m]) is Max),
            decreases j,
        {
            j = j - 1;
            if !(matches!(cs[j], Constraint::Max(_))) {
                rcp = j;
                found = true;
            }
        }
        proof {
            if found {
                lemma_recipient_is(cs@, rcp as int);
            } else {
                lemma_recipient_all_max(cs@);
            }
            lemma_prefix_mono(g, 0, rcp as int);
            lemma_prefix_mono(g, rcp as int + 1, n as int);
            assert(prefix_total(g, rcp as int + 1) == prefix_total(g, rcp as int) + g[rcp as int]);
        }
        let v = r[rcp] + remaining;
        r.set(rcp, v);
        proof {
            assert(r@ == spec_split_sizes(total, total, cs@));
        }
    }
    r
}

/// Shrinks an area by the horizontal and vertical margins on all sides,
/// clamping so the result never has negative size.
pub fn margin_inner(area: Rect, h_margin: u16, v_margin: u16) -> (r: Rect)
    requires
        area.wf(),
    ensures
        r == spec_margin_inner(area, h_margin, v_margin),
        r.wf(),
        r.within(area),
{
    let mh = if h_margin <= area.width / 2 {
        h_margin
    } else {
        area.width / 2
    };
    let mv = if v_margin <= area.height / 2 {
        v_margin
    } else {
        area.height / 2
    };
    Rect {
        x: area.x + mh,
        y: area.y + mv,
        width: area.width - 2 * mh,
        height: area.height - 2 * mv,
    }
}

/// Resolves a layout container: applies the margins, adjusts the
/// constraint list to the child count, splits the inner area along the
/// direction, and returns one rectangle per child. With at least one child
/// the rectangles exactly tile the inner area (`lemma_layout_tiles`); with
/// zero children none are produced.
pub fn resolve_layout(
    dir: Direction,
    cs: &Vec<Constraint>,
    n_children: usize,
    h_margin: u16,
    v_margin: u16,
    area: Rect,
) -> (r: Vec<Rect>)
    requires
        area.wf(),
    ensures
        r@ == spec_resolve_layout(dir, cs@, n_children as int, h_margin, v_margin, area),
        r@.len() == n_children,
        forall|i: int| 0 <= i < r@.len() ==> (#[trigger] r@[i]).wf() && r@[i].within(area),
{
    let inner = margin_inner(area, h_margin, v_margin);
    let total = match dir {
        Direction::Horizontal => inner.width,
        Direction::Vertical => inner.height,
    };
    let padded = padded_constraints(cs, n_children);
    let sizes = split_lengths(total, &padded);
    proof {
        lemma_split_sizes_len(total, total, padded@);
        if n_children > 0 {
            lemma_split_sizes_sum(total, total, padded@);
        }
    }
    let ghost gsizes = sizes@;
    let n = sizes.len();
    let mut r: Vec<Rect> = Vec::new();
    let mut off: u16 = match dir {
        Direction::Horizontal => inner.x,
        Direction::Vertical => inner.y,
    };
    let ghost start = off;
    let mut i: usize = 0;
    while i < n
        invariant
            n == gsizes.len(),
            sizes@ == gsizes,
            i <= n,
            r@.len() == i,
            inner.wf(),
            inner == spec_margin_inner(area, h_margin, v_margin),
            total == axis_len(dir, inner),
            n > 0 ==> prefix_total(gsizes, n as int) == total,
            start == (match dir {
                Direction::Horizontal => inner.x,
                Direction::Vertical => inner.y,
            }),
            off == start + prefix_total(gsizes, i as int),
            forall|j: int| 0 <= j < i ==> r@[j] == spec_chunk_rect(inner, dir, gsizes, j),
        decreases n - i,
    {
        proof {
            lemma_prefix_mono(gsizes, 0, i as int);
            lemma_prefix_mono(gsizes, i + 1, n as int);
            assert(prefix_total(gsizes, i + 1) == prefix_total(gsizes, i as int) + gsizes[i as int]);
        }
        let size = sizes[i];
        let rect = match dir {
            Direction::Horizontal => Rect { x: off, y: inner.y, width: size, height: inner.height },
            Direction::Vertical => Rect { x: inner.x, y: off, width: inner.width, height: size },
        };
        r.push(rect);
        off = off + size;
        i = i + 1;
    }
    proof {
        assert(r@ =~= spec_chunk_rects(inner, dir, gsizes));
        lemma_layout_tiles_chunks(dir, cs@, n_children as int, h_margin, v_margin, area);
        let rr = spec_resolve_layout(dir, cs@, n_children as int, h_margin, v_margin, area);
        assert(r@ == rr);
        assert forall|i: int| 0 <= i < r@.len() implies (#[trigger] r@[i]).wf() && r@[i].within(
            area,
        ) by {
            assert(r@[i] == rr[i]);
        }
    }
    r
}

/// The per-chunk well-formedness facts of a resolved layout, shared by the
/// executable resolver and the tiling law.
proof fn lemma_layout_tiles_chunks(
    dir: Direction,
    cs: Seq<Constraint>,
    n_children: int,
    h_margin: u16,
    v_margin: u16,
    area: Rect,
)
    requires
        area.wf(),
    ensures
        forall|i: int|
            0 <= i < spec_resolve_layout(dir, cs, n_children, h_margin, v_margin, area).len()
                ==> (#[trigger] spec_resolve_layout(
                dir,
                cs,
                n_children,
                h_margin,
                v_margin,
                area,
            )[i]).wf() && spec_resolve_layout(dir, cs, n_children, h_margin, v_margin, area)[i]
                .within(area),
{
    let inner = spec_margin_inner(area, h_margin, v_margin);
    let total = axis_len(dir, inner);
    let padded = spec_padded_constraints(cs, n_children);
    let sizes = spec_split_sizes(total, total, padded);
    let rects = spec_chunk_rects(inner, dir, sizes);
    lemma_split_sizes_len(total, total, padded);
    let n = sizes.len() as int;
    if n > 0 {
        lemma_split_sizes_sum(total, total, padded);
    }
    assert forall|i: int| 0 <= i < n implies 0 <= prefix_total(sizes, i) && prefix_total(sizes, i)
        + sizes[i] <= total by {
        lemma_prefix_mono(sizes, 0, i);
        lemma_prefix_mono(sizes, i + 1, n);
        assert(prefix_total(sizes, i + 1) == prefix_total(sizes, i) + sizes[i]);
    }
    assert forall|i: int| 0 <= i < rects.len() implies (#[trigger] rects[i]).wf() && rects[i].within(
        area,
    ) by {
        assert(rects[i] == spec_chunk_rect(inner, dir, sizes, i));
    }
}

/// The popup sub-rectangle: `percent_x` percent of the width and
/// `percent_y` percent of the height of `area`, centered, computed by a
/// vertical three-way percentage split followed by a horizontal one on the
/// middle band. Percentages above one hundred are clamped.
pub open spec fn spec_centered_rect(percent_x: u16, percent_y: u16, area: Rect) -> Rect {
    let px = if percent_x <= 100 {
        percent_x
    } else {
        100u16
    };
    let py = if percent_y <= 100 {
        percent_y
    } else {
        100u16
    };
    let vcs = seq![
        Constraint::Percentage(((100 - py) / 2) as u16),
        Constraint::Percentage(py),
        Constraint::Percentage(((100 - py) / 2) as u16),
    ];
    let band = spec_resolve_layout(Direction::Vertical, vcs, 3, 0, 0, area)[1];
    let hcs = seq![
        Constraint::Percentage(((100 - px) / 2) as u16),
        Constraint::Percentage(px),
        Constraint::Percentage(((100 - px) / 2) as u16),
    ];
    spec_resolve_layout(Direction::Horizontal, hcs, 3, 0, 0, band)[1]
}

/// Creates the centered popup rectangle taking the given percentages of
/// the available area, by two sequential one-dimensional splits.
pub fn centered_rect(percent_x: u16, percent_y: u16, area: Rect) -> (r: Rect)
    requires
        area.wf(),
    ensures
        r == spec_centered_rect(percent_x, percent_y, area),
        r.wf(),
        r.within(area),
{
    let px = if percent_x <= 100 {
        percent_x
    } else {
        100
    };
    let py = if percent_y <= 100 {
        percent_y
    } else {
        100
    };
    let edge_y: u16 = (100 - py) / 2;
    let vcs: Vec<Constraint> = vec![
        Constraint::Percentage(edge_y),
        Constraint::Percentage(py),
        Constraint::Percentage(edge_y),
    ];
    let bands = resolve_layout(Direction::Vertical, &vcs, 3, 0, 0, area);
    let band = bands[1];
    let edge_x: u16 = (100 - px) / 2;
    let hcs: Vec<Constraint> = vec![
        Constraint::Percentage(edge_x),
        Constraint::Percentage(px),
        Constraint::Percentage(edge_x),
    ];
    let cells = resolve_layout(Direction::Horizontal, &hcs, 3, 0, 0, band);
    let r = cells[1];
    proof {
        assert(vcs@ =~= seq![
            Constraint::Percentage(((100 - py) / 2) as u16),
            Constraint::Percentage(py),
            Constraint::Percentage(((100 - py) / 2) as u16),
        ]);
        assert(hcs@ =~= seq![
            Constraint::Percentage(((100 - px) / 2) as u16),
            Constraint::Percentage(px),
            Constraint::Percentage(((100 - px) / 2) as u16),
        ]);
    }
    r
}

} // verus!
