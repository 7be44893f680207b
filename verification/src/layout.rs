//! The discrete part of callout layout: which callouts stack on a side and in
//! what order (offset levels), how a label is anchored, and whether it is
//! rendered on two lines.

use vstd::prelude::*;
use crate::text::{chars_of, find_first, find_from, find_from_exec, skip_white_space, string_of_range, trim_start};
use crate::types::{Side, TextAnchor, side_is_horizontal};

verus! {

/// `": "`, the separator between a label's prefix and its value.
pub open spec fn label_separator() -> Seq<char> {
    seq![':', ' ']
}

/// Whether a label is rendered as two lines (it holds `": "`).
pub open spec fn is_two_line(label: Seq<char>) -> bool {
    find_first(label, label_separator()) is Some
}

/// The two lines of a two-line label: the prefix up to and including the first
/// `':'` of the first `": "`, and the rest after that separator without its
/// leading white space.
pub open spec fn label_lines(label: Seq<char>) -> Option<(Seq<char>, Seq<char>)> {
    match find_first(label, label_separator()) {
        Some(p) => Some((label.take(p + 1), trim_start(label.skip(p + 2)))),
        None => None,
    }
}

/// Whether a label will be rendered as two lines (contains `": "`).
pub fn is_two_line_label(label: &str) -> (b: bool)
    ensures
        b == is_two_line(label@),
        b == (label_lines(label@) is Some),
        b == holds_separator(label@),
{
    proof {
        lemma_two_line_iff_separator(label@);
    }
    let v = chars_of(label);
    let sep = vec![':', ' '];
    assert(sep@ =~= label_separator());
    find_from_exec(&v, &sep, 0).is_some()
}

/// Splitting undoes joining: a label made of a prefix without `": "`, the
/// separator `": "` and a value that does not start with white space splits
/// into the prefix with its colon and the value.
pub proof fn lemma_label_lines_of_joined(prefix: Seq<char>, value: Seq<char>)
    requires
        !holds_separator(prefix),
        value.len() == 0 || !crate::text::is_white_space(value[0]),
    ensures
        label_lines(prefix + ": "@ + value) == Some((prefix.push(':'), value)),
{
    reveal_strlit(": ");
    let l = prefix + ": "@ + value;
    let n = prefix.len() as int;
    assert(l[n] == ':' && l[n + 1] == ' ');
    assert(l.subrange(n, n + 2) =~= label_separator());
    assert(crate::text::matches_at(l, label_separator(), n));
    crate::text::lemma_find_from_spec(l, label_separator(), 0);
    match find_first(l, label_separator()) {
        Some(k) => {
            if k < n {
                assert(l.subrange(k, k + 2) == label_separator());
                assert(l.subrange(k, k + 2)[0] == l[k]);
                assert(l.subrange(k, k + 2)[1] == l[k + 1]);
                assert(l[k] == ':' && l[k + 1] == ' ');
                if k + 1 < n {
                    assert(l[k] == prefix[k] && l[k + 1] == prefix[k + 1]);
                    assert(prefix[k] == ':' && prefix[k + 1] == ' ');
                    assert(holds_separator(prefix));
                } else {
                    assert(l[k + 1] == l[n]);
                }
            }
        },
        None => {},
    }
    assert(find_first(l, label_separator()) == Some(n));
    assert(l.take(n + 1) =~= prefix.push(':'));
    assert(l.skip(n + 2) =~= value);
}

/// Splits a two-line label into its prefix line (`"Outside:"`) and its value
/// line; `None` for a single-line label.
pub fn split_two_line_label(label: &str) -> (r: Option<(String, String)>)
    ensures
        r is Some <==> is_two_line(label@),
        r matches Some((a, b)) ==> label_lines(label@) == Some((a@, b@)),
{
    let v = chars_of(label);
    let sep = vec![':', ' '];
    assert(sep@ =~= label_separator());
    match find_from_exec(&v, &sep, 0) {
        Some(pos) => {
            let n = v.len();
            proof {
                crate::text::lemma_find_from_spec(v@, label_separator(), 0);
                assert(find_from(v@, label_separator(), 0) == Some(pos as int));
                assert(crate::text::matches_at(v@, label_separator(), pos as int));
                assert(label_separator().len() == 2);
                assert(pos + 2 <= n);
            }
            let prefix = string_of_range(&v, 0, pos + 1);
            let k = skip_white_space(&v, pos + 2);
            let value = string_of_range(&v, k, v.len());
            assert(v@.subrange(0, pos + 1) =~= v@.take(pos + 1));
            assert(v@.subrange(pos + 2, v@.len() as int) =~= v@.skip(pos + 2));
            Some((prefix, value))
        },
        None => None,
    }
}

/// Callout `a` is laid out before callout `b`: a lower priority number first,
/// and, between equal priorities, the earlier callout first.
pub open spec fn laid_out_before(priorities: Seq<u8>, a: usize, b: usize) -> bool {
    priorities[a as int] < priorities[b as int] || (priorities[a as int] == priorities[b as int]
        && a < b)
}

/// `order` lists exactly the callouts whose preferred side is `side`, each once,
/// from the one closest to the frame (offset level 0) outward.
pub open spec fn is_side_order(
    order: Seq<usize>,
    sides: Seq<Side>,
    priorities: Seq<u8>,
    side: Side,
) -> bool {
    &&& forall|k: int|
        0 <= k < order.len() ==> #[trigger] order[k] < sides.len() && sides[order[k] as int]
            == side
    &&& forall|i: int|
        0 <= i < sides.len() && sides[i] == side ==> #[trigger] order.contains(i as usize)
    &&& forall|k: int, l: int|
        0 <= k < l < order.len() ==> laid_out_before(priorities, #[trigger] order[k], #[trigger] order[l])
}

/// The callouts placed on `side`, in stacking order: offset level `k` goes to
/// `result[k]`. `sides[i]` and `priorities[i]` are the preferred side and the
/// priority of callout `i`. Grouping is by side; within a side the order is a
/// stable sort by priority.
pub fn side_order(sides: &Vec<Side>, priorities: &Vec<u8>, side: Side) -> (order: Vec<usize>)
    requires
        sides.len() == priorities.len(),
    ensures
        is_side_order(order@, sides@, priorities@, side),
        forall|k: int| 0 <= k < order.len() ==> sides@[#[trigger] order@[k] as int] == side,
        forall|k: int, l: int|
            0 <= k < l < order.len() ==> priorities@[#[trigger] order@[k] as int]
                <= priorities@[#[trigger] order@[l] as int],
        forall|k: int, l: int|
            0 <= k < l < order.len() && priorities@[#[trigger] order@[k] as int]
                == priorities@[#[trigger] order@[l] as int] ==> order@[k] < order@[l],
{
    let n = sides.len();
    let mut order: Vec<usize> = Vec::new();
    let mut p: u16 = 0;
    while p < 256
        invariant
            n == sides.len() == priorities.len(),
            p <= 256,
            forall|k: int|
                0 <= k < order.len() ==> #[trigger] order[k] < n && sides[order[k] as int]
                    == side && (priorities[order[k] as int] as int) < p,
            forall|i: int|
                0 <= i < n && sides[i] == side && (priorities[i] as int) < p
                    ==> #[trigger] order@.contains(i as usize),
            forall|k: int, l: int|
                0 <= k < l < order.len() ==> laid_out_before(priorities@, #[trigger] order[k], #[trigger] order[l]),
        decreases 256 - p,
    {
        let mut i: usize = 0;
        while i < n
            invariant
                n == sides.len() == priorities.len(),
                p < 256,
                i <= n,
                forall|k: int|
                    0 <= k < order.len() ==> #[trigger] order[k] < n && sides[order[k] as int]
                        == side && ((priorities[order[k] as int] as int) < p || (
                    priorities[order[k] as int] as int == p && order[k] < i)),
                forall|j: int|
                    0 <= j < n && sides[j] == side && ((priorities[j] as int) < p || (
                    priorities[j] as int == p && j < i)) ==> #[trigger] order@.contains(j as usize),
                forall|k: int, l: int|
                    0 <= k < l < order.len() ==> laid_out_before(priorities@, #[trigger] order[k], #[trigger] order[l]),
            decreases n - i,
        {
            if sides[i] == side && priorities[i] as u16 == p {
                let ghost old_order = order@;
                order.push(i);
                assert forall|j: int|
                    0 <= j < n && sides[j] == side && ((priorities[j] as int) < p || (
                    priorities[j] as int == p && j < i + 1)) implies #[trigger] order@.contains(j as usize) by {
                    if j == i {
                        assert(order@[old_order.len() as int] == i);
                    } else {
                        assert(old_order.contains(j as usize));
                        let w = choose|w: int| 0 <= w < old_order.len() && old_order[w] == j as usize;
                        assert(order@[w] == j as usize);
                    }
                }
            }
            i = i + 1;
        }
        p = p + 1;
    }
    assert forall|i: int| 0 <= i < n && sides[i] == side implies #[trigger] order@.contains(i as usize) by {
        assert((priorities[i] as int) < 256);
    }
    order
}

/// The four side orders split the callouts: every callout is placed on exactly
/// one side, at exactly one offset level.
pub proof fn lemma_side_orders_partition(
    sides: Seq<Side>,
    priorities: Seq<u8>,
    top: Seq<usize>,
    bottom: Seq<usize>,
    right: Seq<usize>,
    left: Seq<usize>,
    i: usize,
)
    requires
        sides.len() == priorities.len(),
        is_side_order(top, sides, priorities, Side::Top),
        is_side_order(bottom, sides, priorities, Side::Bottom),
        is_side_order(right, sides, priorities, Side::Right),
        is_side_order(left, sides, priorities, Side::Left),
        i < sides.len(),
    ensures
        top.contains(i) == (sides[i as int] == Side::Top),
        bottom.contains(i) == (sides[i as int] == Side::Bottom),
        right.contains(i) == (sides[i as int] == Side::Right),
        left.contains(i) == (sides[i as int] == Side::Left),
        forall|k: int, l: int| 0 <= k < l < top.len() ==> top[k] != top[l],
        forall|k: int, l: int| 0 <= k < l < bottom.len() ==> bottom[k] != bottom[l],
        forall|k: int, l: int| 0 <= k < l < right.len() ==> right[k] != right[l],
        forall|k: int, l: int| 0 <= k < l < left.len() ==> left[k] != left[l],
{
    assert forall|k: int, l: int| 0 <= k < l < top.len() implies top[k] != top[l] by {
        assert(laid_out_before(priorities, top[k], top[l]));
    }
    assert forall|k: int, l: int| 0 <= k < l < bottom.len() implies bottom[k] != bottom[l] by {
        assert(laid_out_before(priorities, bottom[k], bottom[l]));
    }
    assert forall|k: int, l: int| 0 <= k < l < right.len() implies right[k] != right[l] by {
        assert(laid_out_before(priorities, right[k], right[l]));
    }
    assert forall|k: int, l: int| 0 <= k < l < left.len() implies left[k] != left[l] by {
        assert(laid_out_before(priorities, left[k], left[l]));
    }
    lemma_side_order_membership(top, sides, priorities, Side::Top, i);
    lemma_side_order_membership(bottom, sides, priorities, Side::Bottom, i);
    lemma_side_order_membership(right, sides, priorities, Side::Right, i);
    lemma_side_order_membership(left, sides, priorities, Side::Left, i);
}

proof fn lemma_side_order_membership(
    order: Seq<usize>,
    sides: Seq<Side>,
    priorities: Seq<u8>,
    side: Side,
    i: usize,
)
    requires
        is_side_order(order, sides, priorities, side),
        i < sides.len(),
    ensures
        order.contains(i) == (sides[i as int] == side),
{
    if order.contains(i) {
        let w = choose|w: int| 0 <= w < order.len() && order[w] == i;
        assert(sides[order[w] as int] == side);
    }
    if sides[i as int] == side {
        assert(order.contains((i as int) as usize));
    }
}

/// `order` lists the members of `members`, each once, in layout order.
pub open spec fn lists_in_layout_order(order: Seq<usize>, members: Set<usize>, priorities: Seq<u8>) -> bool {
    &&& forall|k: int| 0 <= k < order.len() ==> members.contains(#[trigger] order[k])
    &&& forall|i: usize| members.contains(i) ==> #[trigger] order.contains(i)
    &&& forall|k: int, l: int|
        0 <= k < l < order.len() ==> laid_out_before(priorities, #[trigger] order[k], #[trigger] order[l])
}

proof fn lemma_layout_order_unique_sets(a: Seq<usize>, b: Seq<usize>, members: Set<usize>, priorities: Seq<u8>)
    requires
        lists_in_layout_order(a, members, priorities),
        lists_in_layout_order(b, members, priorities),
    ensures
        a == b,
    decreases a.len() + b.len(),
{
    if a.len() == 0 {
        if b.len() > 0 {
            assert(members.contains(b[0]));
            assert(a.contains(b[0]));
        }
        assert(b =~= a);
    } else if b.len() == 0 {
        assert(members.contains(a[0]));
        assert(b.contains(a[0]));
    } else {
        assert(members.contains(a[0]));
        assert(members.contains(b[0]));
        assert(b.contains(a[0]));
        assert(a.contains(b[0]));
        let w = choose|w: int| 0 <= w < b.len() && b[w] == a[0];
        let u = choose|u: int| 0 <= u < a.len() && a[u] == b[0];
        if a[0] != b[0] {
            assert(w > 0);
            assert(u > 0);
            assert(laid_out_before(priorities, b[0], b[w]));
            assert(laid_out_before(priorities, a[0], a[u]));
            assert(false);
        }
        let m = members.remove(a[0]);
        let a2 = a.drop_first();
        let b2 = b.drop_first();
        assert forall|k: int| 0 <= k < a2.len() implies m.contains(#[trigger] a2[k]) by {
            assert(a2[k] == a[k + 1]);
            assert(laid_out_before(priorities, a[0], a[k + 1]));
        }
        assert forall|k: int| 0 <= k < b2.len() implies m.contains(#[trigger] b2[k]) by {
            assert(b2[k] == b[k + 1]);
            assert(laid_out_before(priorities, b[0], b[k + 1]));
        }
        assert forall|i: usize| m.contains(i) implies #[trigger] a2.contains(i) by {
            assert(a.contains(i));
            let t = choose|t: int| 0 <= t < a.len() && a[t] == i;
            assert(t != 0);
            assert(a2[t - 1] == i);
        }
        assert forall|i: usize| m.contains(i) implies #[trigger] b2.contains(i) by {
            assert(b.contains(i));
            let t = choose|t: int| 0 <= t < b.len() && b[t] == i;
            assert(t != 0);
            assert(b2[t - 1] == i);
        }
        assert forall|k: int, l: int| 0 <= k < l < a2.len() implies laid_out_before(
            priorities,
            #[trigger] a2[k],
            #[trigger] a2[l],
        ) by {
            assert(laid_out_before(priorities, a[k + 1], a[l + 1]));
        }
        assert forall|k: int, l: int| 0 <= k < l < b2.len() implies laid_out_before(
            priorities,
            #[trigger] b2[k],
            #[trigger] b2[l],
        ) by {
            assert(laid_out_before(priorities, b[k + 1], b[l + 1]));
        }
        lemma_layout_order_unique_sets(a2, b2, m, priorities);
        assert(a =~= seq![a[0]] + a2);
        assert(b =~= seq![b[0]] + b2);
    }
}

/// The layout order of a side is determined: two orders that both list the
/// side's callouts by priority (stably) are the same order.
pub proof fn lemma_side_order_unique(
    a: Seq<usize>,
    b: Seq<usize>,
    sides: Seq<Side>,
    priorities: Seq<u8>,
    side: Side,
)
    requires
        is_side_order(a, sides, priorities, side),
        is_side_order(b, sides, priorities, side),
    ensures
        a == b,
{
    let members = Set::new(|i: usize| i < sides.len() && sides[i as int] == side);
    assert forall|k: int| 0 <= k < a.len() implies members.contains(#[trigger] a[k]) by {
        assert(a[k] < sides.len() && sides[a[k] as int] == side);
    }
    assert forall|k: int| 0 <= k < b.len() implies members.contains(#[trigger] b[k]) by {
        assert(b[k] < sides.len() && sides[b[k] as int] == side);
    }
    assert forall|i: usize| members.contains(i) implies #[trigger] a.contains(i) by {
        assert(a.contains((i as int) as usize));
    }
    assert forall|i: usize| members.contains(i) implies #[trigger] b.contains(i) by {
        assert(b.contains((i as int) as usize));
    }
    lemma_layout_order_unique_sets(a, b, members, priorities);
}

/// The highest offset level among the callouts placed on `side` (0 when there
/// are none); `sides[i]` and `levels[i]` belong to positioned callout `i`.
pub open spec fn max_level_on(sides: Seq<Side>, levels: Seq<u8>, side: Side) -> u8
    decreases sides.len(),
{
    if sides.len() == 0 {
        0
    } else {
        let m = max_level_on(sides.drop_last(), levels.drop_last(), side);
        if sides.last() == side && levels[sides.len() - 1] > m {
            levels[sides.len() - 1]
        } else {
            m
        }
    }
}

/// The highest offset level on a side bounds every level there, and is the
/// level of some callout there unless the side is empty (then it is 0).
pub proof fn lemma_max_level_on(sides: Seq<Side>, levels: Seq<u8>, side: Side)
    requires
        sides.len() == levels.len(),
    ensures
        forall|i: int|
            0 <= i < sides.len() && sides[i] == side ==> #[trigger] levels[i] <= max_level_on(
                sides,
                levels,
                side,
            ),
        max_level_on(sides, levels, side) == 0 || exists|i: int|
            0 <= i < sides.len() && sides[i] == side && levels[i] == max_level_on(
                sides,
                levels,
                side,
            ),
    decreases sides.len(),
{
    if sides.len() > 0 {
        let s2 = sides.drop_last();
        let l2 = levels.drop_last();
        lemma_max_level_on(s2, l2, side);
        assert forall|i: int| 0 <= i < sides.len() && sides[i] == side implies #[trigger] levels[i]
            <= max_level_on(sides, levels, side) by {
            if i < sides.len() - 1 {
                assert(s2[i] == sides[i]);
                assert(l2[i] == levels[i]);
            }
        }
        if max_level_on(sides, levels, side) != 0 {
            if sides.last() == side && levels[sides.len() - 1] > max_level_on(s2, l2, side) {
                assert(sides[sides.len() - 1] == side);
            } else {
                let w = choose|w: int|
                    0 <= w < s2.len() && s2[w] == side && l2[w] == max_level_on(s2, l2, side);
                assert(sides[w] == side && levels[w] == max_level_on(sides, levels, side));
            }
        }
    }
}

/// The highest offset level among the callouts placed on `side` (0 when none is).
pub fn max_level_per_side(sides: &Vec<Side>, levels: &Vec<u8>, side: Side) -> (m: u8)
    requires
        sides.len() == levels.len(),
    ensures
        m == max_level_on(sides@, levels@, side),
{
    let mut m: u8 = 0;
    let mut i: usize = 0;
    while i < sides.len()
        invariant
            sides.len() == levels.len(),
            i <= sides.len(),
            m == max_level_on(sides@.take(i as int), levels@.take(i as int), side),
        decreases sides.len() - i,
    {
        assert(sides@.take(i + 1).drop_last() =~= sides@.take(i as int));
        assert(levels@.take(i + 1).drop_last() =~= levels@.take(i as int));
        if sides[i] == side && levels[i] > m {
            m = levels[i];
        }
        i = i + 1;
    }
    assert(sides@.take(sides.len() as int) =~= sides@);
    assert(levels@.take(levels.len() as int) =~= levels@);
    m
}

/// Every side that holds a callout has an outermost one, and no callout on a
/// side lies beyond an outermost one there.
proof fn lemma_outermost_facts(sides: Seq<Side>, levels: Seq<u8>, r: Seq<bool>)
    requires
        sides.len() == levels.len() == r.len(),
        forall|i: int|
            0 <= i < r.len() ==> #[trigger] r[i] == (levels[i] == max_level_on(
                sides,
                levels,
                sides[i],
            )),
    ensures
        forall|i: int|
            #![trigger sides[i]]
            0 <= i < r.len() ==> exists|j: int|
                0 <= j < r.len() && sides[j] == sides[i] && #[trigger] r[j],
        forall|i: int, j: int|
            0 <= i < r.len() && 0 <= j < r.len() && sides[i] == sides[j] && #[trigger] r[i]
                ==> #[trigger] levels[j] <= levels[i],
{
    lemma_max_level_on(sides, levels, Side::Top);
    lemma_max_level_on(sides, levels, Side::Bottom);
    lemma_max_level_on(sides, levels, Side::Left);
    lemma_max_level_on(sides, levels, Side::Right);
    assert forall|i: int|
        #![trigger sides[i]]
        0 <= i < r.len() implies exists|j: int|
            0 <= j < r.len() && sides[j] == sides[i] && #[trigger] r[j] by {
        let m = max_level_on(sides, levels, sides[i]);
        if m == 0 {
            assert(levels[i] <= m);
            assert(r[i]);
        } else {
            let j = choose|j: int| 0 <= j < sides.len() && sides[j] == sides[i] && levels[j] == m;
            assert(r[j]);
        }
    }
}

/// For each positioned callout, whether it sits at the outermost offset level
/// of its side (only those labels can split into two lines without crowding).
pub fn outermost_callouts(sides: &Vec<Side>, levels: &Vec<u8>) -> (r: Vec<bool>)
    requires
        sides.len() == levels.len(),
    ensures
        r.len() == sides.len(),
        forall|i: int|
            0 <= i < r.len() ==> #[trigger] r@[i] == (levels[i] == max_level_on(
                sides@,
                levels@,
                sides[i],
            )),
        forall|i: int|
            #![trigger sides@[i]]
            0 <= i < r.len() ==> exists|j: int|
                0 <= j < r.len() && sides@[j] == sides@[i] && #[trigger] r@[j],
        forall|i: int, j: int|
            0 <= i < r.len() && 0 <= j < r.len() && sides[i] == sides[j] && #[trigger] r@[i]
                ==> #[trigger] levels[j] <= levels[i],
{
    let top = max_level_per_side(sides, levels, Side::Top);
    let bottom = max_level_per_side(sides, levels, Side::Bottom);
    let right = max_level_per_side(sides, levels, Side::Right);
    let left = max_level_per_side(sides, levels, Side::Left);
    let mut r: Vec<bool> = Vec::new();
    let mut i: usize = 0;
    while i < sides.len()
        invariant
            sides.len() == levels.len(),
            i <= sides.len(),
            r.len() == i,
            top == max_level_on(sides@, levels@, Side::Top),
            bottom == max_level_on(sides@, levels@, Side::Bottom),
            right == max_level_on(sides@, levels@, Side::Right),
            left == max_level_on(sides@, levels@, Side::Left),
            forall|j: int|
                0 <= j < i ==> #[trigger] r@[j] == (levels[j] == max_level_on(
                    sides@,
                    levels@,
                    sides[j],
                )),
        decreases sides.len() - i,
    {
        let max_for_side = match sides[i] {
            Side::Top => top,
            Side::Bottom => bottom,
            Side::Right => right,
            Side::Left => left,
        };
        r.push(levels[i] == max_for_side);
        i = i + 1;
    }
    proof {
        lemma_outermost_facts(sides@, levels@, r@);
    }
    r
}

/// The text anchor of a label placed on `side`.
pub open spec fn anchor_for(side: Side) -> TextAnchor {
    if side_is_horizontal(side) {
        TextAnchor::Middle
    } else if side == Side::Right {
        TextAnchor::Start
    } else {
        TextAnchor::End
    }
}

/// Labels on the top and bottom are centered; on the right they start at the
/// dimension line, on the left they end at it.
pub fn label_anchor_for_side(side: Side) -> (a: TextAnchor)
    ensures
        a == anchor_for(side),
        side == Side::Top || side == Side::Bottom ==> a == TextAnchor::Middle,
        side == Side::Right ==> a == TextAnchor::Start,
        side == Side::Left ==> a == TextAnchor::End,
{
    if side.is_horizontal() {
        TextAnchor::Middle
    } else if side == Side::Right {
        TextAnchor::Start
    } else {
        TextAnchor::End
    }
}

/// Whether a callout's label is laid out on two lines: on the top or bottom
/// only when it is the only callout on that side (there is more room), on the
/// left and right always; and in both cases only when the label holds `": "`.
pub open spec fn lays_out_two_lines(side: Side, callouts_on_side: usize, label: Seq<char>) -> bool {
    if side_is_horizontal(side) {
        callouts_on_side == 1 && is_two_line(label)
    } else {
        is_two_line(label)
    }
}

/// The label holds a colon directly followed by a space.
pub open spec fn holds_separator(label: Seq<char>) -> bool {
    exists|i: int| 0 <= i && i + 1 < label.len() && #[trigger] label[i] == ':' && label[i + 1] == ' '
}

/// A label is rendered as two lines exactly when it holds `": "`.
pub proof fn lemma_two_line_iff_separator(label: Seq<char>)
    ensures
        is_two_line(label) <==> holds_separator(label),
{
    crate::text::lemma_find_from_spec(label, label_separator(), 0);
    if holds_separator(label) {
        let i = choose|i: int|
            0 <= i && i + 1 < label.len() && #[trigger] label[i] == ':' && label[i + 1] == ' ';
        assert(label.subrange(i, i + 2) =~= label_separator());
        assert(crate::text::matches_at(label, label_separator(), i));
    }
    if is_two_line(label) {
        let k = find_first(label, label_separator())->0;
        assert(label.subrange(k, k + 2) == label_separator());
        assert(label.subrange(k, k + 2)[0] == ':');
        assert(label.subrange(k, k + 2)[1] == ' ');
        assert(label[k] == ':' && label[k + 1] == ' ');
    }
}

/// The laws of the two-line layout.
///
/// A label that does not hold `": "` is always laid out on one line. The top
/// and the bottom are treated alike, and so are the left and the right. On
/// the left and right the choice does not depend on how many callouts share
/// the side, and a label holding `": "` is laid out on two lines; on the top
/// and bottom it is laid out on two lines exactly when it holds `": "` and is
/// the only callout on its side. A label laid out on two lines on the top or
/// bottom would be laid out on two lines on the left or right too.
pub proof fn lemma_two_line_layout_laws(side: Side, n: usize, m: usize, label: Seq<char>)
    ensures
        !holds_separator(label) ==> !lays_out_two_lines(side, n, label),
        lays_out_two_lines(Side::Top, n, label) == lays_out_two_lines(Side::Bottom, n, label),
        lays_out_two_lines(Side::Left, n, label) == lays_out_two_lines(Side::Right, n, label),
        (side == Side::Left || side == Side::Right) ==> lays_out_two_lines(side, n, label)
            == lays_out_two_lines(side, m, label),
        (side == Side::Left || side == Side::Right) ==> (lays_out_two_lines(side, n, label)
            <==> holds_separator(label)),
        (side == Side::Top || side == Side::Bottom) ==> (lays_out_two_lines(side, n, label) <==> (n
            == 1 && holds_separator(label))),
        lays_out_two_lines(Side::Top, n, label) ==> lays_out_two_lines(Side::Left, m, label),
{
    lemma_two_line_iff_separator(label);
}

/// See [`lays_out_two_lines`].
pub fn uses_two_line_layout(side: Side, callouts_on_side: usize, label: &str) -> (b: bool)
    ensures
        b == lays_out_two_lines(side, callouts_on_side, label@),
        (side == Side::Top || side == Side::Bottom) ==> (b <==> (callouts_on_side == 1
            && holds_separator(label@))),
        (side == Side::Left || side == Side::Right) ==> (b <==> holds_separator(label@)),
{
    proof {
        lemma_two_line_layout_laws(side, callouts_on_side, callouts_on_side, label@);
    }
    if side.is_horizontal() {
        callouts_on_side == 1 && is_two_line_label(label)
    } else {
        is_two_line_label(label)
    }
}

} // verus!
