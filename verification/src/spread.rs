//! Distributing one buffer of lamps over the wires of an output.
//!
//! A plain split gives every wire the same share and hands what is left to the
//! last one. Where the mapping upstream published the lamp indices at which its
//! strips start, each cut moves to the nearest of those, so that wires end on
//! strip ends.

use vstd::prelude::*;

verus! {

/// A boundary that falls strictly inside a buffer of `total` lamps.
pub open spec fn falls_inside(boundary: u32, total: int) -> bool {
    0 < boundary < total
}

/// How far apart two lamp indices lie.
pub open spec fn distance(a: int, b: int) -> int {
    if a <= b {
        b - a
    } else {
        a - b
    }
}

/// The boundary a cut snaps to: of those inside the buffer and beyond
/// `previous`, the one nearest to `ideal`, and the earliest listed of several
/// equally near.
pub open spec fn nearest_beyond(
    boundaries: Seq<u32>,
    total: int,
    previous: int,
    ideal: int,
) -> Option<int>
    decreases boundaries.len(),
{
    if boundaries.len() == 0 {
        None
    } else {
        let earlier = nearest_beyond(boundaries.drop_last(), total, previous, ideal);
        let last = boundaries.last();
        if falls_inside(last, total) && last > previous && match earlier {
            None => true,
            Some(best) => distance(last as int, ideal) < distance(best, ideal),
        } {
            Some(last as int)
        } else {
            earlier
        }
    }
}

/// The lamp at which wire `index` starts. `even` is the share of one wire in
/// the plain split.
pub open spec fn wire_start(total: int, even: int, boundaries: Seq<u32>, index: nat) -> int
    decreases index,
{
    if index == 0 {
        0
    } else {
        let previous = wire_start(total, even, boundaries, (index - 1) as nat);
        let ideal = if even * index >= previous {
            even * index
        } else {
            previous
        };
        match nearest_beyond(boundaries, total, previous, ideal) {
            Some(boundary) => boundary,
            None => ideal,
        }
    }
}

/// The lamp just past wire `index`: where the next one starts, and for the last
/// wire the end of the buffer.
pub open spec fn wire_end(
    total: int,
    wires: nat,
    boundaries: Seq<u32>,
    index: nat,
) -> int {
    if index + 1 >= wires {
        total
    } else {
        wire_start(total, total / wires as int, boundaries, index + 1)
    }
}

/// The lamps each of `wires` wires gets.
pub open spec fn spread(total: int, wires: nat, boundaries: Seq<u32>) -> Seq<int> {
    Seq::new(
        wires,
        |i: int|
            wire_end(total, wires, boundaries, i as nat) - wire_start(
                total,
                total / wires as int,
                boundaries,
                i as nat,
            ),
    )
}

/// The sum of a sequence of counts.
pub open spec fn sum(counts: Seq<int>) -> int
    decreases counts.len(),
{
    if counts.len() == 0 {
        0
    } else {
        sum(counts.drop_last()) + counts.last()
    }
}

/// A list of counts as plain integers.
pub open spec fn as_ints(counts: Seq<u32>) -> Seq<int> {
    Seq::new(counts.len(), |i: int| counts[i] as int)
}

/// Snapping picks a listed boundary inside the buffer and beyond the previous
/// cut, none of those is nearer, and it picks none only where there is none.
pub proof fn snapping_takes_the_nearest_free_boundary(
    boundaries: Seq<u32>,
    total: int,
    previous: int,
    ideal: int,
)
    ensures
        match nearest_beyond(boundaries, total, previous, ideal) {
            Some(boundary) => {
                &&& exists|i: int| 0 <= i < boundaries.len() && boundaries[i] == boundary
                &&& 0 < boundary < total
                &&& previous < boundary
                &&& forall|i: int|
                    0 <= i < boundaries.len() && falls_inside(#[trigger] boundaries[i], total)
                        && boundaries[i] > previous ==> distance(boundary, ideal) <= distance(
                        boundaries[i] as int,
                        ideal,
                    )
            },
            None => forall|i: int|
                0 <= i < boundaries.len() && falls_inside(#[trigger] boundaries[i], total)
                    ==> boundaries[i] <= previous,
        },
    decreases boundaries.len(),
{
    if boundaries.len() > 0 {
        let head = boundaries.drop_last();
        snapping_takes_the_nearest_free_boundary(head, total, previous, ideal);
        assert(forall|i: int| 0 <= i < head.len() ==> head[i] == boundaries[i]);
        match nearest_beyond(head, total, previous, ideal) {
            Some(best) => {
                let k = choose|i: int| 0 <= i < head.len() && head[i] == best;
                assert(boundaries[k] == best);
            },
            None => {},
        }
        assert(boundaries[boundaries.len() - 1] == boundaries.last());
    }
}

/// The cuts lie inside the buffer and never run backwards.
pub proof fn cuts_advance_within_the_buffer(
    total: int,
    even: int,
    boundaries: Seq<u32>,
    index: nat,
    wires: nat,
)
    requires
        0 <= total,
        0 <= even,
        even * wires <= total,
        index < wires,
    ensures
        0 <= wire_start(total, even, boundaries, index) <= total,
        index > 0 ==> wire_start(total, even, boundaries, (index - 1) as nat) <= wire_start(
            total,
            even,
            boundaries,
            index,
        ),
    decreases index,
{
    if index > 0 {
        let before = (index - 1) as nat;
        cuts_advance_within_the_buffer(total, even, boundaries, before, wires);
        let previous = wire_start(total, even, boundaries, before);
        let ideal = if even * index >= previous {
            even * index
        } else {
            previous
        };
        assert(even * index <= even * wires) by (nonlinear_arith)
            requires
                0 <= even,
                index <= wires,
        ;
        snapping_takes_the_nearest_free_boundary(boundaries, total, previous, ideal);
    }
}

/// The even share times the number of wires never exceeds the buffer.
proof fn even_share_fits(total: int, wires: int)
    requires
        0 <= total,
        0 < wires,
    ensures
        0 <= total / wires,
        (total / wires) * wires <= total,
{
    assert(0 <= total / wires && (total / wires) * wires <= total) by (nonlinear_arith)
        requires
            0 <= total,
            0 < wires,
    ;
}

/// A wire never starts before an earlier one.
pub proof fn starts_are_ordered(
    total: int,
    wires: nat,
    boundaries: Seq<u32>,
    i: nat,
    j: nat,
)
    requires
        0 <= total,
        i <= j < wires,
    ensures
        0 <= wire_start(total, total / wires as int, boundaries, i) <= wire_start(
            total,
            total / wires as int,
            boundaries,
            j,
        ) <= total,
    decreases j - i,
{
    even_share_fits(total, wires as int);
    cuts_advance_within_the_buffer(total, total / wires as int, boundaries, j, wires);
    cuts_advance_within_the_buffer(total, total / wires as int, boundaries, i, wires);
    if i < j {
        starts_are_ordered(total, wires, boundaries, i, (j - 1) as nat);
    }
}

/// Every wire gets a count that is not negative, and fits a `u32` where the
/// buffer does.
pub proof fn shares_are_counts(total: int, wires: nat, boundaries: Seq<u32>)
    requires
        0 <= total,
    ensures
        forall|i: int|
            0 <= i < wires ==> 0 <= #[trigger] spread(total, wires, boundaries)[i] <= total,
{
    assert forall|i: int| 0 <= i < wires implies 0 <= #[trigger] spread(
        total,
        wires,
        boundaries,
    )[i] <= total by {
        starts_are_ordered(total, wires, boundaries, i as nat, i as nat);
        if i + 1 < wires {
            starts_are_ordered(total, wires, boundaries, i as nat, (i + 1) as nat);
        }
    }
}

/// The counts of the first `n` wires reach to where wire `n` starts.
proof fn prefix_sums_reach_the_cut(total: int, wires: nat, boundaries: Seq<u32>, n: nat)
    requires
        0 <= total,
        n < wires,
    ensures
        sum(spread(total, wires, boundaries).take(n as int)) == wire_start(
            total,
            total / wires as int,
            boundaries,
            n,
        ),
    decreases n,
{
    let counts = spread(total, wires, boundaries);
    if n > 0 {
        prefix_sums_reach_the_cut(total, wires, boundaries, (n - 1) as nat);
        assert(counts.take(n as int).drop_last() =~= counts.take(n - 1));
    }
}

/// No lamp is lost and none is handed out twice: the counts add up to the
/// buffer.
pub proof fn spread_hands_out_every_lamp(total: int, wires: nat, boundaries: Seq<u32>)
    requires
        0 <= total,
        0 < wires,
    ensures
        sum(spread(total, wires, boundaries)) == total,
{
    let counts = spread(total, wires, boundaries);
    prefix_sums_reach_the_cut(total, wires, boundaries, (wires - 1) as nat);
    assert(counts.drop_last() =~= counts.take(wires - 1));
}

/// Every cut is either a listed boundary inside the buffer, or the even
/// position, or, where an earlier cut already lies beyond that, that cut.
pub proof fn a_cut_is_a_boundary_or_even(
    total: int,
    wires: nat,
    boundaries: Seq<u32>,
    index: nat,
)
    requires
        0 <= total,
        0 < index < wires,
    ensures
        ({
            let even = total / wires as int;
            let previous = wire_start(total, even, boundaries, (index - 1) as nat);
            let start = wire_start(total, even, boundaries, index);
            ||| (exists|i: int| 0 <= i < boundaries.len() && boundaries[i] == start) && previous
                < start < total
            ||| start == even * index
            ||| (start == previous && even * index < previous)
        }),
{
    let even = total / wires as int;
    let previous = wire_start(total, even, boundaries, (index - 1) as nat);
    let ideal = if even * index >= previous {
        even * index
    } else {
        previous
    };
    snapping_takes_the_nearest_free_boundary(boundaries, total, previous, ideal);
}

/// A boundary is used by one cut at most: a cut that snapped lies strictly
/// beyond every earlier one.
pub proof fn a_boundary_is_never_reused(
    total: int,
    wires: nat,
    boundaries: Seq<u32>,
    i: nat,
    j: nat,
)
    requires
        0 <= total,
        i < j < wires,
        ({
            let even = total / wires as int;
            let previous = wire_start(total, even, boundaries, (j - 1) as nat);
            let ideal = if even * j >= previous {
                even * j
            } else {
                previous
            };
            nearest_beyond(boundaries, total, previous, ideal) is Some
        }),
    ensures
        wire_start(total, total / wires as int, boundaries, i) < wire_start(
            total,
            total / wires as int,
            boundaries,
            j,
        ),
{
    let even = total / wires as int;
    let previous = wire_start(total, even, boundaries, (j - 1) as nat);
    let ideal = if even * j >= previous {
        even * j
    } else {
        previous
    };
    snapping_takes_the_nearest_free_boundary(boundaries, total, previous, ideal);
    starts_are_ordered(total, wires, boundaries, i, (j - 1) as nat);
}

/// The boundaries that fall strictly inside the buffer, in their order.
pub open spec fn inside(boundaries: Seq<u32>, total: int) -> Seq<u32>
    decreases boundaries.len(),
{
    if boundaries.len() == 0 {
        boundaries
    } else if falls_inside(boundaries.last(), total) {
        inside(boundaries.drop_last(), total).push(boundaries.last())
    } else {
        inside(boundaries.drop_last(), total)
    }
}

proof fn snapping_sees_what_is_inside(
    boundaries: Seq<u32>,
    total: int,
    previous: int,
    ideal: int,
)
    ensures
        nearest_beyond(boundaries, total, previous, ideal) == nearest_beyond(
            inside(boundaries, total),
            total,
            previous,
            ideal,
        ),
    decreases boundaries.len(),
{
    if boundaries.len() > 0 {
        let head = inside(boundaries.drop_last(), total);
        snapping_sees_what_is_inside(boundaries.drop_last(), total, previous, ideal);
        assert(head.push(boundaries.last()).drop_last() =~= head);
    }
}

proof fn starts_see_what_is_inside(
    total: int,
    even: int,
    some: Seq<u32>,
    others: Seq<u32>,
    index: nat,
)
    requires
        inside(some, total) == inside(others, total),
    ensures
        wire_start(total, even, some, index) == wire_start(total, even, others, index),
    decreases index,
{
    if index > 0 {
        let before = (index - 1) as nat;
        starts_see_what_is_inside(total, even, some, others, before);
        let previous = wire_start(total, even, some, before);
        let ideal = if even * index >= previous {
            even * index
        } else {
            previous
        };
        snapping_sees_what_is_inside(some, total, previous, ideal);
        snapping_sees_what_is_inside(others, total, previous, ideal);
    }
}

/// A boundary at the buffer's start, at its end or beyond it is no boundary: two
/// lists that agree on what falls inside the buffer give the same split.
pub proof fn boundaries_outside_the_buffer_change_nothing(
    total: int,
    wires: nat,
    some: Seq<u32>,
    others: Seq<u32>,
)
    requires
        inside(some, total) == inside(others, total),
    ensures
        spread(total, wires, some) == spread(total, wires, others),
{
    let even = total / wires as int;
    assert forall|i: int| 0 <= i < wires implies spread(total, wires, some)[i] == spread(
        total,
        wires,
        others,
    )[i] by {
        starts_see_what_is_inside(total, even, some, others, i as nat);
        starts_see_what_is_inside(total, even, some, others, (i + 1) as nat);
    }
    assert(spread(total, wires, some) =~= spread(total, wires, others));
}

proof fn inside_of_two_parts(head: Seq<u32>, tail: Seq<u32>, total: int)
    ensures
        inside(head + tail, total) == inside(head, total) + inside(tail, total),
    decreases tail.len(),
{
    let all = head + tail;
    if tail.len() == 0 {
        assert(all =~= head);
        assert(inside(head, total) + inside(tail, total) =~= inside(head, total));
    } else {
        let start = tail.drop_last();
        assert(all.drop_last() =~= head + start);
        assert(all.last() == tail.last());
        inside_of_two_parts(head, start, total);
        assert(inside(all, total) =~= inside(head, total) + inside(tail, total));
    }
}

/// A boundary outside the buffer may be put in or taken out anywhere, and the
/// split stays as it is.
pub proof fn a_boundary_outside_the_buffer_changes_nothing(
    total: int,
    wires: nat,
    head: Seq<u32>,
    boundary: u32,
    tail: Seq<u32>,
)
    requires
        !falls_inside(boundary, total),
    ensures
        spread(total, wires, head + seq![boundary] + tail) == spread(total, wires, head + tail),
{
    let one = seq![boundary];
    assert(one.drop_last() =~= Seq::<u32>::empty());
    reveal_with_fuel(inside, 2);
    assert(one.last() == boundary);
    assert(inside(one, total) =~= Seq::<u32>::empty());
    inside_of_two_parts(head + one, tail, total);
    inside_of_two_parts(head, one, total);
    inside_of_two_parts(head, tail, total);
    assert(inside(head, total) + inside(one, total) =~= inside(head, total));
    boundaries_outside_the_buffer_change_nothing(
        total,
        wires,
        head + one + tail,
        head + tail,
    );
}

proof fn even_starts_without_a_grid(
    total: int,
    even: int,
    boundaries: Seq<u32>,
    index: nat,
)
    requires
        0 <= even,
        forall|i: int|
            0 <= i < boundaries.len() ==> !falls_inside(#[trigger] boundaries[i], total),
    ensures
        wire_start(total, even, boundaries, index) == even * index,
    decreases index,
{
    if index > 0 {
        let before = (index - 1) as nat;
        even_starts_without_a_grid(total, even, boundaries, before);
        let previous = wire_start(total, even, boundaries, before);
        assert(even * before <= even * index) by (nonlinear_arith)
            requires
                0 <= even,
                before <= index,
        ;
        snapping_takes_the_nearest_free_boundary(boundaries, total, previous, even * index);
    } else {
        assert(even * index == 0) by (nonlinear_arith)
            requires
                index == 0,
        ;
    }
}

/// Where no boundary falls inside the buffer, every wire gets the even share
/// and the last one the remainder on top.
pub proof fn without_a_grid_the_split_is_even(total: int, wires: nat, boundaries: Seq<u32>)
    requires
        0 <= total,
        0 < wires,
        forall|i: int|
            0 <= i < boundaries.len() ==> !falls_inside(#[trigger] boundaries[i], total),
    ensures
        forall|i: int|
            0 <= i < wires - 1 ==> #[trigger] spread(total, wires, boundaries)[i] == total
                / wires as int,
        spread(total, wires, boundaries)[wires - 1] == total / wires as int + total % wires as int,
{
    let even = total / wires as int;
    even_share_fits(total, wires as int);
    assert forall|i: int| 0 <= i < wires - 1 implies #[trigger] spread(
        total,
        wires,
        boundaries,
    )[i] == even by {
        even_starts_without_a_grid(total, even, boundaries, i as nat);
        even_starts_without_a_grid(total, even, boundaries, (i + 1) as nat);
        assert(even * (i + 1) - even * i == even) by (nonlinear_arith);
    }
    even_starts_without_a_grid(total, even, boundaries, (wires - 1) as nat);
    assert(total - even * (wires - 1) == even + total % wires as int) by (nonlinear_arith)
        requires
            even == total / wires as int,
            0 < wires,
    ;
}

fn abs_diff(a: u32, b: u32) -> (r: u32)
    ensures
        r == distance(a as int, b as int),
{
    if a <= b {
        b - a
    } else {
        a - b
    }
}

/// Finds the boundary a cut snaps to.
fn nearest_boundary(boundaries: &[u32], total: u32, previous: u32, ideal: u32) -> (r: Option<
    u32,
>)
    ensures
        match r {
            Some(boundary) => nearest_beyond(
                boundaries@,
                total as int,
                previous as int,
                ideal as int,
            ) == Some(boundary as int),
            None => nearest_beyond(boundaries@, total as int, previous as int, ideal as int)
                is None,
        },
{
    let mut best: Option<u32> = None;
    let mut at: usize = 0;
    while at < boundaries.len()
        invariant
            at <= boundaries.len(),
            match best {
                Some(boundary) => nearest_beyond(
                    boundaries@.take(at as int),
                    total as int,
                    previous as int,
                    ideal as int,
                ) == Some(boundary as int),
                None => nearest_beyond(
                    boundaries@.take(at as int),
                    total as int,
                    previous as int,
                    ideal as int,
                ) is None,
            },
        decreases boundaries.len() - at,
    {
        let boundary: u32 = boundaries[at];
        proof {
            let next = boundaries@.take(at + 1);
            assert(next.drop_last() =~= boundaries@.take(at as int));
            assert(next.last() == boundary);
        }
        if boundary > 0 && boundary < total && boundary > previous {
            match best {
                None => {
                    best = Some(boundary);
                },
                Some(nearest) => {
                    if abs_diff(boundary, ideal) < abs_diff(nearest, ideal) {
                        best = Some(boundary);
                    }
                },
            }
        }
        at += 1;
    }
    proof {
        assert(boundaries@.take(at as int) =~= boundaries@);
    }
    best
}

/// Distributes `total` lamps over `wires` channels, cutting at the boundaries
/// where there are any inside the buffer.
pub fn spread_counts(total: u32, wires: usize, boundaries: &[u32]) -> (r: Vec<u32>)
    requires
        wires <= u32::MAX,
    ensures
        as_ints(r@) =~= spread(total as int, wires as nat, boundaries@),
        wires > 0 ==> sum(as_ints(r@)) == total,
{
    let mut counts: Vec<u32> = Vec::new();
    if wires == 0 {
        return counts;
    }
    let even: u32 = total / (wires as u32);
    proof {
        even_share_fits(total as int, wires as int);
        spread_hands_out_every_lamp(total as int, wires as nat, boundaries@);
    }
    let mut start: u32 = 0;
    let mut index: usize = 1;
    while index < wires
        invariant
            1 <= index <= wires <= u32::MAX,
            even == total as int / wires as int,
            even * wires <= total,
            start == wire_start(total as int, even as int, boundaries@, (index - 1) as nat),
            counts.len() == index - 1,
            forall|i: int|
                0 <= i < index - 1 ==> counts[i] as int == spread(
                    total as int,
                    wires as nat,
                    boundaries@,
                )[i],
        decreases wires - index,
    {
        proof {
            assert(even * index <= even * wires) by (nonlinear_arith)
                requires
                    index <= wires,
                    even >= 0,
            ;
            cuts_advance_within_the_buffer(
                total as int,
                even as int,
                boundaries@,
                index as nat,
                wires as nat,
            );
        }
        let position: u32 = even * (index as u32);
        let ideal: u32 = if position >= start {
            position
        } else {
            start
        };
        let next: u32 = match nearest_boundary(boundaries, total, start, ideal) {
            Some(boundary) => boundary,
            None => ideal,
        };
        assert(next == wire_start(total as int, even as int, boundaries@, index as nat));
        counts.push(next - start);
        start = next;
        index += 1;
    }
    proof {
        starts_are_ordered(
            total as int,
            wires as nat,
            boundaries@,
            (wires - 1) as nat,
            (wires - 1) as nat,
        );
    }
    counts.push(total - start);
    assert(as_ints(counts@) =~= spread(total as int, wires as nat, boundaries@));
    counts
}

} // verus!
