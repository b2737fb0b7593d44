//! What an output's card does for its wires, said of the calls that do it: where
//! the lamps are cut, what spreading writes, and what each row says.

use vstd::prelude::*;
use vstd::string::*;

use crate::action::{action_models, UiAction};
use crate::output_face::{
    add_channel, authored_sum, channel_caption, channel_key_class, channels_summary,
    connection_models, connection_of, connections_of, endpoint_with_pin, greatest_key,
    greatest_key_bounds_every_key, next_channel_key, pin_cell_class, pin_display, pin_mark,
    pin_state, remainder_allowed, resolved_row, wired_connections, AddChannel,
    KEY_MISSING_CLASS, KEY_PLAIN_CLASS, KEY_WIRED_CLASS, PIN_MISSING_CLASS, PIN_NAMED_CLASS,
    PIN_UNNAMED_CLASS, PIN_WIRED_CLASS, PinMark, PinState, UiOutputChannelRow, UiOutputFace,
    UiOutputPin, WiredConnection,
};
use crate::output_spread::{
    count_cell, count_edit_actions, count_edits, first_with_key, left_alone, plan_edits,
    planned, shares, spread_actions, spread_label, spread_plan, spread_snaps, spread_title,
    CountCell,
};
use crate::slot::{LpValue, ProjectSlotAddress};
use crate::spread::{
    as_ints, falls_inside, nearest_beyond, shares_are_counts, spread, spread_counts, wire_start,
};
use crate::text::{decimal, join, segment_end, segment_end_is_first, segment_end_is_unique, texts};

verus! {

// -- where the lamps are cut ---------------------------------------------------------

/// How far apart two places are.
pub open spec fn apart(a: int, b: int) -> int {
    if a < b {
        b - a
    } else {
        a - b
    }
}

/// The boundary at `j` is free for a cut behind `previous`: it lies inside the
/// buffer and beyond that cut.
pub open spec fn is_free(boundaries: Seq<u32>, total: int, previous: int, j: int) -> bool {
    0 <= j < boundaries.len() && 0 < boundaries[j] < total && previous < boundaries[j]
}

proof fn the_nearest_is_listed(
    boundaries: Seq<u32>,
    total: int,
    previous: int,
    ideal: int,
) -> (at: int)
    ensures
        match nearest_beyond(boundaries, total, previous, ideal) {
            Some(boundary) => {
                &&& is_free(boundaries, total, previous, at)
                &&& boundaries[at] == boundary
                &&& forall|j: int| #[trigger]
                    is_free(boundaries, total, previous, j) ==> apart(boundary, ideal) <= apart(
                        boundaries[j] as int,
                        ideal,
                    )
                &&& forall|j: int| #[trigger]
                    is_free(boundaries, total, previous, j) && j < at ==> apart(boundary, ideal)
                        < apart(boundaries[j] as int, ideal)
            },
            None => forall|j: int| !(#[trigger] is_free(boundaries, total, previous, j)),
        },
    decreases boundaries.len(),
{
    if boundaries.len() == 0 {
        0
    } else {
        let head = boundaries.drop_last();
        let before = the_nearest_is_listed(head, total, previous, ideal);
        let end = boundaries.len() - 1;
        assert forall|j: int| j != end implies is_free(boundaries, total, previous, j) == #[trigger]
            is_free(head, total, previous, j) by {
            if 0 <= j < head.len() {
                assert(head[j] == boundaries[j]);
            }
        }
        assert(forall|j: int| #[trigger]
            is_free(boundaries, total, previous, j) && j != end ==> is_free(
                head,
                total,
                previous,
                j,
            ));
        let earlier = nearest_beyond(head, total, previous, ideal);
        if nearest_beyond(boundaries, total, previous, ideal) == earlier && earlier is Some {
            assert(is_free(head, total, previous, before));
            before
        } else {
            end
        }
    }
}

proof fn cuts_are_starts(total: u32, wires: usize, boundaries: Seq<u32>, cuts: Seq<int>, k: int)
    requires
        wires > 0,
        cuts.len() == wires + 1,
        cuts[0] == 0,
        forall|i: int|
            0 <= i < wires ==> #[trigger] cuts[i + 1] == cuts[i] + spread(
                total as int,
                wires as nat,
                boundaries,
            )[i],
        0 <= k < wires,
    ensures
        cuts[k] == wire_start(total as int, total as int / wires as int, boundaries, k as nat),
    decreases k,
{
    if k > 0 {
        cuts_are_starts(total, wires, boundaries, cuts, k - 1);
        assert(cuts[(k - 1) + 1] == cuts[k - 1] + spread(
            total as int,
            wires as nat,
            boundaries,
        )[k - 1]);
    }
}

/// Every cut between two wires stands on a strip's end as long as there is one for
/// it. `cuts` are the places that the counts add up to, from the start of the
/// buffer on. A cut wants to stand at its even place, or at the cut before it where
/// that already lies beyond. It stands on the nearest listed boundary inside the
/// buffer and beyond the cut before it, on the first listed of several that are
/// equally near, and where it wants to only if there is no such boundary. The
/// last wire ends with the buffer.
pub proof fn every_cut_stands_on_the_nearest_strip_end(
    total: u32,
    wires: usize,
    boundaries: &[u32],
    counts: Vec<u32>,
    cuts: Seq<int>,
    k: int,
)
    requires
        0 < wires <= u32::MAX,
        call_ensures(spread_counts, (total, wires, boundaries), counts),
        cuts.len() == wires + 1,
        cuts[0] == 0,
        forall|i: int| 0 <= i < wires ==> #[trigger] cuts[i + 1] == cuts[i] + counts@[i],
        0 < k < wires,
    ensures
        counts@.len() == wires,
        cuts[wires as int] == total,
        ({
            let previous = cuts[k - 1];
            let even = k * (total as int / wires as int);
            let ideal = if even > previous {
                even
            } else {
                previous
            };
            let cut = cuts[k];
            if exists|j: int| is_free(boundaries@, total as int, previous, j) {
                exists|at: int|
                    {
                        &&& #[trigger] is_free(boundaries@, total as int, previous, at)
                        &&& boundaries@[at] == cut
                        &&& forall|j: int| #[trigger]
                            is_free(boundaries@, total as int, previous, j) ==> apart(cut, ideal)
                                <= apart(boundaries@[j] as int, ideal)
                        &&& forall|j: int| #[trigger]
                            is_free(boundaries@, total as int, previous, j) && j < at ==> apart(
                                cut,
                                ideal,
                            ) < apart(boundaries@[j] as int, ideal)
                    }
            } else {
                cut == ideal
            }
        }),
{
    let all = spread(total as int, wires as nat, boundaries@);
    assert(as_ints(counts@) =~= all);
    assert forall|i: int| 0 <= i < wires implies #[trigger] cuts[i + 1] == cuts[i] + all[i] by {
        assert(as_ints(counts@)[i] == counts@[i]);
        assert(cuts[i + 1] == cuts[i] + counts@[i]);
    }
    cuts_are_starts(total, wires, boundaries@, cuts, k);
    cuts_are_starts(total, wires, boundaries@, cuts, k - 1);
    cuts_are_starts(total, wires, boundaries@, cuts, wires - 1);
    assert(cuts[(wires - 1) + 1] == cuts[wires - 1] + all[wires - 1]);
    let previous = cuts[k - 1];
    let even = total as int / wires as int;
    assert(even * k == k * even) by (nonlinear_arith);
    let ideal = if even * k >= previous {
        even * k
    } else {
        previous
    };
    let at = the_nearest_is_listed(boundaries@, total as int, previous, ideal);
    if exists|j: int| is_free(boundaries@, total as int, previous, j) {
        assert(is_free(boundaries@, total as int, previous, at));
    }
}

/// One wire gets the whole buffer, and no wire gets nothing.
pub proof fn a_single_wire_gets_every_lamp(
    total: u32,
    wires: usize,
    boundaries: &[u32],
    counts: Vec<u32>,
)
    requires
        wires <= 1,
        call_ensures(spread_counts, (total, wires, boundaries), counts),
    ensures
        counts@.len() == wires,
        wires == 1 ==> counts@[0] == total,
{
    assert(as_ints(counts@) =~= spread(total as int, wires as nat, boundaries@));
    if wires == 1 {
        assert(as_ints(counts@)[0] == counts@[0]);
    }
}

// -- what spreading writes -----------------------------------------------------------

/// The wire at `i` has to be written: its count is another, and it is not the last
/// one taking the rest.
pub open spec fn has_to_be_written(
    channels: Seq<UiOutputChannelRow>,
    counts: Seq<u32>,
    i: int,
) -> bool {
    &&& channels[i].count != Some(counts[i])
    &&& !(channels[i].count is None && i + 1 == channels.len())
}

/// `at` lists exactly the places below `n` that have to be written, in order.
pub open spec fn lists_the_open(
    at: Seq<int>,
    channels: Seq<UiOutputChannelRow>,
    counts: Seq<u32>,
    n: int,
) -> bool {
    &&& forall|p: int, q: int| 0 <= p < q < at.len() ==> #[trigger] at[p] < #[trigger] at[q]
    &&& forall|p: int|
        0 <= p < at.len() ==> 0 <= #[trigger] at[p] < n && has_to_be_written(
            channels,
            counts,
            at[p],
        )
    &&& forall|i: int|
        0 <= i < n && #[trigger] has_to_be_written(channels, counts, i) ==> at.contains(i)
}

proof fn the_plan_lists_the_open(
    channels: Seq<UiOutputChannelRow>,
    ints: Seq<int>,
    counts: Seq<u32>,
    n: nat,
) -> (at: Seq<int>)
    requires
        n <= channels.len() == counts.len() == ints.len(),
        forall|i: int| 0 <= i < counts.len() ==> ints[i] == #[trigger] counts[i],
    ensures
        lists_the_open(at, channels, counts, n as int),
        planned(channels, ints, n).len() == at.len(),
        forall|p: int|
            0 <= p < at.len() ==> #[trigger] planned(channels, ints, n)[p] == (
                channels[at[p]].key,
                counts[at[p]],
            ),
    decreases n,
{
    if n == 0 {
        Seq::empty()
    } else {
        let head = the_plan_lists_the_open(channels, ints, counts, (n - 1) as nat);
        assert(ints[n - 1] == counts[n - 1]);
        assert(left_alone(channels, ints, n - 1) == !has_to_be_written(channels, counts, n - 1));
        if left_alone(channels, ints, n - 1) {
            head
        } else {
            let at = head.push(n - 1);
            assert forall|i: int|
                0 <= i < n && #[trigger] has_to_be_written(
                    channels,
                    counts,
                    i,
                ) implies at.contains(i) by {
                if i == n - 1 {
                    assert(at[head.len() as int] == i);
                } else {
                    let p = choose|p: int| 0 <= p < head.len() && head[p] == i;
                    assert(at[p] == i);
                }
            }
            at
        }
    }
}

/// Spreading writes exactly the wires whose count is another than the one they
/// get, in their order, and leaves alone the last one while it takes the rest. With
/// no lamps counted, fewer than two wires or nowhere to write, it writes nothing.
pub proof fn spreading_writes_what_is_not_right_yet(
    face: &UiOutputFace,
    plan: Vec<(u32, u32)>,
    boundaries: &[u32],
    counts: Vec<u32>,
)
    requires
        face.channels@.len() <= u32::MAX,
        call_ensures(spread_plan, (face,), plan),
        face.total_lamps matches Some(total) ==> call_ensures(
            spread_counts,
            (total, face.channels@.len() as usize, boundaries),
            counts,
        ),
        boundaries@ == face.span_boundaries@,
    ensures
        if face.total_lamps is Some && face.channels@.len() >= 2 && face.channels_address is Some {
            exists|at: Seq<int>|
                {
                    &&& #[trigger] lists_the_open(
                        at,
                        face.channels@,
                        counts@,
                        face.channels@.len() as int,
                    )
                    &&& plan@.len() == at.len()
                    &&& forall|p: int|
                        0 <= p < at.len() ==> #[trigger] plan@[p] == (
                            face.channels@[at[p]].key,
                            counts@[at[p]],
                        )
                }
        } else {
            plan@.len() == 0
        },
{
    if face.total_lamps is Some && face.channels@.len() >= 2 && face.channels_address is Some {
        let n = face.channels@.len();
        let ints = shares(*face);
        assert(n as usize == n);
        assert(as_ints(counts@) =~= ints);
        assert forall|i: int| 0 <= i < counts@.len() implies ints[i] == #[trigger] counts@[i] by {
            assert(as_ints(counts@)[i] == counts@[i]);
        }
        let at = the_plan_lists_the_open(face.channels@, ints, counts@, n);
        assert(lists_the_open(at, face.channels@, counts@, n as int));
    }
}

/// The action writes this count to the slot at `path` of the node.
pub open spec fn writes_count(
    action: UiAction,
    node: Seq<char>,
    root: Seq<char>,
    path: Seq<char>,
    count: u32,
) -> bool {
    action matches UiAction::SetValue { address, value } && address.node@ == node
        && address.root@ == root && address.path@ == path && value == LpValue::U32(count)
}

/// The action puts in the slot at `path` of the node.
pub open spec fn puts_in(
    action: UiAction,
    node: Seq<char>,
    root: Seq<char>,
    path: Seq<char>,
) -> bool {
    action matches UiAction::EnsurePresent { address } && address.node@ == node && address.root@
        == root && address.path@ == path
}

/// The path of a wire's count in the map at `map`.
pub open spec fn count_path(map: Seq<char>, key: u32) -> Seq<char> {
    map + seq!['['] + decimal(key as nat) + seq![']'] + ".count.some"@
}

/// The edits write `count` to the wire: to the count it has, or to one that is put
/// in first.
pub open spec fn edits_write(
    edits: Seq<UiAction>,
    channel: UiOutputChannelRow,
    map: Option<ProjectSlotAddress>,
    count: u32,
) -> bool {
    match channel.count_address {
        Some(own) => edits.len() == 1 && writes_count(
            edits[0],
            own.node@,
            own.root@,
            own.path@,
            count,
        ),
        None => match map {
            Some(map) => {
                &&& edits.len() == 2
                &&& puts_in(edits[0], map.node@, map.root@, count_path(map.path@, channel.key))
                &&& writes_count(
                    edits[1],
                    map.node@,
                    map.root@,
                    count_path(map.path@, channel.key),
                    count,
                )
            },
            None => edits.len() == 0,
        },
    }
}

proof fn count_path_is_the_slot(map: ProjectSlotAddress, key: u32)
    ensures
        map@.map_entry(key).field("count"@).field("some"@).path == count_path(map.path@, key),
        map@.map_entry(key).field("count"@).field("some"@).node == map.node@,
        map@.map_entry(key).field("count"@).field("some"@).root == map.root@,
{
    reveal_strlit("[");
    reveal_strlit("]");
    reveal_strlit(".");
    reveal_strlit("count");
    reveal_strlit("some");
    reveal_strlit(".count.some");
    assert(map@.map_entry(key).field("count"@).field("some"@).path =~= count_path(map.path@, key));
}

proof fn count_edits_write(
    face: UiOutputFace,
    channel: UiOutputChannelRow,
    count: u32,
    edits: Seq<UiAction>,
)
    requires
        action_models(edits) == count_edits(face, channel, count),
    ensures
        edits_write(edits, channel, face.channels_address, count),
{
    let models = action_models(edits);
    assert(edits.len() == models.len());
    if edits.len() > 0 {
        assert(models[0] == edits[0]@);
    }
    if edits.len() > 1 {
        assert(models[1] == edits[1]@);
    }
    if let Some(map) = face.channels_address {
        count_path_is_the_slot(map, channel.key);
    }
}

/// Writing a count writes that very count, at the wire's own count slot. A wire
/// without one has it put in first, under its key.
pub proof fn a_count_is_written_where_the_wire_keeps_it(
    face: &UiOutputFace,
    channel: &UiOutputChannelRow,
    count: u32,
    edits: Vec<UiAction>,
)
    requires
        call_ensures(count_edit_actions, (face, channel, count), edits),
    ensures
        edits_write(edits@, *channel, face.channels_address, count),
{
    count_edits_write(*face, *channel, count, edits@);
}

proof fn the_first_with_a_key(channels: Seq<UiOutputChannelRow>, key: u32, from: int, k: int)
    requires
        0 <= from <= k < channels.len(),
        channels[k].key == key,
    ensures
        from <= first_with_key(channels, key, from) <= k,
        channels[first_with_key(channels, key, from)].key == key,
        forall|j: int|
            from <= j < first_with_key(channels, key, from) ==> (#[trigger] channels[j]).key != key,
    decreases k - from,
{
    if channels[from].key != key {
        the_first_with_a_key(channels, key, from + 1, k);
    }
}

/// The wire at `i` is the first with this key.
pub open spec fn is_first_with(channels: Seq<UiOutputChannelRow>, key: u32, i: int) -> bool {
    &&& 0 <= i < channels.len()
    &&& channels[i].key == key
    &&& forall|j: int| 0 <= j < i ==> (#[trigger] channels[j]).key != key
}

/// The edits from one place to the next carry out the plan's entry at `p`.
pub open spec fn carries_out_entry(
    actions: Seq<UiAction>,
    at: Seq<int>,
    channels: Seq<UiOutputChannelRow>,
    map: Option<ProjectSlotAddress>,
    plan: Seq<(u32, u32)>,
    p: int,
) -> bool {
    &&& 0 <= at[p] <= at[p + 1] <= actions.len()
    &&& exists|i: int|
        #[trigger] is_first_with(channels, plan[p].0, i) && edits_write(
            actions.subrange(at[p], at[p + 1]),
            channels[i],
            map,
            plan[p].1,
        )
}

/// The actions are the edits of the plan's entries, one entry after the other. `at`
/// says where each entry's edits start.
pub open spec fn carry_out(
    actions: Seq<UiAction>,
    at: Seq<int>,
    channels: Seq<UiOutputChannelRow>,
    map: Option<ProjectSlotAddress>,
    plan: Seq<(u32, u32)>,
) -> bool {
    &&& at.len() == plan.len() + 1
    &&& at[0] == 0
    &&& at.last() == actions.len()
    &&& forall|p: int|
        0 <= p < plan.len() ==> #[trigger] carries_out_entry(actions, at, channels, map, plan, p)
}

proof fn plan_edits_carry_out(
    face: UiOutputFace,
    plan: Seq<(u32, u32)>,
    actions: Seq<UiAction>,
) -> (at: Seq<int>)
    requires
        action_models(actions) == plan_edits(face, plan),
        forall|p: int|
            0 <= p < plan.len() ==> exists|i: int|
                0 <= i < face.channels@.len() && (#[trigger] face.channels@[i]).key == (
                #[trigger] plan[p]).0,
    ensures
        carry_out(actions, at, face.channels@, face.channels_address, plan),
    decreases plan.len(),
{
    let channels = face.channels@;
    let map = face.channels_address;
    assert(actions.len() == action_models(actions).len());
    if plan.len() == 0 {
        seq![0int]
    } else {
        let head = plan.drop_last();
        assert forall|p: int| 0 <= p < head.len() implies exists|i: int|
            0 <= i < channels.len() && (#[trigger] channels[i]).key == (#[trigger] head[p]).0 by {
            assert(head[p] == plan[p]);
        }
        let (key, count) = plan.last();
        let end = plan.len() - 1;
        assert(plan[end] == plan.last());
        assert(plan[end].0 == key);
        let k = choose|k: int| 0 <= k < channels.len() && (#[trigger] channels[k]).key == key;
        the_first_with_a_key(channels, key, 0, k);
        let i = first_with_key(channels, key, 0);
        assert(is_first_with(channels, key, i));
        let n = plan_edits(face, head).len() as int;
        let all = plan_edits(face, plan);
        assert(all == plan_edits(face, head) + count_edits(face, channels[i], count));
        let start = actions.take(n);
        let rest = actions.subrange(n, actions.len() as int);
        assert(action_models(start) =~= plan_edits(face, head)) by {
            assert(all.take(n) =~= plan_edits(face, head));
            assert(action_models(start) =~= action_models(actions).take(n));
        }
        assert(action_models(rest) =~= count_edits(face, channels[i], count)) by {
            assert(all.skip(n) =~= count_edits(face, channels[i], count));
            assert(action_models(rest) =~= action_models(actions).skip(n));
        }
        let before = plan_edits_carry_out(face, head, start);
        count_edits_write(face, channels[i], count, rest);
        let at = before.push(actions.len() as int);
        assert forall|p: int| 0 <= p < plan.len() implies #[trigger] carries_out_entry(
            actions,
            at,
            channels,
            map,
            plan,
            p,
        ) by {
            if p < end {
                assert(carries_out_entry(start, before, channels, map, head, p));
                assert(at[p] == before[p] && at[p + 1] == before[p + 1]);
                assert(head[p] == plan[p]);
                assert(actions.subrange(at[p], at[p + 1]) =~= start.subrange(
                    before[p],
                    before[p + 1],
                ));
            } else {
                assert(at[p] == before.last());
                assert(at[p] == n);
                assert(actions.subrange(at[p], at[p + 1]) =~= rest);
            }
        }
        at
    }
}

/// Spreading carries the plan out: for each of its entries, in order, it writes the
/// planned count to the first wire with the planned key, and it writes nothing else.
pub proof fn spreading_carries_the_plan_out(
    face: &UiOutputFace,
    plan: Vec<(u32, u32)>,
    actions: Vec<UiAction>,
)
    requires
        face.channels@.len() <= u32::MAX,
        call_ensures(spread_plan, (face,), plan),
        call_ensures(spread_actions, (face,), actions),
    ensures
        exists|at: Seq<int>| #[trigger]
            carry_out(actions@, at, face.channels@, face.channels_address, plan@),
{
    if plan@.len() > 0 {
        let total = face.total_lamps->Some_0;
        shares_are_counts(total as int, face.channels@.len(), face.span_boundaries@);
        let ints = shares(*face);
        let counts = Seq::new(ints.len(), |i: int| ints[i] as u32);
        let at = the_plan_lists_the_open(
            face.channels@,
            ints,
            counts,
            face.channels@.len(),
        );
        assert forall|p: int| 0 <= p < plan@.len() implies exists|i: int|
            0 <= i < face.channels@.len() && (#[trigger] face.channels@[i]).key == (
            #[trigger] plan@[p]).0 by {
            assert(planned(face.channels@, ints, face.channels@.len())[p] == (
                face.channels@[at[p]].key,
                counts[at[p]],
            ));
            assert(face.channels@[at[p]].key == plan@[p].0);
        }
    }
    let at = plan_edits_carry_out(*face, plan@, actions@);
    assert(carry_out(actions@, at, face.channels@, face.channels_address, plan@));
}

/// Spreading fits counts to strips where a boundary falls inside the buffer, and
/// divides evenly otherwise; its label says which.
pub proof fn the_label_names_the_split(face: &UiOutputFace, snaps: bool, label: &'static str)
    requires
        call_ensures(spread_snaps, (face,), snaps),
        call_ensures(spread_label, (face,), label),
    ensures
        snaps <==> exists|i: int, total: u32|
            face.total_lamps == Some(total) && 0 <= i < face.span_boundaries@.len() && 0
                < #[trigger] face.span_boundaries@[i] < #[trigger] (total + 0),
        label@ == if snaps {
            "fit counts to strips"@
        } else {
            "divide lamps evenly"@
        },
{
    if let Some(total) = face.total_lamps {
        if snaps {
            let i = choose|i: int|
                0 <= i < face.span_boundaries@.len() && falls_inside(
                    #[trigger] face.span_boundaries@[i],
                    total as int,
                );
            assert(0 < face.span_boundaries@[i] < total + 0);
        }
        if exists|i: int, total: u32|
            face.total_lamps == Some(total) && 0 <= i < face.span_boundaries@.len() && 0
                < #[trigger] face.span_boundaries@[i] < #[trigger] (total + 0) {
            let (i, t) = choose|i: int, total: u32|
                face.total_lamps == Some(total) && 0 <= i < face.span_boundaries@.len() && 0
                    < #[trigger] face.span_boundaries@[i] < #[trigger] (total + 0);
            assert(falls_inside(face.span_boundaries@[i], total as int));
        }
    }
}

/// The title lists the counts that spreading comes to, wire by wire, and marks the
/// last one where it stays the rest.
pub proof fn the_title_lists_what_each_wire_gets(
    face: &UiOutputFace,
    boundaries: &[u32],
    counts: Vec<u32>,
    parts: &Vec<String>,
    list: String,
    title: String,
    label: &'static str,
)
    requires
        face.channels@.len() <= u32::MAX,
        call_ensures(spread_title, (face,), title),
        call_ensures(spread_label, (face,), label),
        face.total_lamps matches Some(total) ==> call_ensures(
            spread_counts,
            (total, face.channels@.len() as usize, boundaries),
            counts,
        ),
        boundaries@ == face.span_boundaries@,
        parts@.len() == face.channels@.len(),
        forall|i: int|
            0 <= i < parts@.len() ==> (#[trigger] parts@[i])@ == if i + 1 == parts@.len()
                && face.channels@[i].count is None {
                decimal(counts@[i] as nat) + " (rest)"@
            } else {
                decimal(counts@[i] as nat)
            },
        call_ensures(join, (parts, " · "), list),
    ensures
        title@ == if face.total_lamps is None {
            Seq::<char>::empty()
        } else if label@ == "fit counts to strips"@ {
            "Rewrite the wire counts to "@ + list@ + " — cut where the mapping's strips end"@
        } else {
            "Rewrite the wire counts to an even "@ + list@
        },
{
    reveal_strlit("fit counts to strips");
    reveal_strlit("divide lamps evenly");
    assert("fit counts to strips"@.len() != "divide lamps evenly"@.len());
    if face.total_lamps is Some {
        let n = face.channels@.len();
        assert(n as usize == n);
        assert(as_ints(counts@) =~= shares(*face));
        let own = crate::output_spread::share_texts(*face);
        assert forall|i: int| 0 <= i < n implies texts(parts@)[i] == own[i] by {
            assert(as_ints(counts@)[i] == counts@[i]);
            assert(parts@[i]@ == texts(parts@)[i]);
        }
        assert(texts(parts@) =~= own);
    }
}

/// A wire that takes the rest shows what that comes to and can have it frozen at
/// that very count; one with a count shows it, and only the last can drop it.
pub proof fn a_count_cell_shows_the_wires_own_count(
    face: &UiOutputFace,
    channel: &UiOutputChannelRow,
    r: CountCell,
)
    requires
        call_ensures(count_cell, (face, channel), r),
    ensures
        channel.count is None ==> (r matches CountCell::Rest { text, freeze } && (match (
        channel.resolved_count) {
            Some(count) => text@ == decimal(count as nat) && (face.channels_address is Some
                ==> edits_write(freeze@, *channel, face.channels_address, count)) && (
            face.channels_address is None ==> freeze@.len() == 0),
            None => freeze@.len() == 0,
        })),
        channel.count matches Some(own) ==> (r matches CountCell::Authored { count, drop } && count
            == own && (drop is Some <==> face.channels_address is Some && face.channels@.len() > 0
            && face.channels@.last().key == channel.key) && (drop matches Some(action) ==> (action
            matches UiAction::RemoveValue { address } && address.path@
            == face.channels_address->Some_0.path@ + seq!['['] + decimal(channel.key as nat)
            + seq![']'] + ".count"@))),
{
    if channel.count is None {
        let freeze = r->freeze;
        assert(action_models(freeze@).len() == freeze@.len());
        if let Some(count) = channel.resolved_count {
            if face.channels_address is Some {
                count_edits_write(*face, *channel, count, freeze@);
            }
        }
    } else if let Some(map) = face.channels_address {
        reveal_strlit("[");
        reveal_strlit("]");
        reveal_strlit(".");
        reveal_strlit("count");
        reveal_strlit(".count");
        assert(map@.map_entry(channel.key).field("count"@).path =~= map.path@ + seq!['[']
            + decimal(channel.key as nat) + seq![']'] + ".count"@);
    }
}

// -- what the rows say ---------------------------------------------------------------

/// The wires ask for so many lamps where each of them has a count: the sum of
/// these, no further than `u32` reaches. `sums` are the partial sums.
pub proof fn authored_lamps_add_up(face: &UiOutputFace, sums: Seq<int>, r: Option<u32>)
    requires
        call_ensures(UiOutputFace::authored_lamps, (face,), r),
        sums.len() == face.channels@.len() + 1,
        sums[0] == 0,
        forall|i: int|
            0 <= i < face.channels@.len() && (#[trigger] face.channels@[i]).count is Some ==> sums[i
                + 1] == sums[i] + face.channels@[i].count->Some_0,
    ensures
        r is Some <==> forall|i: int|
            0 <= i < face.channels@.len() ==> (#[trigger] face.channels@[i]).count is Some,
        r matches Some(lamps) ==> lamps == if sums.last() > u32::MAX {
            u32::MAX as int
        } else {
            sums.last()
        },
{
    let n = face.channels@.len();
    sums_are_authored(face.channels@, sums, n);
    assert(face.channels@.take(n as int) =~= face.channels@);
}

proof fn sums_are_authored(channels: Seq<UiOutputChannelRow>, sums: Seq<int>, n: nat)
    requires
        n <= channels.len(),
        sums.len() == channels.len() + 1,
        sums[0] == 0,
        forall|i: int|
            0 <= i < channels.len() && (#[trigger] channels[i]).count is Some ==> sums[i + 1]
                == sums[i] + channels[i].count->Some_0,
    ensures
        authored_sum(channels.take(n as int)) is Some <==> forall|i: int|
            0 <= i < n ==> (#[trigger] channels[i]).count is Some,
        authored_sum(channels.take(n as int)) matches Some(sum) ==> sum == sums[n as int],
    decreases n,
{
    if n > 0 {
        sums_are_authored(channels, sums, (n - 1) as nat);
        assert(channels.take(n as int).drop_last() =~= channels.take(n - 1));
        assert(channels.take(n as int).last() == channels[n - 1]);
        if authored_sum(channels.take(n as int)) is Some {
            assert(channels[n - 1].count is Some);
        }
    }
}

/// A wire that takes the rest resolves to the lamps from its start to the end of
/// the buffer, and to none where it starts past that. Every other wire keeps the
/// count it resolved to.
pub proof fn the_rest_is_what_lies_beyond_the_start(row: UiOutputChannelRow, total: u32)
    ensures
        row.count is None && row.slice_start is Some ==> resolved_row(row, total) is Some,
        row.count is None ==> (row.slice_start matches Some(start) ==> (start <= total
            ==> start + resolved_row(row, total)->Some_0 == total) && (start > total
            ==> resolved_row(row, total) == Some(0u32))),
        row.count is Some || row.slice_start is None ==> resolved_row(row, total)
            == row.resolved_count,
{
}

/// A wire with a GPIO is wired to it, whatever else is known; without one it is
/// unnamed where it names no pin. A named pin is missing only from a known board.
pub proof fn a_pin_is_missing_only_from_a_known_board(
    channel: &UiOutputChannelRow,
    board_known: bool,
    state: PinState,
    key_class: &'static str,
    cell_class: &'static str,
    shown: String,
)
    requires
        call_ensures(pin_state, (channel, board_known), state),
        call_ensures(channel_key_class, (channel, board_known), key_class),
        call_ensures(pin_cell_class, (channel, board_known), cell_class),
        call_ensures(pin_display, (channel,), shown),
    ensures
        channel.gpio matches Some(gpio) ==> state == PinState::Wired(gpio),
        channel.gpio is None && channel.pin_label@.len() == 0 ==> state == PinState::Unnamed,
        channel.gpio is None && channel.pin_label@.len() > 0 && board_known ==> state
            == PinState::NotOnBoard,
        channel.gpio is None && channel.pin_label@.len() > 0 && !board_known ==> state
            == PinState::Named,
        channel.gpio is Some ==> key_class@ == KEY_WIRED_CLASS@ && cell_class@ == PIN_WIRED_CLASS@,
        state is NotOnBoard ==> key_class@ == KEY_MISSING_CLASS@ && cell_class@
            == PIN_MISSING_CLASS@,
        state is Named ==> key_class@ == KEY_PLAIN_CLASS@ && cell_class@ == PIN_NAMED_CLASS@,
        state is Unnamed ==> key_class@ == KEY_PLAIN_CLASS@ && cell_class@ == PIN_UNNAMED_CLASS@,
        channel.pin_label@.len() > 0 ==> shown@ == channel.pin_label@,
        channel.pin_label@.len() == 0 ==> shown@ == "no pin"@,
{
}

/// In a wire's picker its own pin is the current one, a pin of another wire is
/// marked with that wire, and every other is free.
pub proof fn a_pin_is_marked_with_the_wire_on_it(
    pin: &UiOutputPin,
    channel: &UiOutputChannelRow,
    r: PinMark,
)
    requires
        call_ensures(pin_mark, (pin, channel), r),
    ensures
        r == PinMark::Current <==> pin.label@ == channel.pin_label@,
        r matches PinMark::TakenBy(key) ==> pin.assigned_to == Some(key) && key != channel.key,
        r == PinMark::Free ==> pin.assigned_to is None || pin.assigned_to == Some(channel.key),
{
}

/// A picked pin takes the place of the one before it: what the wire declared in
/// front of its pin stays, where it declared a capability and a target, and is the
/// default otherwise.
pub proof fn a_picked_pin_keeps_what_stands_before_it(
    endpoint: &str,
    pin: &str,
    capability: Seq<char>,
    target: Seq<char>,
    last: Seq<char>,
    r: String,
)
    requires
        call_ensures(endpoint_with_pin, (endpoint, pin), r),
    ensures
        endpoint@ == capability + seq![':'] + target + seq![':'] + last && capability.len() > 0
            && target.len() > 0 && !capability.contains(':') && !target.contains(':') ==> r@
            == capability + seq![':'] + target + seq![':'] + pin@,
        !endpoint@.contains(':') ==> r@ == "ws281x:local:"@ + pin@,
        endpoint@ == capability + seq![':'] + target && !capability.contains(':')
            && !target.contains(':') ==> r@ == "ws281x:local:"@ + pin@,
        endpoint@ == capability + seq![':'] + target + seq![':'] + last && (capability.len() == 0
            || target.len() == 0) && !capability.contains(':') && !target.contains(':') ==> r@
            == "ws281x:local:"@ + pin@,
{
    reveal_strlit(":");
    reveal_strlit("ws281x:local");
    reveal_strlit("ws281x:local:");
    let e = endpoint@;
    let first = segment_end(e, ':', 0);
    segment_end_is_first(e, ':', 0);
    if first < e.len() {
        segment_end_is_first(e, ':', first + 1);
    }
    assert("ws281x:local"@ + ":"@ + pin@ =~= "ws281x:local:"@ + pin@);
    let a = capability.len() as int;
    let b = a + 1 + target.len();
    if e == capability + seq![':'] + target + seq![':'] + last && !capability.contains(':')
        && !target.contains(':') {
        assert forall|i: int| 0 <= i < a implies e[i] != ':' by {
            assert(capability[i] == e[i]);
            assert(capability.contains(capability[i]));
        }
        assert forall|i: int| a < i < b implies e[i] != ':' by {
            assert(target[i - a - 1] == e[i]);
            assert(target.contains(target[i - a - 1]));
        }
        assert(e[a] == ':');
        assert(e[b] == ':');
        segment_end_is_unique(e, ':', 0, a);
        segment_end_is_unique(e, ':', a + 1, b);
        if a > 0 && target.len() > 0 {
            assert(e.take(b) =~= capability + seq![':'] + target);
            assert(r@ =~= capability + seq![':'] + target + seq![':'] + pin@);
        }
    }
    if e == capability + seq![':'] + target && !capability.contains(':') && !target.contains(':') {
        assert forall|i: int| 0 <= i < a implies e[i] != ':' by {
            assert(capability[i] == e[i]);
            assert(capability.contains(capability[i]));
        }
        assert forall|i: int| a < i < e.len() implies e[i] != ':' by {
            assert(target[i - a - 1] == e[i]);
            assert(target.contains(target[i - a - 1]));
        }
        assert(e[a] == ':');
        segment_end_is_unique(e, ':', 0, a);
        segment_end_is_unique(e, ':', a + 1, e.len() as int);
    }
    if !e.contains(':') && first < e.len() {
        assert(e.contains(e[first]));
    }
}

/// The wire has a connection that the diagram can draw.
pub open spec fn is_drawn(channel: UiOutputChannelRow) -> bool {
    channel.gpio matches Some(gpio) && gpio <= 255
}

/// The connection is the wire's: its GPIO, its key and the lamps it resolved to.
pub open spec fn draws_wire(connection: WiredConnection, channel: UiOutputChannelRow) -> bool {
    &&& channel.gpio == Some(connection.gpio as u32)
    &&& connection.title@ == "ch"@ + decimal(channel.key as nat)
    &&& connection.extra is Some <==> channel.resolved_count is Some
    &&& connection.extra matches Some(extra) ==> extra@ == "×"@ + decimal(
        channel.resolved_count->Some_0 as nat,
    )
}

proof fn connections_are_of_the_drawn(channels: Seq<UiOutputChannelRow>) -> (at: Seq<int>)
    ensures
        forall|p: int, q: int| 0 <= p < q < at.len() ==> #[trigger] at[p] < #[trigger] at[q],
        forall|p: int|
            0 <= p < at.len() ==> 0 <= #[trigger] at[p] < channels.len() && is_drawn(
                channels[at[p]],
            ),
        forall|i: int|
            0 <= i < channels.len() && is_drawn(#[trigger] channels[i]) ==> at.contains(i),
        connections_of(channels).len() == at.len(),
        forall|p: int|
            0 <= p < at.len() ==> Some(#[trigger] connections_of(channels)[p]) == connection_of(
                channels[at[p]],
            ),
    decreases channels.len(),
{
    if channels.len() == 0 {
        Seq::empty()
    } else {
        let head = channels.drop_last();
        let before = connections_are_of_the_drawn(head);
        let end = channels.len() - 1;
        assert(forall|i: int| 0 <= i < head.len() ==> head[i] == channels[i]);
        if connection_of(channels.last()) is Some {
            let at = before.push(end);
            assert forall|i: int|
                0 <= i < channels.len() && is_drawn(#[trigger] channels[i]) implies at.contains(
                i,
            ) by {
                if i == end {
                    assert(at[before.len() as int] == i);
                } else {
                    assert(is_drawn(head[i]));
                    let p = choose|p: int| 0 <= p < before.len() && before[p] == i;
                    assert(at[p] == i);
                }
            }
            assert forall|p: int| 0 <= p < at.len() implies Some(
                #[trigger] connections_of(channels)[p],
            ) == connection_of(channels[at[p]]) by {
                if p < before.len() {
                    assert(connections_of(channels)[p] == connections_of(head)[p]);
                }
            }
            at
        } else {
            assert forall|i: int|
                0 <= i < channels.len() && is_drawn(#[trigger] channels[i]) implies before.contains(
                i,
            ) by {
                assert(is_drawn(head[i]));
            }
            before
        }
    }
}

/// The diagram draws a connection for every wire on a GPIO it can draw, in order,
/// and for no other.
pub proof fn every_wire_on_a_gpio_is_drawn(face: &UiOutputFace, r: Vec<WiredConnection>)
    requires
        call_ensures(wired_connections, (face,), r),
    ensures
        exists|at: Seq<int>|
            {
                &&& #[trigger] at.len() == r@.len()
                &&& forall|p: int, q: int|
                    0 <= p < q < at.len() ==> #[trigger] at[p] < #[trigger] at[q]
                &&& forall|p: int|
                    0 <= p < at.len() ==> 0 <= at[p] < face.channels@.len() && draws_wire(
                        #[trigger] r@[p],
                        face.channels@[at[p]],
                    )
                &&& forall|i: int|
                    0 <= i < face.channels@.len() && is_drawn(#[trigger] face.channels@[i])
                        ==> at.contains(i)
            },
{
    let at = connections_are_of_the_drawn(face.channels@);
    assert(connection_models(r@).len() == r@.len());
    assert forall|p: int| 0 <= p < at.len() implies 0 <= at[p] < face.channels@.len()
        && draws_wire(#[trigger] r@[p], face.channels@[at[p]]) by {
        assert(connection_models(r@)[p] == r@[p]@);
        assert(Some(connections_of(face.channels@)[p]) == connection_of(face.channels@[at[p]]));
    }
}

/// The summary counts the wires, and beside them the lamps: those that arrive where
/// that is known, those that the wires ask for where each of them says, and none
/// otherwise.
pub proof fn the_summary_counts_wires_and_lamps(
    face: &UiOutputFace,
    authored: Option<u32>,
    r: String,
)
    requires
        call_ensures(channels_summary, (face,), r),
        call_ensures(UiOutputFace::authored_lamps, (face,), authored),
    ensures
        ({
            let wires = decimal(face.channels@.len()) + if face.channels@.len() == 1 {
                " wire · "@
            } else {
                " wires · "@
            };
            r@ == wires + match face.total_lamps {
                Some(total) => decimal(total as nat) + " lamps"@,
                None => match authored {
                    Some(lamps) => decimal(lamps as nat) + " lamps authored"@,
                    None => "lamps unknown"@,
                },
            }
        }),
{
    reveal_strlit(" ");
    reveal_strlit("wire");
    reveal_strlit("wires");
    reveal_strlit(" · ");
    reveal_strlit(" wire · ");
    reveal_strlit(" wires · ");
    assert(" "@ + "wire"@ + " · "@ =~= " wire · "@);
    assert(" "@ + "wires"@ + " · "@ =~= " wires · "@);
    let n = decimal(face.channels@.len());
    assert(n + " "@ + "wire"@ + " · "@ =~= n + " wire · "@);
    assert(n + " "@ + "wires"@ + " · "@ =~= n + " wires · "@);
}

/// The caption names the first and the last lamp of the wire's slice, and where its
/// pin leads.
pub proof fn the_caption_names_the_slice_and_the_pin(
    channel: &UiOutputChannelRow,
    board_known: bool,
    r: String,
)
    requires
        channel.slice_start matches Some(start) ==> (channel.resolved_count matches Some(count)
            ==> start + count <= u32::MAX),
        call_ensures(channel_caption, (channel, board_known), r),
    ensures
        exists|slice: Seq<char>, pin: Seq<char>|
            {
                &&& r@ == #[trigger] (slice + " · "@ + pin)
                &&& match (channel.slice_start, channel.resolved_count) {
                    (Some(first), Some(count)) => if count == 0 {
                        slice == "lamps "@ + decimal(first as nat) + "– (empty)"@
                    } else {
                        slice == "lamps "@ + decimal(first as nat) + "–"@ + decimal(
                            (first + count - 1) as nat,
                        )
                    },
                    (Some(first), None) => slice == "lamps "@ + decimal(first as nat) + "–?"@,
                    (None, _) => slice == "slice unknown"@,
                }
                &&& pin == match channel.gpio {
                    Some(gpio) => "gpio "@ + decimal(gpio as nat),
                    None => if channel.pin_label@.len() == 0 {
                        "no pin"@
                    } else if board_known {
                        channel.pin_label@ + " unresolved"@
                    } else {
                        channel.pin_label@
                    },
                }
            },
{
    let slice = crate::output_face::slice_text(*channel);
    let pin = crate::output_face::pin_text(*channel, board_known);
    assert(r@ == slice + " · "@ + pin);
}

/// A new wire's key is the least one past every other; the first wire gets zero,
/// and the keys end at the greatest `u32`. Adding a wire puts in the entry under
/// that key.
pub proof fn a_new_wire_comes_last(face: &UiOutputFace, key: u32, add: Option<AddChannel>)
    requires
        call_ensures(next_channel_key, (face,), key),
        call_ensures(add_channel, (face,), add),
    ensures
        face.channels@.len() == 0 ==> key == 0,
        key < u32::MAX ==> forall|i: int|
            0 <= i < face.channels@.len() ==> (#[trigger] face.channels@[i]).key < key,
        key > 0 ==> exists|i: int|
            0 <= i < face.channels@.len() && (#[trigger] face.channels@[i]).key >= key - 1,
        add is Some <==> face.channels_address is Some,
        add matches Some(add) ==> puts_in(
            add.action,
            face.channels_address->Some_0.node@,
            face.channels_address->Some_0.root@,
            face.channels_address->Some_0.path@ + seq!['['] + decimal(key as nat) + seq![']'],
        ) && add.title@ == "Add channel "@ + decimal(key as nat)
            + " — a new wire at the end of the slice order"@,
{
    greatest_key_bounds_every_key(face.channels@);
    if let Some(map) = face.channels_address {
        reveal_strlit("[");
        reveal_strlit("]");
        assert(map@.map_entry(key).path =~= map.path@ + seq!['['] + decimal(key as nat)
            + seq![']']);
    }
    if let Some(best) = greatest_key(face.channels@) {
        let k = choose|i: int|
            0 <= i < face.channels@.len() && face.channels@[i].key == best;
        assert(face.channels@[k].key == best);
    }
}

/// Only the wire that stands last may take the rest.
pub proof fn only_the_last_wire_may_take_the_rest(face: &UiOutputFace, key: u32, r: bool)
    requires
        call_ensures(remainder_allowed, (face, key), r),
    ensures
        face.channels@.len() == 0 ==> !r,
        face.channels@.len() > 0 ==> (r <==> face.channels@[face.channels@.len() - 1].key == key),
{
}

} // verus!
