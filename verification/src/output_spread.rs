//! Spreading an output's lamps over its wires, as a plan of count edits.

use vstd::prelude::*;
use vstd::string::*;

use crate::action::{action_models, ActionModel, UiAction};
use crate::output_face::{remainder_allowed, UiOutputChannelRow, UiOutputFace};
use crate::panel::address_opt;
use crate::slot::{
    is_field_name, LpValue, LpValueView, ProjectSlotAddress, SlotAddressView,
};
use crate::spread::{
    as_ints, falls_inside, shares_are_counts, spread, spread_counts,
    without_a_grid_the_split_is_even,
};
use crate::text::{decimal, decimal_text, join, joined, texts};

verus! {

/// Whether spreading leaves the wire at `index` alone: its count is right
/// already, or it is the last wire and takes the rest.
pub open spec fn left_alone(channels: Seq<UiOutputChannelRow>, counts: Seq<int>, index: int) -> bool {
    match channels[index].count {
        Some(count) => count == counts[index],
        None => index == channels.len() - 1,
    }
}

/// The counts to write for the first `n` wires, by key.
pub open spec fn planned(
    channels: Seq<UiOutputChannelRow>,
    counts: Seq<int>,
    n: nat,
) -> Seq<(u32, u32)>
    decreases n,
{
    if n == 0 {
        Seq::empty()
    } else if left_alone(channels, counts, n - 1) {
        planned(channels, counts, (n - 1) as nat)
    } else {
        planned(channels, counts, (n - 1) as nat).push(
            (channels[n - 1].key, counts[n - 1] as u32),
        )
    }
}

/// There is something to spread: lamps arrive, over two wires or more, whose
/// counts can be written.
pub open spec fn can_spread(face: UiOutputFace) -> bool {
    face.total_lamps is Some && face.channels@.len() >= 2 && face.channels_address is Some
}

/// The shares of the face's wires.
pub open spec fn shares(face: UiOutputFace) -> Seq<int> {
    spread(face.total_lamps->Some_0 as int, face.channels@.len(), face.span_boundaries@)
}

/// The counts that spreading the face would write, by key.
pub open spec fn plan_of(face: UiOutputFace) -> Seq<(u32, u32)> {
    if can_spread(face) {
        planned(face.channels@, shares(face), face.channels@.len())
    } else {
        Seq::empty()
    }
}

/// The counts that spreading would write, as (channel key, new count).
pub fn spread_plan(face: &UiOutputFace) -> (r: Vec<(u32, u32)>)
    requires
        face.channels@.len() <= u32::MAX,
    ensures
        r@ == plan_of(*face),
{
    let mut plan: Vec<(u32, u32)> = Vec::new();
    match face.total_lamps {
        Some(total) => {
            if face.channels.len() < 2 || face.channels_address.is_none() {
                return plan;
            }
            let wires: usize = face.channels.len();
            let counts: Vec<u32> = spread_counts(total, wires, face.span_boundaries.as_slice());
            let mut at: usize = 0;
            while at < wires
                invariant
                    at <= wires,
                    wires == face.channels@.len(),
                    face.total_lamps == Some(total),
                    counts@.len() == wires,
                    as_ints(counts@) =~= shares(*face),
                    plan@ == planned(face.channels@, shares(*face), at as nat),
                decreases wires - at,
            {
                let count: u32 = counts[at];
                assert(as_ints(counts@)[at as int] == count);
                let settled: bool = match face.channels[at].count {
                    Some(own) => own == count,
                    None => at == wires - 1,
                };
                if !settled {
                    plan.push((face.channels[at].key, count));
                }
                at += 1;
            }
            plan
        },
        None => plan,
    }
}

/// The address of a channel's count, where it is not there yet.
pub open spec fn count_slot(map: SlotAddressView, key: u32) -> SlotAddressView {
    map.map_entry(key).field("count"@).field("some"@)
}

/// The edits that write `count` to a wire.
pub open spec fn count_edits(
    face: UiOutputFace,
    channel: UiOutputChannelRow,
    count: u32,
) -> Seq<ActionModel> {
    match address_opt(channel.count_address) {
        Some(address) => seq![
            ActionModel::SetValue { address, value: LpValueView::U32(count) },
        ],
        None => match address_opt(face.channels_address) {
            Some(map) => seq![
                ActionModel::EnsurePresent { address: count_slot(map, channel.key) },
                ActionModel::SetValue {
                    address: count_slot(map, channel.key),
                    value: LpValueView::U32(count),
                },
            ],
            None => Seq::empty(),
        },
    }
}

/// Writes a count to a wire. A count that is not there yet is put in first.
pub fn count_edit_actions(
    face: &UiOutputFace,
    channel: &UiOutputChannelRow,
    count: u32,
) -> (r: Vec<UiAction>)
    ensures
        action_models(r@) == count_edits(*face, *channel, count),
{
    let mut actions: Vec<UiAction> = Vec::new();
    match &channel.count_address {
        Some(address) => {
            actions.push(
                UiAction::SetValue { address: address.clone(), value: LpValue::U32(count) },
            );
        },
        None => match &face.channels_address {
            Some(map) => {
                proof {
                    reveal_strlit("count");
                    reveal_strlit("some");
                }
                let slot: Option<ProjectSlotAddress> = match map.child_map_entry(
                    channel.key,
                ).child_field("count") {
                    Some(option) => option.child_field("some"),
                    None => None,
                };
                assert(is_field_name("count"@));
                assert(is_field_name("some"@));
                match slot {
                    Some(some) => {
                        actions.push(UiAction::EnsurePresent { address: some.clone() });
                        actions.push(
                            UiAction::SetValue { address: some, value: LpValue::U32(count) },
                        );
                    },
                    None => {},
                }
            },
            None => {},
        },
    }
    assert(action_models(actions@) =~= count_edits(*face, *channel, count));
    actions
}

/// The first wire with this key.
pub open spec fn first_with_key(channels: Seq<UiOutputChannelRow>, key: u32, from: int) -> int
    decreases channels.len() - from,
{
    if from >= channels.len() || channels[from].key == key {
        from
    } else {
        first_with_key(channels, key, from + 1)
    }
}

/// The edits that carry out a plan, in its order.
pub open spec fn plan_edits(face: UiOutputFace, plan: Seq<(u32, u32)>) -> Seq<ActionModel>
    decreases plan.len(),
{
    if plan.len() == 0 {
        Seq::empty()
    } else {
        let (key, count) = plan.last();
        let index = first_with_key(face.channels@, key, 0);
        plan_edits(face, plan.drop_last()) + if index < face.channels@.len() {
            count_edits(face, face.channels@[index], count)
        } else {
            Seq::empty()
        }
    }
}

/// Spreading as ordinary edits, in channel order.
pub fn spread_actions(face: &UiOutputFace) -> (r: Vec<UiAction>)
    requires
        face.channels@.len() <= u32::MAX,
    ensures
        action_models(r@) == plan_edits(*face, plan_of(*face)),
{
    let plan: Vec<(u32, u32)> = spread_plan(face);
    let mut actions: Vec<UiAction> = Vec::new();
    let mut at: usize = 0;
    assert(action_models(actions@) =~= plan_edits(*face, plan@.take(0)));
    while at < plan.len()
        invariant
            at <= plan.len(),
            action_models(actions@) == plan_edits(*face, plan@.take(at as int)),
        decreases plan.len() - at,
    {
        let (key, count) = plan[at];
        proof {
            let next = plan@.take(at + 1);
            assert(next.drop_last() =~= plan@.take(at as int));
            assert(next.last() == (key, count));
        }
        let mut index: usize = 0;
        while index < face.channels.len() && face.channels[index].key != key
            invariant
                index <= face.channels.len(),
                first_with_key(face.channels@, key, 0) == first_with_key(
                    face.channels@,
                    key,
                    index as int,
                ),
            decreases face.channels.len() - index,
        {
            index += 1;
        }
        if index < face.channels.len() {
            let mut edits: Vec<UiAction> = count_edit_actions(face, &face.channels[index], count);
            let ghost before = action_models(actions@);
            let ghost more = action_models(edits@);
            actions.append(&mut edits);
            assert(action_models(actions@) =~= before + more);
        } else {
            assert(action_models(actions@) + Seq::<ActionModel>::empty() =~= action_models(
                actions@,
            ));
        }
        at += 1;
    }
    assert(plan@.take(at as int) =~= plan@);
    actions
}

/// A boundary falls inside the buffer, so that cuts have something to snap to.
pub open spec fn has_grid(face: UiOutputFace) -> bool {
    face.total_lamps matches Some(total) && exists|i: int|
        0 <= i < face.span_boundaries@.len() && falls_inside(
            #[trigger] face.span_boundaries@[i],
            total as int,
        )
}

/// Whether cuts snap to strips.
pub fn spread_snaps(face: &UiOutputFace) -> (r: bool)
    ensures
        r == has_grid(*face),
{
    match face.total_lamps {
        Some(total) => {
            let mut at: usize = 0;
            while at < face.span_boundaries.len()
                invariant
                    at <= face.span_boundaries.len(),
                    face.total_lamps == Some(total),
                    forall|i: int|
                        0 <= i < at ==> !falls_inside(
                            #[trigger] face.span_boundaries@[i],
                            total as int,
                        ),
                decreases face.span_boundaries.len() - at,
            {
                let boundary: u32 = face.span_boundaries[at];
                if boundary > 0 && boundary < total {
                    assert(falls_inside(face.span_boundaries@[at as int], total as int));
                    return true;
                }
                at += 1;
            }
            false
        },
        None => false,
    }
}

/// What the gesture is called: which of the two splits it performs.
pub fn spread_label(face: &UiOutputFace) -> (r: &'static str)
    ensures
        r@ == if has_grid(*face) {
            "fit counts to strips"@
        } else {
            "divide lamps evenly"@
        },
{
    if spread_snaps(face) {
        "fit counts to strips"
    } else {
        "divide lamps evenly"
    }
}

/// The resulting counts in words; the one of a wire that takes the rest says
/// so.
pub open spec fn share_texts(face: UiOutputFace) -> Seq<Seq<char>> {
    let counts = shares(face);
    Seq::new(
        counts.len(),
        |i: int|
            if i == counts.len() - 1 && face.channels@.last().count is None {
                decimal(counts[i] as nat) + " (rest)"@
            } else {
                decimal(counts[i] as nat)
            },
    )
}

/// Says exactly what the gesture will do.
pub fn spread_title(face: &UiOutputFace) -> (r: String)
    requires
        face.channels@.len() <= u32::MAX,
    ensures
        r@ == if face.total_lamps is None {
            Seq::<char>::empty()
        } else if has_grid(*face) {
            "Rewrite the wire counts to "@ + joined(share_texts(*face), " · "@)
                + " — cut where the mapping's strips end"@
        } else {
            "Rewrite the wire counts to an even "@ + joined(share_texts(*face), " · "@)
        },
{
    match face.total_lamps {
        Some(total) => {
            let wires: usize = face.channels.len();
            let counts: Vec<u32> = spread_counts(total, wires, face.span_boundaries.as_slice());
            let mut parts: Vec<String> = Vec::new();
            let mut at: usize = 0;
            while at < counts.len()
                invariant
                    at <= counts.len(),
                    counts@.len() == wires,
                    wires == face.channels@.len(),
                    face.total_lamps == Some(total),
                    as_ints(counts@) =~= shares(*face),
                    parts@.len() == at,
                    forall|i: int|
                        0 <= i < at ==> (#[trigger] parts@[i])@ == share_texts(*face)[i],
                decreases counts.len() - at,
            {
                assert(as_ints(counts@)[at as int] == counts@[at as int]);
                let mut part: String = decimal_text(counts[at] as u64);
                if at == wires - 1 && face.channels[wires - 1].count.is_none() {
                    part.append(" (rest)");
                }
                parts.push(part);
                at += 1;
            }
            assert(texts(parts@) =~= share_texts(*face));
            let plan: String = join(&parts, " · ");
            if spread_snaps(face) {
                let mut out: String = "Rewrite the wire counts to ".to_string();
                out.append(plan.as_str());
                out.append(" — cut where the mapping's strips end");
                out
            } else {
                let mut out: String = "Rewrite the wire counts to an even ".to_string();
                out.append(plan.as_str());
                out
            }
        },
        None => String::new(),
    }
}

/// What the count cell of a wire shows and offers.
#[derive(Clone, Debug, PartialEq, Eq)]
pub enum CountCell {
    /// The wire takes the rest: what that comes to, and the edits that would
    /// freeze it.
    Rest { text: String, freeze: Vec<UiAction> },
    /// The wire has a count: the number, and the edit that would drop it.
    Authored { count: u32, drop: Option<UiAction> },
}

/// What stands for the count of a wire that takes the rest.
pub open spec fn rest_text(resolved: Option<u32>) -> Seq<char> {
    match resolved {
        Some(count) => decimal(count as nat),
        None => "—"@,
    }
}

/// The count cell of one wire of the face.
pub fn count_cell(face: &UiOutputFace, channel: &UiOutputChannelRow) -> (r: CountCell)
    ensures
        match channel.count {
            None => r matches CountCell::Rest { text, freeze } && text@ == rest_text(
                channel.resolved_count,
            ) && action_models(freeze@) == match (channel.resolved_count, face.channels_address) {
                (Some(count), Some(_)) => count_edits(*face, *channel, count),
                _ => Seq::empty(),
            },
            Some(own) => r matches CountCell::Authored { count, drop } && count == own && match (
            address_opt(face.channels_address)) {
                Some(map) if face.channels@.len() > 0 && face.channels@.last().key == channel.key =>
                    drop matches Some(action) && action@ == (ActionModel::RemoveValue {
                        address: map.map_entry(channel.key).field("count"@),
                    }),
                _ => drop is None,
            },
        },
{
    match channel.count {
        None => {
            let mut freeze: Vec<UiAction> = Vec::new();
            let text: String = match channel.resolved_count {
                Some(count) => {
                    if face.channels_address.is_some() {
                        freeze = count_edit_actions(face, channel, count);
                    }
                    decimal_text(count as u64)
                },
                None => "—".to_string(),
            };
            assert(action_models(freeze@) =~= match (
                channel.resolved_count,
                face.channels_address,
            ) {
                (Some(count), Some(_)) => count_edits(*face, *channel, count),
                _ => Seq::empty(),
            });
            CountCell::Rest { text, freeze }
        },
        Some(count) => {
            let mut drop: Option<UiAction> = None;
            if remainder_allowed(face, channel.key) {
                match &face.channels_address {
                    Some(map) => {
                        proof {
                            reveal_strlit("count");
                            assert(is_field_name("count"@));
                        }
                        match map.child_map_entry(channel.key).child_field("count") {
                            Some(address) => {
                                drop = Some(UiAction::RemoveValue { address });
                            },
                            None => {},
                        }
                    },
                    None => {},
                }
            }
            CountCell::Authored { count, drop }
        },
    }
}

// -- what holds of every plan ----------------------------------------------------

proof fn planned_from(
    channels: Seq<UiOutputChannelRow>,
    counts: Seq<int>,
    n: nat,
)
    requires
        n <= channels.len(),
    ensures
        forall|p: int|
            0 <= p < planned(channels, counts, n).len() ==> exists|i: int|
                0 <= i < n && !left_alone(channels, counts, i) && (#[trigger] planned(
                    channels,
                    counts,
                    n,
                )[p]) == (channels[i].key, counts[i] as u32),
    decreases n,
{
    if n > 0 {
        let before = planned(channels, counts, (n - 1) as nat);
        planned_from(channels, counts, (n - 1) as nat);
        let plan = planned(channels, counts, n);
        assert forall|p: int| 0 <= p < plan.len() implies exists|i: int|
            0 <= i < n && !left_alone(channels, counts, i) && (#[trigger] plan[p]) == (
                channels[i].key,
                counts[i] as u32,
            ) by {
            if p < before.len() {
                assert(plan[p] == before[p]);
                let i = choose|i: int|
                    0 <= i < n - 1 && !left_alone(channels, counts, i) && before[p] == (
                        channels[i].key,
                        counts[i] as u32,
                    );
                assert(!left_alone(channels, counts, i));
            } else {
                assert(!left_alone(channels, counts, n - 1));
            }
        }
    }
}

/// A plan never writes the last wire while it takes the rest, and never writes
/// a count that is right already.
pub proof fn the_plan_leaves_settled_wires_alone(face: UiOutputFace, p: int)
    requires
        0 <= p < plan_of(face).len(),
    ensures
        exists|i: int|
            0 <= i < face.channels@.len() && !left_alone(face.channels@, shares(face), i)
                && plan_of(face)[p] == (face.channels@[i].key, shares(face)[i] as u32),
{
    planned_from(face.channels@, shares(face), face.channels@.len());
}

proof fn nothing_is_planned_for_settled_wires(
    channels: Seq<UiOutputChannelRow>,
    counts: Seq<int>,
    n: nat,
)
    requires
        n <= channels.len(),
        forall|i: int| 0 <= i < n ==> left_alone(channels, counts, i),
    ensures
        planned(channels, counts, n) == Seq::<(u32, u32)>::empty(),
    decreases n,
{
    if n > 0 {
        nothing_is_planned_for_settled_wires(channels, counts, (n - 1) as nat);
    }
}

/// Spreading settles: on a face whose wires have the counts the plan gave them,
/// there is nothing left to write.
pub proof fn a_spread_face_has_nothing_to_spread(before: UiOutputFace, after: UiOutputFace)
    requires
        after.total_lamps == before.total_lamps,
        after.span_boundaries@ == before.span_boundaries@,
        after.channels@.len() == before.channels@.len(),
        forall|i: int|
            0 <= i < before.channels@.len() ==> (#[trigger] after.channels@[i]).count == if (
            left_alone(before.channels@, shares(before), i)) {
                before.channels@[i].count
            } else {
                Some(shares(before)[i] as u32)
            },
    ensures
        plan_of(after) == Seq::<(u32, u32)>::empty(),
{
    if can_spread(after) {
        shares_are_counts(
            before.total_lamps->Some_0 as int,
            before.channels@.len(),
            before.span_boundaries@,
        );
        assert(shares(after) == shares(before));
        assert forall|i: int| 0 <= i < after.channels@.len() implies left_alone(
            after.channels@,
            shares(after),
            i,
        ) by {
            assert(after.channels@[i].count == if left_alone(
                before.channels@,
                shares(before),
                i,
            ) {
                before.channels@[i].count
            } else {
                Some(shares(before)[i] as u32)
            });
            assert(0 <= shares(before)[i] <= before.total_lamps->Some_0);
        }
        nothing_is_planned_for_settled_wires(
            after.channels@,
            shares(after),
            after.channels@.len(),
        );
    }
}

/// No two wires share a key.
pub open spec fn keys_differ(channels: Seq<UiOutputChannelRow>) -> bool {
    forall|i: int, j: int|
        0 <= i < j < channels.len() ==> (#[trigger] channels[i]).key != (#[trigger] channels[j]).key
}

proof fn every_open_wire_is_planned(
    channels: Seq<UiOutputChannelRow>,
    counts: Seq<int>,
    n: nat,
    i: int,
)
    requires
        n <= channels.len(),
        0 <= i < n,
        !left_alone(channels, counts, i),
    ensures
        exists|p: int|
            0 <= p < planned(channels, counts, n).len() && #[trigger] planned(
                channels,
                counts,
                n,
            )[p] == (channels[i].key, counts[i] as u32),
    decreases n,
{
    let plan = planned(channels, counts, n);
    let head = planned(channels, counts, (n - 1) as nat);
    if i == n - 1 {
        assert(plan[plan.len() - 1] == (channels[i].key, counts[i] as u32));
    } else {
        every_open_wire_is_planned(channels, counts, (n - 1) as nat, i);
        let p = choose|p: int|
            0 <= p < head.len() && #[trigger] head[p] == (channels[i].key, counts[i] as u32);
        assert(plan[p] == head[p]);
    }
}

/// Carrying out the plan leaves nothing to spread: once every wire that the plan
/// names has the count the plan gives it, and every other its own, the next plan
/// is empty.
pub proof fn carrying_out_the_plan_settles(before: UiOutputFace, after: UiOutputFace)
    requires
        keys_differ(before.channels@),
        after.total_lamps == before.total_lamps,
        after.span_boundaries@ == before.span_boundaries@,
        after.channels_address is Some == before.channels_address is Some,
        after.channels@.len() == before.channels@.len(),
        forall|i: int, p: int|
            0 <= i < before.channels@.len() && 0 <= p < plan_of(before).len() && (
            #[trigger] plan_of(before)[p]).0 == before.channels@[i].key ==> (
            #[trigger] after.channels@[i]).count == Some(plan_of(before)[p].1),
        forall|i: int|
            0 <= i < before.channels@.len() && (forall|p: int|
                0 <= p < plan_of(before).len() ==> (#[trigger] plan_of(before)[p]).0
                    != before.channels@[i].key) ==> (#[trigger] after.channels@[i]).count
                == before.channels@[i].count,
    ensures
        plan_of(after) == Seq::<(u32, u32)>::empty(),
{
    if can_spread(before) {
        let channels = before.channels@;
        let counts = shares(before);
        let n = channels.len();
        let plan = plan_of(before);
        assert forall|i: int| 0 <= i < n implies (#[trigger] after.channels@[i]).count == if (
        left_alone(channels, counts, i)) {
            channels[i].count
        } else {
            Some(counts[i] as u32)
        } by {
            if left_alone(channels, counts, i) {
                planned_from(channels, counts, n);
                assert forall|p: int| 0 <= p < plan.len() implies (#[trigger] plan[p]).0
                    != channels[i].key by {
                    let k = choose|k: int|
                        0 <= k < n && !left_alone(channels, counts, k) && plan[p] == (
                            channels[k].key,
                            counts[k] as u32,
                        );
                    assert(k != i);
                    assert(channels[k].key != channels[i].key);
                }
            } else {
                every_open_wire_is_planned(channels, counts, n, i);
                let p = choose|p: int|
                    0 <= p < plan.len() && #[trigger] plan[p] == (
                        channels[i].key,
                        counts[i] as u32,
                    );
                assert(plan[p].0 == channels[i].key);
            }
        }
        a_spread_face_has_nothing_to_spread(before, after);
    }
}

/// The label tells the truth: where it says the lamps are divided evenly, every
/// wire gets the same share and the last one what is left on top.
pub proof fn an_even_label_means_an_even_split(face: UiOutputFace)
    requires
        face.total_lamps is Some,
        face.channels@.len() > 0,
        !has_grid(face),
    ensures
        ({
            let total = face.total_lamps->Some_0 as int;
            let wires = face.channels@.len() as int;
            &&& forall|i: int| 0 <= i < wires - 1 ==> #[trigger] shares(face)[i] == total / wires
            &&& shares(face)[wires - 1] == total / wires + total % wires
        }),
{
    let total = face.total_lamps->Some_0 as int;
    assert forall|i: int| 0 <= i < face.span_boundaries@.len() implies !falls_inside(
        #[trigger] face.span_boundaries@[i],
        total,
    ) by {}
    without_a_grid_the_split_is_even(total, face.channels@.len(), face.span_boundaries@);
}

/// An edit of a count: putting one in, or writing it.
pub open spec fn edits_a_count(action: ActionModel) -> bool {
    match action {
        ActionModel::EnsurePresent { .. } => true,
        ActionModel::SetValue { value: LpValueView::U32(_), .. } => true,
        _ => false,
    }
}

/// Spreading is nothing but count edits, so it undoes edit by edit.
pub proof fn spreading_only_edits_counts(face: UiOutputFace, plan: Seq<(u32, u32)>)
    ensures
        forall|i: int|
            0 <= i < plan_edits(face, plan).len() ==> edits_a_count(
                #[trigger] plan_edits(face, plan)[i],
            ),
    decreases plan.len(),
{
    if plan.len() > 0 {
        spreading_only_edits_counts(face, plan.drop_last());
        let all = plan_edits(face, plan);
        let head = plan_edits(face, plan.drop_last());
        assert forall|i: int| 0 <= i < all.len() implies edits_a_count(#[trigger] all[i]) by {
            if i < head.len() {
                assert(all[i] == head[i]);
            } else {
                let index = first_with_key(face.channels@, plan.last().0, 0);
                let edits = count_edits(face, face.channels@[index], plan.last().1);
                assert(all[i] == edits[i - head.len()]);
            }
        }
    }
}

} // verus!
