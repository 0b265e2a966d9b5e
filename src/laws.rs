use vstd::arithmetic::div_mod::{lemma_mod_self_0, lemma_small_mod};
use vstd::prelude::*;

use crate::adventure::{
    decide_step, dismiss_step, event_start_step, finish_step, handle_outcome_step,
    keep_going_step, make_choice_step, recruit_step, rounds_step, rummage_step, start_step,
    take_a_break_step,
};
use crate::catalog::{action_wf, catalog_wf, location_wf, outcomes_of, scenario_wf, EventLocationData};
use crate::goblin::{bump, drop_by, GoblinView, Player};
use crate::outcome::EventResult;
use crate::resolver::effect_of;
use crate::state::{
    fresh_camp, occupied_order, position_of, rank, state_wf, AdventureError, AdventurePhase,
    AdventureStateView,
};
use crate::turn_order::lemma_occupied_order;

verus! {

/// Setting out succeeds from every preparing adventure, and only once: from
/// the adventure it leads to, setting out again is refused.
pub proof fn lemma_start_once(st: AdventureStateView)
    requires
        state_wf(st),
        st is Preparing,
    ensures
        start_step(st) is Ok,
        start_step(start_step(st)->Ok_0) == Err::<AdventureStateView, AdventureError>(
            AdventureError::WrongPhase,
        ),
{
}

/// Once under way, no operation leads back to preparing, so setting out stays
/// refused for the rest of the adventure.
pub proof fn lemma_no_way_back(
    st: AdventureStateView,
    cat: Seq<EventLocationData>,
    p: Player,
    action: usize,
    roll: u32,
    roll2: u32,
    flag: bool,
)
    requires
        !(st is Preparing),
    ensures
        start_step(st) == Err::<AdventureStateView, AdventureError>(AdventureError::WrongPhase),
        rummage_step(st, roll) matches Ok(n) ==> !(n is Preparing),
        decide_step(st, flag) matches Ok(n) ==> !(n is Preparing),
        event_start_step(st, cat, roll, roll2) matches Ok(n) ==> !(n is Preparing),
        keep_going_step(st, cat, roll, roll2) matches Ok(n) ==> !(n is Preparing),
        take_a_break_step(st) matches Ok(n) ==> !(n is Preparing),
        make_choice_step(st, cat, action, roll) matches Ok(n) ==> !(n is Preparing),
        handle_outcome_step(st, cat, roll) matches Ok(n) ==> !(n is Preparing),
        finish_step(st) matches Ok(n) ==> !(n is Preparing),
        recruit_step(st, p) is Err,
        dismiss_step(st, p) is Err,
        rounds_step(st, flag) is Err,
{
}

/// Whatever seats are filled, the turn order fixed on setting out has one
/// position for each seated goblin, numbered from zero without gaps: position
/// `k` holds a seated goblin whose ordinal is `k`, and every seated goblin
/// holds the position of its ordinal.
pub proof fn lemma_turn_order_contiguous(st: AdventureStateView)
    requires
        state_wf(st),
        st is Preparing,
    ensures
        start_step(st) matches Ok(AdventureStateView::Started(g, s, _, _)) && ({
            let order = s.goblin_order;
            let seated = st->Preparing_0;
            &&& order.no_duplicates()
            &&& forall|k: int|
                0 <= k < order.len() ==> seated.contains_key(#[trigger] order[k]) && rank(
                    seated,
                    order[k],
                ) == k
            &&& forall|p: Player|
                seated.contains_key(p) ==> #[trigger] rank(seated, p) < order.len()
                    && order[rank(seated, p) as int] == p
        }),
{
    lemma_occupied_order(st->Preparing_0);
}

/// The goblin at position `k` of the turn order sets out with greed `4 - k`.
pub proof fn lemma_starting_greed(st: AdventureStateView)
    requires
        state_wf(st),
        st is Preparing,
    ensures
        start_step(st) matches Ok(AdventureStateView::Started(g, s, _, _)) && forall|k: int|
            0 <= k < s.goblin_order.len() ==> #[trigger] g[s.goblin_order[k]].greed == 4 - k,
{
    let seated = st->Preparing_0;
    lemma_occupied_order(seated);
    let order = occupied_order(seated);
    assert forall|k: int| 0 <= k < order.len() implies crate::state::seeded(seated)[order[k]].greed
        == 4 - k by {
        assert(seated.contains_key(order[k]));
        assert(rank(seated, order[k]) == k);
    }
}

/// Rummaging is single-shot: once it found something, rummaging again is
/// refused.
pub proof fn lemma_rummage_once(st: AdventureStateView, roll: u32, again: u32)
    requires
        rummage_step(st, roll) is Ok,
    ensures
        rummage_step(rummage_step(st, roll)->Ok_0, again) == Err::<
            AdventureStateView,
            AdventureError,
        >(AdventureError::AlreadyResolved),
{
}

/// Taking found loot adds exactly one piece of loot and one greed (up to the
/// top of greed's range); leaving it keeps the loot and takes one greed away,
/// stopping at zero.
pub proof fn lemma_take_or_leave(st: AdventureStateView, take: bool)
    requires
        decide_step(st, take) is Ok,
    ensures
        ({
            let before = st->Started_0[st->Started_2.player];
            let after_st = decide_step(st, take)->Ok_0;
            let after = after_st->Started_0[after_st->Started_2.player];
            &&& after_st->Started_2.player == st->Started_2.player
            &&& take ==> after.loot.len() == before.loot.len() + 1
            &&& take ==> after.greed == bump(before.greed)
            &&& take && before.greed < u8::MAX ==> after.greed == before.greed + 1
            &&& !take ==> after.loot.len() == before.loot.len()
            &&& !take ==> after.greed == drop_by(before.greed, 1)
            &&& !take && before.greed > 0 ==> after.greed == before.greed - 1
            &&& !take && before.greed == 0 ==> after.greed == 0
        }),
{
}

/// Making a choice adds exactly one greed to the goblin whose turn it is (up
/// to the top of greed's range) and records one of the fourteen outcomes of
/// the chosen action.
pub proof fn lemma_choice(st: AdventureStateView, cat: Seq<EventLocationData>, action: usize, roll: u32)
    requires
        catalog_wf(cat),
        make_choice_step(st, cat, action, roll) is Ok,
    ensures
        ({
            let before = st->Started_0[st->Started_2.player];
            let after_st = make_choice_step(st, cat, action, roll)->Ok_0;
            let after = after_st->Started_0[after_st->Started_2.player];
            let ev = after_st->Started_3->Event_0;
            let o = ev.outcome->Some_0;
            &&& after.greed == bump(before.greed)
            &&& before.greed < u8::MAX ==> after.greed == before.greed + 1
            &&& o.choice == action
            &&& !o.accepted
            &&& o.effect < outcomes_of(cat, ev.location as int, ev.scenario as int, action as int).len()
            &&& outcomes_of(cat, ev.location as int, ev.scenario as int, action as int).len() == 14
        }),
{
    let ev = st->Started_3->Event_0;
    assert(location_wf(cat[ev.location as int]));
    assert(scenario_wf(cat[ev.location as int].scenarios@[ev.scenario as int]));
    assert(action_wf(cat[ev.location as int].scenarios@[ev.scenario as int].actions@[action as int]));
}

/// An outcome is handled once: after it was accepted, handling it again is
/// refused.
pub proof fn lemma_outcome_once(st: AdventureStateView, cat: Seq<EventLocationData>, roll: u32, again: u32)
    requires
        handle_outcome_step(st, cat, roll) is Ok,
    ensures
        handle_outcome_step(handle_outcome_step(st, cat, roll)->Ok_0, cat, again) == Err::<
            AdventureStateView,
            AdventureError,
        >(AdventureError::AlreadyResolved),
{
}

/// Healing adds one health (up to the top of its range); an attack takes one
/// away, and a goblin with no health left stays at zero.
pub proof fn lemma_heal_and_attack(
    g: Map<Player, GoblinView>,
    order: Seq<Player>,
    p: Player,
    roll: u32,
)
    requires
        g.contains_key(p),
    ensures
        effect_of(g, order, p, EventResult::Heal, roll)[p].health == bump(g[p].health),
        g[p].health < u8::MAX ==> effect_of(g, order, p, EventResult::Heal, roll)[p].health
            == g[p].health + 1,
        effect_of(g, order, p, EventResult::GetAttacked, roll)[p].health == drop_by(g[p].health, 1),
        g[p].health > 0 ==> effect_of(g, order, p, EventResult::GetAttacked, roll)[p].health
            == g[p].health - 1,
        g[p].health == 0 ==> effect_of(g, order, p, EventResult::GetAttacked, roll)[p].health == 0,
{
}

/// A break hands the turn to the next entry of the turn order, the first
/// after the last, and makes a fresh camp.
pub proof fn lemma_break_passes_turn(st: AdventureStateView)
    requires
        state_wf(st),
        st matches AdventureStateView::Started(_, _, _, AdventurePhase::Event(_)),
    ensures
        take_a_break_step(st) matches Ok(AdventureStateView::Started(g, s, t, ph)) && ({
            let order = st->Started_1.goblin_order;
            let k = position_of(order, st->Started_2.player);
            &&& 0 <= k < order.len()
            &&& order[k] == st->Started_2.player
            &&& k + 1 < order.len() ==> t.player == order[k + 1]
            &&& k + 1 == order.len() ==> t.player == order[0]
            &&& ph == AdventurePhase::Camp(fresh_camp())
            &&& g == st->Started_0
        }),
{
    let order = st->Started_1.goblin_order;
    let p = st->Started_2.player;
    let w = choose|i: int| 0 <= i < order.len() && order[i] == p;
    assert(order[w] == p);
    let k = position_of(order, p);
    assert(0 <= k < order.len());
    if k + 1 < order.len() {
        lemma_small_mod((k + 1) as nat, order.len());
    } else {
        lemma_mod_self_0(order.len() as int);
    }
}

} // verus!
