use vstd::prelude::*;

use crate::catalog::{catalog_wf, outcomes_of, EventLocationData};
use crate::goblin::{
    bump, bump_u8, drop_by, drop_u8, lemma_reseat, rarity_at, Goblin, GoblinMap, GoblinView,
    HeroKind, Loot, Player, Rarity,
};
use crate::random::draw;
use crate::resolver::{apply_outcome, effect_of, select_outcome};
use crate::state::{
    fresh_camp, occupied_order, rank, seeded, state_wf, AccountKey, Adventure,
    AdventureError, AdventurePhase, AdventureState, AdventureStateView, AdventureView, CampPhase,
    EventPhase, EventPhaseOutcome, RummageResult, Settings, SettingsView, Turn,
};
use crate::state::{lemma_active_seated, next_in_order};
use crate::resolver::next_player;
use crate::turn_order::lemma_occupied_order;

verus! {

// ---------------------------------------------------------------------------
// The steps of the adventure, on the model
// ---------------------------------------------------------------------------

/// Setting out: fix the turn order, seed greed, and make camp.
pub open spec fn start_step(st: AdventureStateView) -> Result<AdventureStateView, AdventureError> {
    match st {
        AdventureStateView::Preparing(g, s) => Ok(
            AdventureStateView::Started(
                seeded(g),
                SettingsView { goblin_order: occupied_order(g), ..s },
                Turn { nonce: 0, num_events: 0, player: occupied_order(g)[0] },
                AdventurePhase::Camp(fresh_camp()),
            ),
        ),
        _ => Err(AdventureError::WrongPhase),
    }
}

/// Rummaging at camp finds one piece of loot, of the tier that `roll` picks.
pub open spec fn rummage_step(st: AdventureStateView, roll: u32) -> Result<
    AdventureStateView,
    AdventureError,
> {
    match st {
        AdventureStateView::Started(g, s, t, AdventurePhase::Camp(cp)) => {
            if cp.rummage_result is None {
                let found = RummageResult::Success {
                    loot: Loot { rarity: rarity_at(roll as nat) },
                    did_take: None,
                };
                Ok(
                    AdventureStateView::Started(
                        g,
                        s,
                        t,
                        AdventurePhase::Camp(CampPhase { rummage_result: Some(found), ..cp }),
                    ),
                )
            } else {
                Err(AdventureError::AlreadyResolved)
            }
        },
        _ => Err(AdventureError::WrongPhase),
    }
}

/// Deciding on found loot: taking it pockets it and adds one greed; leaving
/// it takes one greed away.
pub open spec fn decide_step(st: AdventureStateView, take: bool) -> Result<
    AdventureStateView,
    AdventureError,
> {
    match st {
        AdventureStateView::Started(g, s, t, AdventurePhase::Camp(cp)) => match cp.rummage_result {
            Some(RummageResult::Success { loot, did_take: None }) => {
                let gb = g[t.player];
                let after = if take {
                    GoblinView { greed: bump(gb.greed), loot: gb.loot.push(loot), ..gb }
                } else {
                    GoblinView { greed: drop_by(gb.greed, 1), ..gb }
                };
                let decided = RummageResult::Success { loot, did_take: Some(take) };
                Ok(
                    AdventureStateView::Started(
                        g.insert(t.player, after),
                        s,
                        t,
                        AdventurePhase::Camp(CampPhase { rummage_result: Some(decided), ..cp }),
                    ),
                )
            },
            Some(RummageResult::Success { .. }) => Err(AdventureError::AlreadyResolved),
            _ => Err(AdventureError::NoLootOnOffer),
        },
        _ => Err(AdventureError::WrongPhase),
    }
}

/// A new event at a location and scenario that the two draws pick.
pub open spec fn new_event(
    cat: Seq<EventLocationData>,
    location_roll: u32,
    scenario_roll: u32,
) -> EventPhase {
    let location = location_roll as nat % cat.len();
    let scenario = scenario_roll as nat % cat[location as int].scenarios@.len();
    EventPhase { location: location as usize, scenario: scenario as usize, outcome: None }
}

/// Leaving camp for an event.
pub open spec fn event_start_step(
    st: AdventureStateView,
    cat: Seq<EventLocationData>,
    location_roll: u32,
    scenario_roll: u32,
) -> Result<AdventureStateView, AdventureError> {
    match st {
        AdventureStateView::Started(g, s, t, AdventurePhase::Camp(_)) => Ok(
            AdventureStateView::Started(
                g,
                s,
                t,
                AdventurePhase::Event(new_event(cat, location_roll, scenario_roll)),
            ),
        ),
        _ => Err(AdventureError::WrongPhase),
    }
}

/// Pressing on to another event once the outcome is accepted, while the
/// rounds last.
pub open spec fn keep_going_step(
    st: AdventureStateView,
    cat: Seq<EventLocationData>,
    location_roll: u32,
    scenario_roll: u32,
) -> Result<AdventureStateView, AdventureError> {
    match st {
        AdventureStateView::Started(g, s, t, AdventurePhase::Event(ev)) => {
            if !(ev.outcome matches Some(o) && o.accepted) {
                Err(AdventureError::NotYetAccepted)
            } else if t.num_events >= s.num_rounds {
                Err(AdventureError::RoundsExhausted)
            } else {
                Ok(
                    AdventureStateView::Started(
                        g,
                        s,
                        Turn { num_events: (t.num_events + 1) as u8, ..t },
                        AdventurePhase::Event(new_event(cat, location_roll, scenario_roll)),
                    ),
                )
            }
        },
        _ => Err(AdventureError::WrongPhase),
    }
}

/// Resting: the next goblin in the turn order takes over, at a fresh camp.
pub open spec fn take_a_break_step(st: AdventureStateView) -> Result<
    AdventureStateView,
    AdventureError,
> {
    match st {
        AdventureStateView::Started(g, s, t, AdventurePhase::Event(_)) => Ok(
            AdventureStateView::Started(
                g,
                s,
                Turn { player: next_in_order(s.goblin_order, t.player), ..t },
                AdventurePhase::Camp(fresh_camp()),
            ),
        ),
        _ => Err(AdventureError::WrongPhase),
    }
}

/// Whether the event's location and scenario are in the catalog.
pub open spec fn event_in_catalog(ev: EventPhase, cat: Seq<EventLocationData>) -> bool {
    ev.location < cat.len() && ev.scenario < cat[ev.location as int].scenarios@.len()
}

/// Choosing action `action` of the event's scenario: the draw picks one of
/// its outcomes, and the goblin grows one greedier.
pub open spec fn make_choice_step(
    st: AdventureStateView,
    cat: Seq<EventLocationData>,
    action: usize,
    roll: u32,
) -> Result<AdventureStateView, AdventureError> {
    match st {
        AdventureStateView::Started(g, s, t, AdventurePhase::Event(ev)) => {
            if ev.outcome is Some {
                Err(AdventureError::AlreadyResolved)
            } else if !event_in_catalog(ev, cat) {
                Err(AdventureError::UnknownScenario)
            } else if action >= cat[ev.location as int].scenarios@[ev.scenario as int].actions@.len() {
                Err(AdventureError::InvalidChoiceIndex)
            } else {
                let n = outcomes_of(cat, ev.location as int, ev.scenario as int, action as int).len();
                let gb = g[t.player];
                let chosen = EventPhaseOutcome {
                    choice: action,
                    effect: (roll as nat % n) as usize,
                    accepted: false,
                };
                Ok(
                    AdventureStateView::Started(
                        g.insert(t.player, GoblinView { greed: bump(gb.greed), ..gb }),
                        s,
                        t,
                        AdventurePhase::Event(EventPhase { outcome: Some(chosen), ..ev }),
                    ),
                )
            }
        },
        _ => Err(AdventureError::WrongPhase),
    }
}

/// Whether the recorded choice names an action of the event's scenario.
pub open spec fn choice_in_catalog(
    ev: EventPhase,
    o: EventPhaseOutcome,
    cat: Seq<EventLocationData>,
) -> bool {
    o.choice < cat[ev.location as int].scenarios@[ev.scenario as int].actions@.len()
}

/// Accepting the drawn outcome: its effect is applied, once.
pub open spec fn handle_outcome_step(
    st: AdventureStateView,
    cat: Seq<EventLocationData>,
    roll: u32,
) -> Result<AdventureStateView, AdventureError> {
    match st {
        AdventureStateView::Started(g, s, t, AdventurePhase::Event(ev)) => match ev.outcome {
            None => Err(AdventureError::NoOutcomeYet),
            Some(o) => {
                if o.accepted {
                    Err(AdventureError::AlreadyResolved)
                } else if !event_in_catalog(ev, cat) {
                    Err(AdventureError::UnknownScenario)
                } else if !choice_in_catalog(ev, o, cat) {
                    Err(AdventureError::InvalidChoiceIndex)
                } else {
                    let outs = outcomes_of(cat, ev.location as int, ev.scenario as int, o.choice as int);
                    let kind = outs[(o.effect as nat % outs.len()) as int].effect;
                    Ok(
                        AdventureStateView::Started(
                            effect_of(g, s.goblin_order, t.player, kind, roll),
                            s,
                            t,
                            AdventurePhase::Event(
                                EventPhase {
                                    outcome: Some(EventPhaseOutcome { accepted: true, ..o }),
                                    ..ev
                                },
                            ),
                        ),
                    )
                }
            },
        },
        _ => Err(AdventureError::WrongPhase),
    }
}

/// Ending the adventure once as many events were seen as it has rounds.
pub open spec fn finish_step(st: AdventureStateView) -> Result<AdventureStateView, AdventureError> {
    match st {
        AdventureStateView::Started(g, s, t, _) => {
            if t.num_events >= s.num_rounds {
                Ok(AdventureStateView::Complete(g, s))
            } else {
                Err(AdventureError::RoundsRemaining)
            }
        },
        _ => Err(AdventureError::WrongPhase),
    }
}


/// A newly recruited goblin.
pub open spec fn recruit_view() -> GoblinView {
    GoblinView { health: 2, luck: 0, greed: 0, items: Seq::empty(), loot: Seq::empty() }
}

/// Seating a new goblin, before setting out.
pub open spec fn recruit_step(st: AdventureStateView, p: Player) -> Result<
    AdventureStateView,
    AdventureError,
> {
    match st {
        AdventureStateView::Preparing(g, s) => {
            if g.contains_key(p) {
                Err(AdventureError::SeatTaken)
            } else {
                Ok(AdventureStateView::Preparing(g.insert(p, recruit_view()), s))
            }
        },
        _ => Err(AdventureError::WrongPhase),
    }
}

/// Sending a goblin away, before setting out; the creator stays.
pub open spec fn dismiss_step(st: AdventureStateView, p: Player) -> Result<
    AdventureStateView,
    AdventureError,
> {
    match st {
        AdventureStateView::Preparing(g, s) => {
            if p == Player::P1 {
                Err(AdventureError::CreatorSeat)
            } else if !g.contains_key(p) {
                Err(AdventureError::SeatEmpty)
            } else {
                Ok(AdventureStateView::Preparing(g.remove(p), s))
            }
        },
        _ => Err(AdventureError::WrongPhase),
    }
}

/// Lengthening (`more`) or shortening the adventure by one round, before
/// setting out.
pub open spec fn rounds_step(st: AdventureStateView, more: bool) -> Result<
    AdventureStateView,
    AdventureError,
> {
    match st {
        AdventureStateView::Preparing(g, s) => {
            if more && s.num_rounds == u8::MAX {
                Err(AdventureError::RoundsOutOfRange)
            } else if !more && s.num_rounds == 0 {
                Err(AdventureError::RoundsOutOfRange)
            } else {
                let n = if more {
                    (s.num_rounds + 1) as u8
                } else {
                    (s.num_rounds - 1) as u8
                };
                Ok(AdventureStateView::Preparing(g, SettingsView { num_rounds: n, ..s }))
            }
        },
        _ => Err(AdventureError::WrongPhase),
    }
}

/// The two draws pick a location, then one of its scenarios.
fn roll_event(catalog: &[EventLocationData], location_roll: u32, scenario_roll: u32) -> (ev:
    EventPhase)
    requires
        catalog_wf(catalog@),
    ensures
        ev == new_event(catalog@, location_roll, scenario_roll),
        event_in_catalog(ev, catalog@),
{
    let location = (location_roll as usize) % catalog.len();
    assert(crate::catalog::location_wf(catalog@[location as int]));
    let n = catalog[location].scenarios.len();
    let scenario = (scenario_roll as usize) % n;
    EventPhase { location, scenario, outcome: None }
}

/// A state to hold the adventure's place while its parts are moved.
fn vacant_state() -> AdventureState {
    AdventureState::Complete(
        GoblinMap { p1: None, p2: None, p3: None, p4: None },
        Settings {
            num_rounds: 0,
            goblin_order: Vec::new(),
            goblin_owners: Vec::new(),
            heroes: Vec::new(),
        },
    )
}

impl Adventure {
    /// The adventure's own invariant: see `state_wf`.
    pub open spec fn wf(&self) -> bool {
        state_wf(self@.state)
    }

    /// A new adventure, created by `p1_pubkey`: the creator's goblin alone in
    /// the party, default settings, save slot zero.
    pub fn new(p1_pubkey: AccountKey) -> (r: Adventure)
        ensures
            r.wf(),
            r.creator == p1_pubkey,
            r.save_slot == 0,
            r@.state matches AdventureStateView::Preparing(g, s) && g.dom() == set![Player::P1]
                && g[Player::P1] == recruit_view() && s.num_rounds == 10 && s.goblin_order
                == seq![Player::P1] && s.goblin_owners.len() == 0 && s.heroes == seq![
                (HeroKind::Thief, 0usize),
                (HeroKind::Wizard, 0usize),
                (HeroKind::Warrior, 0usize),
                (HeroKind::Merchant, 0usize),
            ],
    {
        let goblins = GoblinMap::new();
        let settings = Settings::new();
        assert(goblins@[Player::P1].items =~= Seq::<crate::goblin::ItemKind>::empty());
        assert(goblins@[Player::P1].loot =~= Seq::<Loot>::empty());
        Adventure { creator: p1_pubkey, save_slot: 0, state: AdventureState::Preparing(goblins, settings) }
    }

    /// Sets out: valid only while preparing. Fixes the turn order over the
    /// occupied seats, gives the `k`-th goblin greed `4 - k`, hands the turn to
    /// the first, and makes camp.
    pub fn start_adventure(&mut self) -> (r: Result<(), AdventureError>)
        requires
            old(self).wf(),
        ensures
            final(self).wf(),
            follows(old(self)@, final(self)@, r, start_step(old(self)@.state)),
            r is Err ==> *final(self) == *old(self),
    {
        if !matches!(self.state, AdventureState::Preparing(..)) {
            return Err(AdventureError::WrongPhase);
        }
        let mut taken = vacant_state();
        std::mem::swap(&mut self.state, &mut taken);
        match taken {
            AdventureState::Preparing(mut goblins, mut settings) => {
                let ghost g0 = goblins@;
                proof {
                    lemma_occupied_order(g0);
                    assert(rank(g0, Player::P1) == 0);
                }
                settings.update_goblin_order(&mut goblins);
                let first = settings.goblin_order[0];
                proof {
                    let order = settings.goblin_order@;
                    assert(order[0] == first);
                    assert forall|k: int| 0 <= k < order.len() implies goblins@.contains_key(
                        #[trigger] order[k],
                    ) by {
                        assert(g0.contains_key(order[k]));
                    }
                }
                self.state = AdventureState::Started(
                    goblins,
                    settings,
                    Turn::new(first),
                    AdventurePhase::Camp(CampPhase::new()),
                );
                Ok(())
            },
            _ => {
                proof {
                    assert(false);
                }
                Err(AdventureError::WrongPhase)
            },
        }
    }

    /// Rummages through the party's loot, with `roll` picking the tier of the
    /// find: valid only at camp, before anything was rummaged there.
    pub fn rummage_for_loot_with(&mut self, roll: u32) -> (r: Result<(), AdventureError>)
        requires
            old(self).wf(),
        ensures
            final(self).wf(),
            follows(old(self)@, final(self)@, r, rummage_step(old(self)@.state, roll)),
            r is Err ==> *final(self) == *old(self),
    {
        match &mut self.state {
            AdventureState::Started(_, _, _, AdventurePhase::Camp(camp)) => {
                if camp.rummage_result.is_some() {
                    return Err(AdventureError::AlreadyResolved);
                }
                camp.rummage_result = Some(
                    RummageResult::Success { loot: Loot { rarity: Rarity::from_roll(roll) }, did_take: None },
                );
                Ok(())
            },
            _ => Err(AdventureError::WrongPhase),
        }
    }

    /// Rummages through the party's loot, drawing the tier at random.
    pub fn rummage_for_loot(&mut self) -> (r: Result<(), AdventureError>)
        requires
            old(self).wf(),
        ensures
            final(self).wf(),
            exists|roll: u32| #[trigger]
                follows(old(self)@, final(self)@, r, rummage_step(old(self)@.state, roll)),
            r is Err ==> *final(self) == *old(self),
    {
        let roll = draw();
        self.rummage_for_loot_with(roll)
    }

    fn decide_on_loot(&mut self, take: bool) -> (r: Result<(), AdventureError>)
        requires
            old(self).wf(),
        ensures
            final(self).wf(),
            follows(old(self)@, final(self)@, r, decide_step(old(self)@.state, take)),
            r is Err ==> *final(self) == *old(self),
    {
        proof {
            if self@.state is Started {
                lemma_active_seated(self@.state);
            }
        }
        match &mut self.state {
            AdventureState::Started(goblins, _, turn, AdventurePhase::Camp(camp)) => {
                match camp.rummage_result {
                    Some(RummageResult::Success { loot, did_take: None }) => {
                        let ghost g0 = goblins@;
                        let mut g = goblins.remove(turn.player).unwrap();
                        if take {
                            g.greed = bump_u8(g.greed);
                            g.loot.push(loot);
                        } else {
                            g.greed = drop_u8(g.greed, 1);
                        }
                        proof {
                            lemma_reseat(g0, turn.player, g@);
                        }
                        goblins.insert(turn.player, g);
                        camp.rummage_result = Some(
                            RummageResult::Success { loot, did_take: Some(take) },
                        );
                        Ok(())
                    },
                    Some(RummageResult::Success { .. }) => Err(AdventureError::AlreadyResolved),
                    _ => Err(AdventureError::NoLootOnOffer),
                }
            },
            _ => Err(AdventureError::WrongPhase),
        }
    }

    /// Pockets the loot found at camp: one more piece of loot, one more greed.
    /// Valid only while the find awaits a decision.
    pub fn rummage_take_loot(&mut self) -> (r: Result<(), AdventureError>)
        requires
            old(self).wf(),
        ensures
            final(self).wf(),
            follows(old(self)@, final(self)@, r, decide_step(old(self)@.state, true)),
            r is Err ==> *final(self) == *old(self),
    {
        self.decide_on_loot(true)
    }

    /// Leaves the loot found at camp: one less greed, stopping at zero. Valid
    /// only while the find awaits a decision.
    pub fn rummage_leave_loot(&mut self) -> (r: Result<(), AdventureError>)
        requires
            old(self).wf(),
        ensures
            final(self).wf(),
            follows(old(self)@, final(self)@, r, decide_step(old(self)@.state, false)),
            r is Err ==> *final(self) == *old(self),
    {
        self.decide_on_loot(false)
    }

    /// Leaves camp for an event at the location and scenario that the two
    /// draws pick. Valid at camp, whatever was rummaged there.
    pub fn event_start_with(
        &mut self,
        catalog: &[EventLocationData],
        location_roll: u32,
        scenario_roll: u32,
    ) -> (r: Result<(), AdventureError>)
        requires
            old(self).wf(),
            catalog_wf(catalog@),
        ensures
            final(self).wf(),
            follows(
                old(self)@,
                final(self)@,
                r,
                event_start_step(old(self)@.state, catalog@, location_roll, scenario_roll),
            ),
            r is Err ==> *final(self) == *old(self),
    {
        match &mut self.state {
            AdventureState::Started(_, _, _, phase) => {
                if !matches!(*phase, AdventurePhase::Camp(_)) {
                    return Err(AdventureError::WrongPhase);
                }
                *phase = AdventurePhase::Event(roll_event(catalog, location_roll, scenario_roll));
                Ok(())
            },
            _ => Err(AdventureError::WrongPhase),
        }
    }

    /// Leaves camp for an event at a location and scenario drawn at random.
    pub fn event_start(&mut self, catalog: &[EventLocationData]) -> (r: Result<(), AdventureError>)
        requires
            old(self).wf(),
            catalog_wf(catalog@),
        ensures
            final(self).wf(),
            exists|location_roll: u32, scenario_roll: u32| #[trigger]
                follows(
                    old(self)@,
                    final(self)@,
                    r,
                    event_start_step(old(self)@.state, catalog@, location_roll, scenario_roll),
                ),
            r is Err ==> *final(self) == *old(self),
    {
        let location_roll = draw();
        let scenario_roll = draw();
        self.event_start_with(catalog, location_roll, scenario_roll)
    }

    /// Presses on to a new event, picked by the two draws, once the current
    /// outcome is accepted and while fewer events were seen than the adventure
    /// has rounds. The same goblin goes on; one more event is counted.
    pub fn keep_going_with(
        &mut self,
        catalog: &[EventLocationData],
        location_roll: u32,
        scenario_roll: u32,
    ) -> (r: Result<(), AdventureError>)
        requires
            old(self).wf(),
            catalog_wf(catalog@),
        ensures
            final(self).wf(),
            follows(
                old(self)@,
                final(self)@,
                r,
                keep_going_step(old(self)@.state, catalog@, location_roll, scenario_roll),
            ),
            r is Err ==> *final(self) == *old(self),
    {
        match &mut self.state {
            AdventureState::Started(_, settings, turn, phase) => {
                let accepted = match *phase {
                    AdventurePhase::Event(ev) => match ev.outcome {
                        Some(o) => o.accepted,
                        None => false,
                    },
                    AdventurePhase::Camp(_) => {
                        return Err(AdventureError::WrongPhase);
                    },
                };
                if !accepted {
                    return Err(AdventureError::NotYetAccepted);
                }
                if turn.num_events >= settings.num_rounds {
                    return Err(AdventureError::RoundsExhausted);
                }
                turn.num_events = turn.num_events + 1;
                *phase = AdventurePhase::Event(roll_event(catalog, location_roll, scenario_roll));
                Ok(())
            },
            _ => Err(AdventureError::WrongPhase),
        }
    }

    /// Presses on to a new event drawn at random.
    pub fn keep_going(&mut self, catalog: &[EventLocationData]) -> (r: Result<(), AdventureError>)
        requires
            old(self).wf(),
            catalog_wf(catalog@),
        ensures
            final(self).wf(),
            exists|location_roll: u32, scenario_roll: u32| #[trigger]
                follows(
                    old(self)@,
                    final(self)@,
                    r,
                    keep_going_step(old(self)@.state, catalog@, location_roll, scenario_roll),
                ),
            r is Err ==> *final(self) == *old(self),
    {
        let location_roll = draw();
        let scenario_roll = draw();
        self.keep_going_with(catalog, location_roll, scenario_roll)
    }

    /// Rests: the turn passes to the next goblin in the turn order (the first
    /// after the last), and a fresh camp is made. Valid during an event.
    pub fn take_a_break(&mut self) -> (r: Result<(), AdventureError>)
        requires
            old(self).wf(),
        ensures
            final(self).wf(),
            follows(old(self)@, final(self)@, r, take_a_break_step(old(self)@.state)),
            r is Err ==> *final(self) == *old(self),
    {
        match &mut self.state {
            AdventureState::Started(_, settings, turn, phase) => {
                if !matches!(*phase, AdventurePhase::Event(_)) {
                    return Err(AdventureError::WrongPhase);
                }
                let next = next_player(&settings.goblin_order, turn.player);
                proof {
                    let order = settings.goblin_order@;
                    let k = (crate::state::position_of(order, turn.player) + 1) % (order.len() as int);
                    assert(0 <= k < order.len());
                    assert(order[k] == next);
                }
                turn.player = next;
                *phase = AdventurePhase::Camp(CampPhase::new());
                Ok(())
            },
            _ => Err(AdventureError::WrongPhase),
        }
    }

    /// Chooses action `action_index` of the event's scenario (the risky one
    /// first, then the safe one): `roll` picks one of its outcomes, and the
    /// goblin grows one greedier. Valid only before a choice was made.
    pub fn event_make_choice_with(
        &mut self,
        catalog: &[EventLocationData],
        action_index: usize,
        roll: u32,
    ) -> (r: Result<(), AdventureError>)
        requires
            old(self).wf(),
            catalog_wf(catalog@),
        ensures
            final(self).wf(),
            follows(
                old(self)@,
                final(self)@,
                r,
                make_choice_step(old(self)@.state, catalog@, action_index, roll),
            ),
            r is Err ==> *final(self) == *old(self),
    {
        proof {
            if self@.state is Started {
                lemma_active_seated(self@.state);
            }
        }
        match &mut self.state {
            AdventureState::Started(goblins, _, turn, AdventurePhase::Event(ev)) => {
                if ev.outcome.is_some() {
                    return Err(AdventureError::AlreadyResolved);
                }
                if ev.location >= catalog.len() || ev.scenario
                    >= catalog[ev.location].scenarios.len() {
                    return Err(AdventureError::UnknownScenario);
                }
                let actions = catalog[ev.location].scenarios[ev.scenario].actions;
                if action_index >= actions.len() {
                    return Err(AdventureError::InvalidChoiceIndex);
                }
                proof {
                    assert(crate::catalog::location_wf(catalog@[ev.location as int]));
                    assert(crate::catalog::scenario_wf(
                        catalog@[ev.location as int].scenarios@[ev.scenario as int],
                    ));
                    assert(crate::catalog::action_wf(actions@[action_index as int]));
                }
                let effect = select_outcome(actions[action_index].outcomes.len(), roll);
                let ghost g0 = goblins@;
                let mut g = goblins.remove(turn.player).unwrap();
                g.greed = bump_u8(g.greed);
                proof {
                    lemma_reseat(g0, turn.player, g@);
                }
                goblins.insert(turn.player, g);
                ev.outcome = Some(EventPhaseOutcome { choice: action_index, effect, accepted: false });
                Ok(())
            },
            _ => Err(AdventureError::WrongPhase),
        }
    }

    /// Chooses an action of the event's scenario; its outcome is drawn at random.
    pub fn event_make_choice(
        &mut self,
        catalog: &[EventLocationData],
        action_index: usize,
    ) -> (r: Result<(), AdventureError>)
        requires
            old(self).wf(),
            catalog_wf(catalog@),
        ensures
            final(self).wf(),
            exists|roll: u32| #[trigger]
                follows(
                    old(self)@,
                    final(self)@,
                    r,
                    make_choice_step(old(self)@.state, catalog@, action_index, roll),
                ),
            r is Err ==> *final(self) == *old(self),
    {
        let roll = draw();
        self.event_make_choice_with(catalog, action_index, roll)
    }

    /// Accepts the drawn outcome and applies its effect to the goblin whose
    /// turn it is; `roll` picks the tier of any loot it brings. Valid once per
    /// outcome, after a choice was made.
    pub fn event_handle_outcome_with(&mut self, catalog: &[EventLocationData], roll: u32) -> (r:
        Result<(), AdventureError>)
        requires
            old(self).wf(),
            catalog_wf(catalog@),
        ensures
            final(self).wf(),
            follows(old(self)@, final(self)@, r, handle_outcome_step(old(self)@.state, catalog@, roll)),
            r is Err ==> *final(self) == *old(self),
    {
        match &mut self.state {
            AdventureState::Started(goblins, settings, turn, AdventurePhase::Event(ev)) => {
                let o = match ev.outcome {
                    Some(o) => o,
                    None => {
                        return Err(AdventureError::NoOutcomeYet);
                    },
                };
                if o.accepted {
                    return Err(AdventureError::AlreadyResolved);
                }
                if ev.location >= catalog.len() || ev.scenario
                    >= catalog[ev.location].scenarios.len() {
                    return Err(AdventureError::UnknownScenario);
                }
                let actions = catalog[ev.location].scenarios[ev.scenario].actions;
                if o.choice >= actions.len() {
                    return Err(AdventureError::InvalidChoiceIndex);
                }
                proof {
                    assert(crate::catalog::location_wf(catalog@[ev.location as int]));
                    assert(crate::catalog::scenario_wf(
                        catalog@[ev.location as int].scenarios@[ev.scenario as int],
                    ));
                    assert(crate::catalog::action_wf(actions@[o.choice as int]));
                }
                let outcomes = actions[o.choice].outcomes;
                let kind = outcomes[o.effect % outcomes.len()].effect;
                apply_outcome(goblins, &settings.goblin_order, turn.player, kind, roll);
                ev.outcome = Some(EventPhaseOutcome { accepted: true, ..o });
                Ok(())
            },
            _ => Err(AdventureError::WrongPhase),
        }
    }

    /// Accepts the drawn outcome; any loot it brings is of a random tier.
    pub fn event_handle_outcome(&mut self, catalog: &[EventLocationData]) -> (r: Result<
        (),
        AdventureError,
    >)
        requires
            old(self).wf(),
            catalog_wf(catalog@),
        ensures
            final(self).wf(),
            exists|roll: u32| #[trigger]
                follows(
                    old(self)@,
                    final(self)@,
                    r,
                    handle_outcome_step(old(self)@.state, catalog@, roll),
                ),
            r is Err ==> *final(self) == *old(self),
    {
        let roll = draw();
        self.event_handle_outcome_with(catalog, roll)
    }

    /// Ends the adventure once as many events were seen as it has rounds.
    pub fn finish_adventure(&mut self) -> (r: Result<(), AdventureError>)
        requires
            old(self).wf(),
        ensures
            final(self).wf(),
            follows(old(self)@, final(self)@, r, finish_step(old(self)@.state)),
            r is Err ==> *final(self) == *old(self),
    {
        match &self.state {
            AdventureState::Started(_, settings, turn, _) => {
                if turn.num_events < settings.num_rounds {
                    return Err(AdventureError::RoundsRemaining);
                }
            },
            _ => {
                return Err(AdventureError::WrongPhase);
            },
        }
        let mut taken = vacant_state();
        std::mem::swap(&mut self.state, &mut taken);
        match taken {
            AdventureState::Started(goblins, settings, _, _) => {
                self.state = AdventureState::Complete(goblins, settings);
                Ok(())
            },
            _ => {
                proof {
                    assert(false);
                }
                Err(AdventureError::WrongPhase)
            },
        }
    }

    /// Seats a new goblin in the empty seat `p`, before setting out.
    pub fn recruit_goblin(&mut self, p: Player) -> (r: Result<(), AdventureError>)
        requires
            old(self).wf(),
        ensures
            final(self).wf(),
            follows(old(self)@, final(self)@, r, recruit_step(old(self)@.state, p)),
            r is Err ==> *final(self) == *old(self),
    {
        match &mut self.state {
            AdventureState::Preparing(goblins, _) => {
                if goblins.contains_key(p) {
                    return Err(AdventureError::SeatTaken);
                }
                let g = Goblin::new();
                assert(g@.items =~= Seq::<crate::goblin::ItemKind>::empty());
                assert(g@.loot =~= Seq::<Loot>::empty());
                assert(g@ == recruit_view());
                goblins.insert(p, g);
                Ok(())
            },
            _ => Err(AdventureError::WrongPhase),
        }
    }

    /// Sends away the goblin in seat `p`, before setting out. The creator's
    /// seat stays filled.
    pub fn dismiss_goblin(&mut self, p: Player) -> (r: Result<(), AdventureError>)
        requires
            old(self).wf(),
        ensures
            final(self).wf(),
            follows(old(self)@, final(self)@, r, dismiss_step(old(self)@.state, p)),
            r is Err ==> *final(self) == *old(self),
    {
        match &mut self.state {
            AdventureState::Preparing(goblins, _) => {
                if p == Player::P1 {
                    return Err(AdventureError::CreatorSeat);
                }
                if !goblins.contains_key(p) {
                    return Err(AdventureError::SeatEmpty);
                }
                let _ = goblins.remove(p);
                Ok(())
            },
            _ => Err(AdventureError::WrongPhase),
        }
    }

    fn change_rounds(&mut self, more: bool) -> (r: Result<(), AdventureError>)
        requires
            old(self).wf(),
        ensures
            final(self).wf(),
            follows(old(self)@, final(self)@, r, rounds_step(old(self)@.state, more)),
            r is Err ==> *final(self) == *old(self),
    {
        match &mut self.state {
            AdventureState::Preparing(_, settings) => {
                if more {
                    if settings.num_rounds == u8::MAX {
                        return Err(AdventureError::RoundsOutOfRange);
                    }
                    settings.num_rounds = settings.num_rounds + 1;
                } else {
                    if settings.num_rounds == 0 {
                        return Err(AdventureError::RoundsOutOfRange);
                    }
                    settings.num_rounds = settings.num_rounds - 1;
                }
                Ok(())
            },
            _ => Err(AdventureError::WrongPhase),
        }
    }

    /// One more round, before setting out.
    pub fn add_round(&mut self) -> (r: Result<(), AdventureError>)
        requires
            old(self).wf(),
        ensures
            final(self).wf(),
            follows(old(self)@, final(self)@, r, rounds_step(old(self)@.state, true)),
            r is Err ==> *final(self) == *old(self),
    {
        self.change_rounds(true)
    }

    /// One round fewer, before setting out.
    pub fn remove_round(&mut self) -> (r: Result<(), AdventureError>)
        requires
            old(self).wf(),
        ensures
            final(self).wf(),
            follows(old(self)@, final(self)@, r, rounds_step(old(self)@.state, false)),
            r is Err ==> *final(self) == *old(self),
    {
        self.change_rounds(false)
    }

    /// Whether the adventure meets its invariant, for states that come from
    /// elsewhere (a save, say) before any operation is called on them.
    pub fn is_well_formed(&self) -> (r: bool)
        ensures
            r == self.wf(),
    {
        match &self.state {
            AdventureState::Preparing(goblins, _) => goblins.contains_key(Player::P1),
            AdventureState::Started(goblins, settings, turn, _) => {
                let order = &settings.goblin_order;
                if order.len() == 0 {
                    return false;
                }
                let mut found = false;
                let mut i: usize = 0;
                while i < order.len()
                    invariant
                        i <= order@.len(),
                        self@.state is Started,
                        self@.state->Started_0 == goblins@,
                        self@.state->Started_1.goblin_order == order@,
                        self@.state->Started_2 == *turn,
                        forall|k: int| 0 <= k < i ==> goblins@.contains_key(#[trigger] order@[k]),
                        forall|k: int, m: int|
                            0 <= k < i && 0 <= m < i && k != m ==> order@[k] != order@[m],
                        found <==> exists|k: int| 0 <= k < i && order@[k] == turn.player,
                    decreases order@.len() - i,
                {
                    if !goblins.contains_key(order[i]) {
                        return false;
                    }
                    let mut j: usize = 0;
                    while j < i
                        invariant
                            i < order@.len(),
                            j <= i,
                            self@.state is Started,
                            self@.state->Started_1.goblin_order == order@,
                            forall|m: int| 0 <= m < j ==> order@[m] != order@[i as int],
                        decreases i - j,
                    {
                        if order[j] == order[i] {
                            assert(order@[j as int] == order@[i as int]);
                            assert(!order@.no_duplicates());
                            return false;
                        }
                        j = j + 1;
                    }
                    if order[i] == turn.player {
                        found = true;
                    }
                    i = i + 1;
                }
                if !found {
                    return false;
                }
                proof {
                    let w = choose|k: int| 0 <= k < order@.len() && order@[k] == turn.player;
                    assert(order@[w] == turn.player);
                }
                true
            },
            AdventureState::Complete(_, _) => true,
        }
    }

}

pub open spec fn follows(
    before: AdventureView,
    after: AdventureView,
    r: Result<(), AdventureError>,
    step: Result<AdventureStateView, AdventureError>,
) -> bool {
    match step {
        Ok(s) => r is Ok && after == AdventureView { state: s, ..before },
        Err(e) => r == Err::<(), AdventureError>(e) && after == before,
    }
}

} // verus!
