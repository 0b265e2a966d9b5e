use loot_goblin::{
    catalog_is_well_formed, Adventure, AdventureError, AdventurePhase, AdventureState, CampPhase,
    EventLocationData, EventPhase, EventPhaseOutcome, EventResult, EventScenario,
    EventPhaseAction, EventScenarioAction, EventScenarioOutcome, Goblin, GoblinMap, Loot,
    PhaseActionsSection, Player, Rarity, RummageResult, Settings, Turn,
};

const ALL_RESULTS: [EventResult; 14] = [
    EventResult::GetLoot,
    EventResult::GetItem,
    EventResult::StealLoot,
    EventResult::StealItem,
    EventResult::Heal,
    EventResult::BoostLuck,
    EventResult::ReduceGreed,
    EventResult::LoseLoot,
    EventResult::LoseItem,
    EventResult::LootGotStolen,
    EventResult::ItemGotStolen,
    EventResult::SlapFight,
    EventResult::GetAttacked,
    EventResult::OK,
];

// Outcome `i` of every action has the `i`-th kind, so a draw of `i` picks it.
const OUTCOMES: &[EventScenarioOutcome] = &[
    EventScenarioOutcome { weight: 1, description: "something happens", dialog: &["hm"], effect: ALL_RESULTS[0] },
    EventScenarioOutcome { weight: 1, description: "something happens", dialog: &["hm"], effect: ALL_RESULTS[1] },
    EventScenarioOutcome { weight: 1, description: "something happens", dialog: &["hm"], effect: ALL_RESULTS[2] },
    EventScenarioOutcome { weight: 1, description: "something happens", dialog: &["hm"], effect: ALL_RESULTS[3] },
    EventScenarioOutcome { weight: 1, description: "something happens", dialog: &["hm"], effect: ALL_RESULTS[4] },
    EventScenarioOutcome { weight: 1, description: "something happens", dialog: &["hm"], effect: ALL_RESULTS[5] },
    EventScenarioOutcome { weight: 1, description: "something happens", dialog: &["hm"], effect: ALL_RESULTS[6] },
    EventScenarioOutcome { weight: 1, description: "something happens", dialog: &["hm"], effect: ALL_RESULTS[7] },
    EventScenarioOutcome { weight: 1, description: "something happens", dialog: &["hm"], effect: ALL_RESULTS[8] },
    EventScenarioOutcome { weight: 1, description: "something happens", dialog: &["hm"], effect: ALL_RESULTS[9] },
    EventScenarioOutcome { weight: 1, description: "something happens", dialog: &["hm"], effect: ALL_RESULTS[10] },
    EventScenarioOutcome { weight: 1, description: "something happens", dialog: &["hm"], effect: ALL_RESULTS[11] },
    EventScenarioOutcome { weight: 1, description: "something happens", dialog: &["hm"], effect: ALL_RESULTS[12] },
    EventScenarioOutcome { weight: 1, description: "something happens", dialog: &["hm"], effect: ALL_RESULTS[13] },
];

const ACTIONS: &[EventScenarioAction] = &[
    EventScenarioAction { dialog: &["risk"], label: "> Risk it", outcomes: OUTCOMES },
    EventScenarioAction { dialog: &["safe"], label: "> Play it safe", outcomes: OUTCOMES },
];

const SCENARIO: EventScenario =
    EventScenario { name: "A fork", description: "Two ways on.", actions: ACTIONS };

const CATALOG: &[EventLocationData] = &[
    EventLocationData {
        name: "Ruins",
        images: &["ruins"],
        dialog: &["old stones"],
        description: "Old stones.",
        scenarios: &[SCENARIO],
    },
    EventLocationData {
        name: "Woods",
        images: &["woods"],
        dialog: &["trees"],
        description: "Trees.",
        scenarios: &[SCENARIO, SCENARIO, SCENARIO],
    },
];

const SHORT_ACTIONS: &[EventScenarioAction] = &[EventScenarioAction {
    dialog: &["risk"],
    label: "> Risk it",
    outcomes: OUTCOMES,
}];

const BAD_CATALOG: &[EventLocationData] = &[EventLocationData {
    name: "Ruins",
    images: &["ruins"],
    dialog: &["old stones"],
    description: "Old stones.",
    scenarios: &[EventScenario { name: "A dead end", description: "One way.", actions: SHORT_ACTIONS }],
}];

fn parts(a: &Adventure) -> (&GoblinMap, &Settings, &Turn, &AdventurePhase) {
    match &a.state {
        AdventureState::Started(g, s, t, ph) => (g, s, t, ph),
        _ => panic!("adventure is not under way"),
    }
}

fn goblin(a: &Adventure, p: Player) -> &Goblin {
    parts(a).0.get(p).unwrap()
}

fn active(a: &Adventure) -> &Goblin {
    goblin(a, parts(a).2.player)
}

fn started(seats: &[Player]) -> Adventure {
    let mut a = Adventure::new([7u8; 32]);
    for p in seats {
        a.recruit_goblin(*p).unwrap();
    }
    a.start_adventure().unwrap();
    a
}

/// An adventure in an event at the first location, choice made with draw `effect`.
fn chosen(seats: &[Player], effect: u32) -> Adventure {
    let mut a = started(seats);
    a.event_start_with(CATALOG, 0, 0).unwrap();
    a.event_make_choice_with(CATALOG, 0, effect).unwrap();
    a
}

#[test]
fn new_adventure_has_creator_alone() {
    let a = Adventure::new([9u8; 32]);
    assert_eq!(a.creator, [9u8; 32]);
    assert_eq!(a.save_slot, 0);
    match &a.state {
        AdventureState::Preparing(g, s) => {
            let p1 = g.get(Player::P1).unwrap();
            assert_eq!((p1.health, p1.luck, p1.greed), (2, 0, 0));
            assert!(p1.items.is_empty() && p1.loot.is_empty());
            assert!(!g.contains_key(Player::P2));
            assert!(!g.contains_key(Player::P3));
            assert!(!g.contains_key(Player::P4));
            assert_eq!(s.num_rounds, 10);
            assert_eq!(s.goblin_order, vec![Player::P1]);
            assert_eq!(s.heroes.len(), 4);
        },
        _ => panic!("a new adventure is being prepared"),
    }
}

#[test]
fn start_succeeds_once() {
    let mut a = Adventure::new([0u8; 32]);
    assert_eq!(a.start_adventure(), Ok(()));
    let before = a.clone();
    assert_eq!(a.start_adventure(), Err(AdventureError::WrongPhase));
    assert_eq!(a, before);
    let (_, _, t, ph) = parts(&a);
    assert_eq!(*t, Turn { nonce: 0, num_events: 0, player: Player::P1 });
    assert_eq!(*ph, AdventurePhase::Camp(CampPhase::new()));
}

#[test]
fn turn_order_is_contiguous_for_every_roster() {
    let others = [Player::P2, Player::P3, Player::P4];
    for mask in 0..8u32 {
        let seats: Vec<Player> =
            (0..3).filter(|i| mask & (1 << i) != 0).map(|i| others[i]).collect();
        let a = started(&seats);
        let mut expected = vec![Player::P1];
        expected.extend(seats.iter().copied());
        let (g, s, t, _) = parts(&a);
        assert_eq!(s.goblin_order, expected);
        assert_eq!(t.player, Player::P1);
        for (k, p) in s.goblin_order.iter().enumerate() {
            assert!(g.contains_key(*p));
            assert_eq!(g.get(*p).unwrap().greed as usize, 4 - k);
        }
    }
}

#[test]
fn starting_greed_follows_join_order() {
    let a = started(&[Player::P2, Player::P4]);
    assert_eq!(parts(&a).1.goblin_order, vec![Player::P1, Player::P2, Player::P4]);
    assert_eq!(goblin(&a, Player::P1).greed, 4);
    assert_eq!(goblin(&a, Player::P2).greed, 3);
    assert_eq!(goblin(&a, Player::P4).greed, 2);
}

#[test]
fn rummage_is_single_shot() {
    let mut a = started(&[]);
    assert_eq!(a.rummage_for_loot_with(2), Ok(()));
    match parts(&a).3 {
        AdventurePhase::Camp(c) => assert_eq!(
            c.rummage_result,
            Some(RummageResult::Success { loot: Loot { rarity: Rarity::Rare }, did_take: None })
        ),
        _ => panic!("still at camp"),
    }
    let before = a.clone();
    assert_eq!(a.rummage_for_loot_with(4), Err(AdventureError::AlreadyResolved));
    assert_eq!(a, before);
}

#[test]
fn rummage_with_a_random_draw_finds_loot() {
    let mut a = started(&[]);
    assert_eq!(a.rummage_for_loot(), Ok(()));
    match parts(&a).3 {
        AdventurePhase::Camp(c) => {
            assert!(matches!(c.rummage_result, Some(RummageResult::Success { did_take: None, .. })))
        },
        _ => panic!("still at camp"),
    }
}

#[test]
fn taking_loot_adds_loot_and_greed() {
    let mut a = started(&[]);
    a.rummage_for_loot_with(4).unwrap();
    assert_eq!(a.rummage_take_loot(), Ok(()));
    let g = active(&a);
    assert_eq!(g.loot, vec![Loot { rarity: Rarity::Epic }]);
    assert_eq!(g.greed, 5);
    let before = a.clone();
    assert_eq!(a.rummage_take_loot(), Err(AdventureError::AlreadyResolved));
    assert_eq!(a.rummage_leave_loot(), Err(AdventureError::AlreadyResolved));
    assert_eq!(a, before);
}

#[test]
fn leaving_loot_lowers_greed_to_zero_at_most() {
    let mut a = started(&[Player::P2]);
    a.rummage_for_loot_with(0).unwrap();
    assert_eq!(a.rummage_leave_loot(), Ok(()));
    assert_eq!(active(&a).greed, 3);
    assert!(active(&a).loot.is_empty());
    match parts(&a).3 {
        AdventurePhase::Camp(c) => assert_eq!(
            c.rummage_result,
            Some(RummageResult::Success { loot: Loot { rarity: Rarity::Common }, did_take: Some(false) })
        ),
        _ => panic!("still at camp"),
    }

    let mut b = started(&[]);
    if let AdventureState::Started(g, _, _, _) = &mut b.state {
        let mut p1 = g.remove(Player::P1).unwrap();
        p1.greed = 0;
        g.insert(Player::P1, p1);
    }
    b.rummage_for_loot_with(1).unwrap();
    assert_eq!(b.rummage_leave_loot(), Ok(()));
    assert_eq!(active(&b).greed, 0);
}

#[test]
fn deciding_without_a_find_is_refused() {
    let mut a = started(&[]);
    assert_eq!(a.rummage_take_loot(), Err(AdventureError::NoLootOnOffer));
    assert_eq!(a.rummage_leave_loot(), Err(AdventureError::NoLootOnOffer));
    if let AdventureState::Started(_, _, _, AdventurePhase::Camp(c)) = &mut a.state {
        c.rummage_result = Some(RummageResult::Fail);
    }
    let before = a.clone();
    assert_eq!(a.rummage_take_loot(), Err(AdventureError::NoLootOnOffer));
    assert_eq!(a, before);
}

#[test]
fn camp_operations_need_camp() {
    let mut prep = Adventure::new([0u8; 32]);
    assert_eq!(prep.rummage_for_loot_with(0), Err(AdventureError::WrongPhase));
    assert_eq!(prep.rummage_take_loot(), Err(AdventureError::WrongPhase));
    assert_eq!(prep.event_start_with(CATALOG, 0, 0), Err(AdventureError::WrongPhase));
    assert_eq!(prep.take_a_break(), Err(AdventureError::WrongPhase));
    let mut a = started(&[]);
    a.event_start_with(CATALOG, 0, 0).unwrap();
    let before = a.clone();
    assert_eq!(a.rummage_for_loot_with(0), Err(AdventureError::WrongPhase));
    assert_eq!(a.rummage_leave_loot(), Err(AdventureError::WrongPhase));
    assert_eq!(a.event_start_with(CATALOG, 0, 0), Err(AdventureError::WrongPhase));
    assert_eq!(a, before);
}

#[test]
fn event_start_picks_location_and_scenario_in_bounds() {
    let mut a = started(&[]);
    assert_eq!(a.event_start_with(CATALOG, 5, 7), Ok(()));
    assert_eq!(
        *parts(&a).3,
        AdventurePhase::Event(EventPhase { location: 1, scenario: 1, outcome: None })
    );
    let mut b = started(&[]);
    assert_eq!(b.event_start(CATALOG), Ok(()));
    match parts(&b).3 {
        AdventurePhase::Event(e) => {
            assert!(e.location < CATALOG.len());
            assert!(e.scenario < CATALOG[e.location].scenarios.len());
            assert_eq!(e.outcome, None);
        },
        _ => panic!("an event began"),
    }
}

#[test]
fn scenario_single_goblin_camp_then_event() {
    let mut a = Adventure::new([1u8; 32]);
    a.start_adventure().unwrap();
    match parts(&a).3 {
        AdventurePhase::Camp(c) => assert_eq!(c.rummage_result, None),
        _ => panic!("adventure starts at camp"),
    }
    let greed = active(&a).greed;
    a.rummage_for_loot_with(3).unwrap();
    match parts(&a).3 {
        AdventurePhase::Camp(c) => assert!(matches!(
            c.rummage_result,
            Some(RummageResult::Success { loot: Loot { rarity: Rarity::Legendary }, did_take: None })
        )),
        _ => panic!("still at camp"),
    }
    a.rummage_take_loot().unwrap();
    assert_eq!(active(&a).loot.len(), 1);
    assert_eq!(active(&a).greed, greed + 1);
    match parts(&a).3 {
        AdventurePhase::Camp(c) => assert!(matches!(
            c.rummage_result,
            Some(RummageResult::Success { did_take: Some(true), .. })
        )),
        _ => panic!("taking loot keeps the goblin at camp"),
    }
    a.event_start_with(CATALOG, 1, 2).unwrap();
    match parts(&a).3 {
        AdventurePhase::Event(e) => {
            assert!(e.location < CATALOG.len());
            assert!(e.scenario < CATALOG[e.location].scenarios.len());
        },
        _ => panic!("continuing leads to an event"),
    }
}

#[test]
fn choice_adds_greed_and_records_outcome() {
    let mut a = started(&[]);
    a.event_start_with(CATALOG, 0, 0).unwrap();
    assert_eq!(a.event_make_choice_with(CATALOG, 1, 31), Ok(()));
    assert_eq!(active(&a).greed, 5);
    assert_eq!(
        *parts(&a).3,
        AdventurePhase::Event(EventPhase {
            location: 0,
            scenario: 0,
            outcome: Some(EventPhaseOutcome { choice: 1, effect: 3, accepted: false }),
        })
    );
    let before = a.clone();
    assert_eq!(a.event_make_choice_with(CATALOG, 0, 0), Err(AdventureError::AlreadyResolved));
    assert_eq!(a, before);
}

#[test]
fn choice_with_random_draw_stays_in_range() {
    let mut a = started(&[]);
    a.event_start_with(CATALOG, 0, 0).unwrap();
    assert_eq!(a.event_make_choice(CATALOG, 0), Ok(()));
    match parts(&a).3 {
        AdventurePhase::Event(EventPhase { outcome: Some(o), .. }) => {
            assert_eq!(o.choice, 0);
            assert!(o.effect < 14);
        },
        _ => panic!("a choice was recorded"),
    }
}

#[test]
fn choice_of_unknown_action_is_refused() {
    let mut a = started(&[]);
    a.event_start_with(CATALOG, 0, 0).unwrap();
    let before = a.clone();
    assert_eq!(a.event_make_choice_with(CATALOG, 2, 0), Err(AdventureError::InvalidChoiceIndex));
    assert_eq!(a, before);
}

#[test]
fn event_outside_catalog_is_refused() {
    let mut a = started(&[]);
    a.event_start_with(CATALOG, 0, 0).unwrap();
    if let AdventureState::Started(_, _, _, AdventurePhase::Event(e)) = &mut a.state {
        e.scenario = 5;
    }
    let before = a.clone();
    assert_eq!(a.event_make_choice_with(CATALOG, 0, 0), Err(AdventureError::UnknownScenario));
    assert_eq!(a, before);
}

#[test]
fn outcome_is_handled_once() {
    let mut a = chosen(&[], 11);
    assert_eq!(a.event_handle_outcome_with(CATALOG, 0), Ok(()));
    match parts(&a).3 {
        AdventurePhase::Event(EventPhase { outcome: Some(o), .. }) => assert!(o.accepted),
        _ => panic!("outcome recorded"),
    }
    let before = a.clone();
    assert_eq!(a.event_handle_outcome_with(CATALOG, 0), Err(AdventureError::AlreadyResolved));
    assert_eq!(a, before);
}

#[test]
fn handling_before_a_choice_is_refused() {
    let mut a = started(&[]);
    a.event_start_with(CATALOG, 0, 0).unwrap();
    assert_eq!(a.event_handle_outcome_with(CATALOG, 0), Err(AdventureError::NoOutcomeYet));
    let mut b = started(&[]);
    assert_eq!(b.event_handle_outcome_with(CATALOG, 0), Err(AdventureError::WrongPhase));
}

#[test]
fn handling_with_random_draw_succeeds() {
    let mut a = chosen(&[], 0);
    assert_eq!(a.event_handle_outcome(CATALOG), Ok(()));
    assert_eq!(active(&a).loot.len(), 1);
}

#[test]
fn heal_adds_one_health() {
    let mut a = chosen(&[], 4);
    a.event_handle_outcome_with(CATALOG, 0).unwrap();
    assert_eq!(active(&a).health, 3);

    let mut b = started(&[]);
    if let AdventureState::Started(g, _, _, _) = &mut b.state {
        let mut p1 = g.remove(Player::P1).unwrap();
        p1.health = 0;
        g.insert(Player::P1, p1);
    }
    b.event_start_with(CATALOG, 0, 0).unwrap();
    b.event_make_choice_with(CATALOG, 0, 4).unwrap();
    b.event_handle_outcome_with(CATALOG, 0).unwrap();
    assert_eq!(active(&b).health, 1);
}

#[test]
fn attack_takes_one_health_and_stops_at_zero() {
    let mut a = chosen(&[], 12);
    a.event_handle_outcome_with(CATALOG, 0).unwrap();
    assert_eq!(active(&a).health, 1);

    let mut b = started(&[]);
    if let AdventureState::Started(g, _, _, _) = &mut b.state {
        let mut p1 = g.remove(Player::P1).unwrap();
        p1.health = 0;
        g.insert(Player::P1, p1);
    }
    b.event_start_with(CATALOG, 0, 0).unwrap();
    b.event_make_choice_with(CATALOG, 0, 12).unwrap();
    b.event_handle_outcome_with(CATALOG, 0).unwrap();
    assert_eq!(active(&b).health, 0);
}

#[test]
fn loot_kinds_add_loot_of_drawn_tier() {
    for (effect, roll, rarity) in
        [(0u32, 0u32, Rarity::Common), (1, 6, Rarity::Uncommon), (2, 7, Rarity::Rare), (3, 9, Rarity::Epic)]
    {
        let mut a = chosen(&[], effect);
        a.event_handle_outcome_with(CATALOG, roll).unwrap();
        assert_eq!(active(&a).loot, vec![Loot { rarity }]);
    }
}

#[test]
fn luck_and_greed_effects() {
    let mut a = chosen(&[], 5);
    a.event_handle_outcome_with(CATALOG, 0).unwrap();
    assert_eq!(active(&a).luck, 1);

    let mut b = chosen(&[], 6);
    // 4 at the start, 5 after the choice, 3 after the effect.
    b.event_handle_outcome_with(CATALOG, 0).unwrap();
    assert_eq!(active(&b).greed, 3);
}

#[test]
fn losing_loot_drops_the_latest_piece() {
    for effect in [7u32, 8, 10] {
        let mut a = started(&[]);
        a.rummage_for_loot_with(1).unwrap();
        a.rummage_take_loot().unwrap();
        a.event_start_with(CATALOG, 0, 0).unwrap();
        a.event_make_choice_with(CATALOG, 0, 0).unwrap();
        a.event_handle_outcome_with(CATALOG, 4).unwrap();
        assert_eq!(active(&a).loot.len(), 2);
        a.keep_going_with(CATALOG, 0, 0).unwrap();
        a.event_make_choice_with(CATALOG, 0, effect).unwrap();
        a.event_handle_outcome_with(CATALOG, 0).unwrap();
        assert_eq!(active(&a).loot, vec![Loot { rarity: Rarity::Uncommon }]);
    }
    let mut empty = chosen(&[], 7);
    assert_eq!(empty.event_handle_outcome_with(CATALOG, 0), Ok(()));
    assert!(active(&empty).loot.is_empty());
}

#[test]
fn stolen_loot_goes_to_next_in_order() {
    let mut a = started(&[Player::P3]);
    a.rummage_for_loot_with(2).unwrap();
    a.rummage_take_loot().unwrap();
    a.event_start_with(CATALOG, 0, 0).unwrap();
    a.event_make_choice_with(CATALOG, 0, 9).unwrap();
    a.event_handle_outcome_with(CATALOG, 0).unwrap();
    assert!(goblin(&a, Player::P1).loot.is_empty());
    assert_eq!(goblin(&a, Player::P3).loot, vec![Loot { rarity: Rarity::Rare }]);
}

#[test]
fn stolen_loot_wraps_to_first() {
    let mut a = started(&[Player::P2]);
    a.event_start_with(CATALOG, 0, 0).unwrap();
    a.event_make_choice_with(CATALOG, 0, 11).unwrap();
    a.event_handle_outcome_with(CATALOG, 0).unwrap();
    a.take_a_break().unwrap();
    assert_eq!(parts(&a).2.player, Player::P2);
    a.rummage_for_loot_with(3).unwrap();
    a.rummage_take_loot().unwrap();
    a.event_start_with(CATALOG, 0, 0).unwrap();
    a.event_make_choice_with(CATALOG, 0, 9).unwrap();
    a.event_handle_outcome_with(CATALOG, 0).unwrap();
    assert!(goblin(&a, Player::P2).loot.is_empty());
    assert_eq!(goblin(&a, Player::P1).loot, vec![Loot { rarity: Rarity::Legendary }]);
}

#[test]
fn quiet_outcomes_change_nothing_but_acceptance() {
    for effect in [11u32, 13] {
        let mut a = chosen(&[], effect);
        let g = active(&a).clone();
        a.event_handle_outcome_with(CATALOG, 0).unwrap();
        assert_eq!(*active(&a), g);
    }
}

#[test]
fn keep_going_needs_acceptance_and_rounds() {
    let mut a = chosen(&[], 13);
    assert_eq!(a.keep_going_with(CATALOG, 0, 0), Err(AdventureError::NotYetAccepted));
    a.event_handle_outcome_with(CATALOG, 0).unwrap();
    assert_eq!(a.keep_going_with(CATALOG, 1, 2), Ok(()));
    let (_, _, t, ph) = parts(&a);
    assert_eq!(t.num_events, 1);
    assert_eq!(t.player, Player::P1);
    assert_eq!(*ph, AdventurePhase::Event(EventPhase { location: 1, scenario: 2, outcome: None }));

    let mut b = Adventure::new([0u8; 32]);
    while b.remove_round().is_ok() {}
    b.start_adventure().unwrap();
    b.event_start_with(CATALOG, 0, 0).unwrap();
    b.event_make_choice_with(CATALOG, 0, 13).unwrap();
    b.event_handle_outcome_with(CATALOG, 0).unwrap();
    let before = b.clone();
    assert_eq!(b.keep_going_with(CATALOG, 0, 0), Err(AdventureError::RoundsExhausted));
    assert_eq!(b, before);
    assert_eq!(b.keep_going(CATALOG), Err(AdventureError::RoundsExhausted));
}

#[test]
fn take_a_break_passes_turn_and_wraps() {
    let mut a = started(&[Player::P2, Player::P4]);
    let expected = [Player::P2, Player::P4, Player::P1];
    for p in expected {
        a.event_start_with(CATALOG, 0, 0).unwrap();
        a.event_make_choice_with(CATALOG, 0, 13).unwrap();
        assert_eq!(a.take_a_break(), Ok(()));
        let (_, _, t, ph) = parts(&a);
        assert_eq!(t.player, p);
        assert_eq!(*ph, AdventurePhase::Camp(CampPhase::new()));
    }
    let before = a.clone();
    assert_eq!(a.take_a_break(), Err(AdventureError::WrongPhase));
    assert_eq!(a, before);
}

#[test]
fn finish_once_rounds_are_spent() {
    let mut a = started(&[]);
    assert_eq!(a.finish_adventure(), Err(AdventureError::RoundsRemaining));
    let mut b = Adventure::new([0u8; 32]);
    assert_eq!(b.finish_adventure(), Err(AdventureError::WrongPhase));
    for _ in 0..9 {
        b.remove_round().unwrap();
    }
    b.start_adventure().unwrap();
    b.event_start_with(CATALOG, 0, 0).unwrap();
    b.event_make_choice_with(CATALOG, 0, 13).unwrap();
    b.event_handle_outcome_with(CATALOG, 0).unwrap();
    b.keep_going_with(CATALOG, 0, 0).unwrap();
    assert_eq!(b.finish_adventure(), Ok(()));
    assert!(matches!(b.state, AdventureState::Complete(..)));
    assert_eq!(b.finish_adventure(), Err(AdventureError::WrongPhase));
}

#[test]
fn roster_changes_before_setting_out() {
    let mut a = Adventure::new([0u8; 32]);
    assert_eq!(a.recruit_goblin(Player::P2), Ok(()));
    assert_eq!(a.recruit_goblin(Player::P2), Err(AdventureError::SeatTaken));
    assert_eq!(a.dismiss_goblin(Player::P1), Err(AdventureError::CreatorSeat));
    assert_eq!(a.dismiss_goblin(Player::P3), Err(AdventureError::SeatEmpty));
    assert_eq!(a.dismiss_goblin(Player::P2), Ok(()));
    assert_eq!(a.add_round(), Ok(()));
    match &a.state {
        AdventureState::Preparing(g, s) => {
            assert!(!g.contains_key(Player::P2));
            assert_eq!(s.num_rounds, 11);
        },
        _ => panic!("still preparing"),
    }
    a.start_adventure().unwrap();
    assert_eq!(a.recruit_goblin(Player::P3), Err(AdventureError::WrongPhase));
    assert_eq!(a.dismiss_goblin(Player::P2), Err(AdventureError::WrongPhase));
    assert_eq!(a.add_round(), Err(AdventureError::WrongPhase));
}

#[test]
fn round_budget_stays_in_range() {
    let mut a = Adventure::new([0u8; 32]);
    for _ in 0..10 {
        a.remove_round().unwrap();
    }
    assert_eq!(a.remove_round(), Err(AdventureError::RoundsOutOfRange));
    for _ in 0..255 {
        a.add_round().unwrap();
    }
    assert_eq!(a.add_round(), Err(AdventureError::RoundsOutOfRange));
}

#[test]
fn catalog_shape_is_checked() {
    assert!(catalog_is_well_formed(CATALOG));
    assert!(!catalog_is_well_formed(BAD_CATALOG));
    assert!(!catalog_is_well_formed(&[]));
}

#[test]
fn location_lookup_wraps_round() {
    assert_eq!(EventLocationData::get(CATALOG, 0).name, "Ruins");
    assert_eq!(EventLocationData::get(CATALOG, 3).name, "Woods");
}

#[test]
fn event_menu_entries() {
    let mut a = started(&[]);
    a.event_start_with(CATALOG, 0, 0).unwrap();
    let ev = |a: &Adventure| match parts(a).3 {
        AdventurePhase::Event(e) => *e,
        _ => panic!("in an event"),
    };
    assert_eq!(
        PhaseActionsSection::event_menu(&ev(&a), CATALOG),
        vec![(EventPhaseAction::TakeRisk, "> Risk it"), (EventPhaseAction::PlayItSafe, "> Play it safe")]
    );
    a.event_make_choice_with(CATALOG, 0, 12).unwrap();
    assert_eq!(
        PhaseActionsSection::event_menu(&ev(&a), CATALOG),
        vec![(EventPhaseAction::ConfirmOutcome(false), "> Next...")]
    );
    a.event_handle_outcome_with(CATALOG, 0).unwrap();
    assert_eq!(
        PhaseActionsSection::event_menu(&ev(&a), CATALOG),
        vec![(EventPhaseAction::TakeABreakStart, "> Take a Break")]
    );
    let mut b = chosen(&[], 4);
    b.event_handle_outcome_with(CATALOG, 0).unwrap();
    assert_eq!(
        PhaseActionsSection::event_menu(&ev(&b), CATALOG),
        vec![
            (EventPhaseAction::KeepGoingStart, "> Keep Going"),
            (EventPhaseAction::TakeABreakStart, "> Take a Break"),
        ]
    );
    let lost = EventPhase { location: 0, scenario: 9, outcome: None };
    assert!(PhaseActionsSection::event_menu(&lost, CATALOG).is_empty());
}

#[test]
fn handling_an_outcome_outside_catalog_is_refused() {
    let mut a = chosen(&[], 0);
    if let AdventureState::Started(_, _, _, AdventurePhase::Event(e)) = &mut a.state {
        e.outcome = Some(EventPhaseOutcome { choice: 5, effect: 0, accepted: false });
    }
    let before = a.clone();
    assert_eq!(a.event_handle_outcome_with(CATALOG, 0), Err(AdventureError::InvalidChoiceIndex));
    assert_eq!(a, before);
    if let AdventureState::Started(_, _, _, AdventurePhase::Event(e)) = &mut a.state {
        e.location = 7;
    }
    let before = a.clone();
    assert_eq!(a.event_handle_outcome_with(CATALOG, 0), Err(AdventureError::UnknownScenario));
    assert_eq!(a, before);
}

#[test]
fn saved_states_are_checked_before_use() {
    let mut a = started(&[Player::P2]);
    assert!(a.is_well_formed());
    if let AdventureState::Started(_, s, _, _) = &mut a.state {
        s.goblin_order.push(Player::P2);
    }
    assert!(!a.is_well_formed());
    let mut b = started(&[]);
    if let AdventureState::Started(_, s, _, _) = &mut b.state {
        s.goblin_order = vec![Player::P3];
    }
    assert!(!b.is_well_formed());
    let mut c = started(&[Player::P2]);
    if let AdventureState::Started(_, _, t, _) = &mut c.state {
        t.player = Player::P4;
    }
    assert!(!c.is_well_formed());
    let mut d = Adventure::new([0u8; 32]);
    assert!(d.is_well_formed());
    if let AdventureState::Preparing(g, _) = &mut d.state {
        g.remove(Player::P1);
    }
    assert!(!d.is_well_formed());
}
