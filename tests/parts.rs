use loot_goblin::{
    apply_outcome, bump_u8, drop_u8, insert_line_breaks, next_player, position, select_outcome,
    GoblinMap, Settings, CampActionMenu, CampPhase, CampPhaseAction, Command,
    EventResult, Goblin, GoblinDialog, GoblinDialogEvent, GoblinList, GoblinListEvent,
    GoblinLootInspector, Loot, PhaseActionsSection, Player, Rarity, RummageResult, GUI,
};
use std::collections::VecDeque;

fn gui() -> GUI {
    GUI {
        commands: VecDeque::new(),
        phase_actions_section: PhaseActionsSection { camp: CampActionMenu::Default },
        goblin_list: GoblinList {},
        loot_inspector: None,
        goblin_dialog: None,
    }
}

#[test]
fn rarity_follows_draw_modulo_five() {
    assert_eq!(Rarity::from_roll(0), Rarity::Common);
    assert_eq!(Rarity::from_roll(1), Rarity::Uncommon);
    assert_eq!(Rarity::from_roll(2), Rarity::Rare);
    assert_eq!(Rarity::from_roll(3), Rarity::Legendary);
    assert_eq!(Rarity::from_roll(4), Rarity::Epic);
    assert_eq!(Rarity::from_roll(12), Rarity::Rare);
    assert_eq!(Rarity::from_roll(u32::MAX), Rarity::Common);
}

#[test]
fn outcome_selection_is_draw_modulo_count() {
    assert_eq!(select_outcome(14, 0), 0);
    assert_eq!(select_outcome(14, 15), 1);
    assert_eq!(select_outcome(14, 27), 13);
    assert_eq!(select_outcome(1, 99), 0);
}

#[test]
fn seat_indices() {
    assert_eq!(Player::P1.index(), 0);
    assert_eq!(Player::P2.index(), 1);
    assert_eq!(Player::P3.index(), 2);
    assert_eq!(Player::P4.index(), 3);
}

#[test]
fn recruit_is_fresh() {
    let g = Goblin::new();
    assert_eq!((g.health, g.luck, g.greed), (2, 0, 0));
    assert!(g.items.is_empty());
    assert!(g.loot.is_empty());
}

#[test]
fn outcome_texts() {
    assert_eq!(EventResult::GetLoot.desc(), "Found some valuable loot.");
    assert_eq!(EventResult::GetAttacked.desc(), "You are ambushed by a hidden foe!");
    assert_eq!(EventResult::OK.desc(), "Nothing eventful occurs.");
    assert_eq!(EventResult::Heal.goblin_dialog(), "Ouchies all gone! Tough as a dragon's hind am I!");
    assert_eq!(EventResult::SlapFight.goblin_dialog(), "Slappin' time! Best part of the day, this is!");
}

#[test]
fn good_and_bad_outcomes() {
    let good = [
        EventResult::GetLoot,
        EventResult::GetItem,
        EventResult::StealLoot,
        EventResult::StealItem,
        EventResult::Heal,
        EventResult::BoostLuck,
        EventResult::ReduceGreed,
        EventResult::OK,
    ];
    let bad = [
        EventResult::LoseLoot,
        EventResult::LoseItem,
        EventResult::LootGotStolen,
        EventResult::ItemGotStolen,
        EventResult::SlapFight,
        EventResult::GetAttacked,
    ];
    assert!(good.iter().all(|r| r.is_good()));
    assert!(bad.iter().all(|r| !r.is_good()));
}

#[test]
fn dispatch_puts_newest_first() {
    let mut g = gui();
    let a = Command::GoblinDialog(GoblinDialogEvent::Close);
    let b = Command::GoblinList(GoblinListEvent::OpenGoblinDialog(Player::P2));
    g.dispatch(a);
    g.dispatch(b);
    assert_eq!(g.commands, VecDeque::from(vec![b, a]));
}

#[test]
fn overlays_open_and_close() {
    let mut g = gui();
    assert!(!g.is_overlay_open());
    g.open_goblin_loot_inspector(Player::P3);
    assert_eq!(g.loot_inspector, Some(GoblinLootInspector { player: Player::P3, selected: None }));
    assert!(g.is_overlay_open());
    g.close_goblin_loot_inspector();
    assert_eq!(g.loot_inspector, None);
    assert!(!g.is_overlay_open());
}

#[test]
fn dialog_fast_forward_and_close() {
    let mut g = gui();
    assert_eq!(g.close_goblin_dialog(), None);
    let on_close = Command::GoblinDialog(GoblinDialogEvent::Next);
    g.goblin_dialog = Some(GoblinDialog {
        player: Player::P1,
        message: String::from("Shinies!"),
        max_len: 0,
        on_close: Some(on_close),
    });
    assert!(g.is_overlay_open());
    g.fast_forward_goblin_dialog();
    assert_eq!(g.goblin_dialog.as_ref().unwrap().max_len, 8);
    assert_eq!(g.close_goblin_dialog(), Some(on_close));
    assert!(g.goblin_dialog.is_none());
}

#[test]
fn line_breaks_follow_words() {
    assert_eq!(insert_line_breaks("hello world", 5), "hello\nworld");
    assert_eq!(insert_line_breaks("a b c", 3), "a b\nc");
    assert_eq!(insert_line_breaks("  spaced \t  out \n ", 80), "spaced out");
    assert_eq!(insert_line_breaks("toolongword", 3), "\ntoolongword");
    assert_eq!(insert_line_breaks("", 3), "");
    // The separating space is not counted when deciding whether a word fits.
    assert_eq!(
        insert_line_breaks("Ooh, shiny! This'll fetch a nice price.", 12),
        "Ooh, shiny!\nThis'll fetch\na nice price."
    );
}

#[test]
fn dialog_opens_with_wrapped_message() {
    let mut g = gui();
    let on_close = Some(Command::GoblinDialog(GoblinDialogEvent::Close));
    g.open_goblin_dialog(Player::P4, "Wot the 'eck! Who's pokin' me bum? Oi!", on_close);
    let d = g.goblin_dialog.as_ref().unwrap();
    assert_eq!(d.player, Player::P4);
    assert_eq!(d.message, "Wot the 'eck! Who's pokin' me bum?\nOi!");
    assert_eq!(d.max_len, 0);
    assert_eq!(d.on_close, on_close);
}

#[test]
fn loot_worth_adds_tier_values() {
    let bag = vec![
        Loot { rarity: Rarity::Common },
        Loot { rarity: Rarity::Epic },
        Loot { rarity: Rarity::Rare },
    ];
    assert_eq!(GoblinList::total_loot_value(&bag), 9);
    assert_eq!(GoblinList::total_loot_value(&vec![]), 0);
}

#[test]
fn camp_menu_entries() {
    let default = PhaseActionsSection { camp: CampActionMenu::Default };
    let fresh = CampPhase::new();
    assert_eq!(
        default.camp_menu(&fresh),
        vec![
            (CampPhaseAction::RummageStart, "> Rummage party loot"),
            (CampPhaseAction::Bribe, "> Bribe a hero"),
            (CampPhaseAction::ContinueStart, "> Continue journey"),
        ]
    );
    let found = CampPhase {
        rummage_result: Some(RummageResult::Success { loot: Loot { rarity: Rarity::Rare }, did_take: None }),
        bribe_result: None,
    };
    assert_eq!(
        default.camp_menu(&found),
        vec![(CampPhaseAction::Bribe, "> Bribe a hero"), (CampPhaseAction::ContinueStart, "> Continue journey")]
    );
    let result = PhaseActionsSection { camp: CampActionMenu::RummageResult };
    assert_eq!(
        result.camp_menu(&found),
        vec![
            (CampPhaseAction::RummageConfirmSuccess(true), "> Take loot"),
            (CampPhaseAction::RummageConfirmSuccess(false), "> Leave it be"),
        ]
    );
    let failed = CampPhase { rummage_result: Some(RummageResult::Fail), bribe_result: None };
    assert_eq!(result.camp_menu(&failed), vec![(CampPhaseAction::RummageConfirmFailure, "> Make an excuse")]);
    assert!(result.camp_menu(&fresh).is_empty());
}

#[test]
fn goblin_order_covers_seated_goblins() {
    let mut goblins = GoblinMap::new();
    goblins.insert(Player::P4, Goblin::new());
    goblins.insert(Player::P3, Goblin::new());
    let mut settings = Settings::new();
    settings.update_goblin_order(&mut goblins);
    assert_eq!(settings.goblin_order, vec![Player::P1, Player::P3, Player::P4]);
    assert_eq!(goblins.get(Player::P1).unwrap().greed, 4);
    assert_eq!(goblins.get(Player::P3).unwrap().greed, 3);
    assert_eq!(goblins.get(Player::P4).unwrap().greed, 2);
    assert!(goblins.get(Player::P2).is_none());
    assert_eq!(settings.num_rounds, 10);
}

#[test]
fn seats_hold_what_was_put_there() {
    let mut goblins = GoblinMap::new();
    let mut g = Goblin::new();
    g.luck = 3;
    assert!(goblins.insert(Player::P2, g).is_none());
    assert_eq!(goblins.get(Player::P2).unwrap().luck, 3);
    let out = goblins.remove(Player::P2).unwrap();
    assert_eq!(out.luck, 3);
    assert!(!goblins.contains_key(Player::P2));
    assert!(goblins.remove(Player::P2).is_none());
}

#[test]
fn turn_order_neighbours() {
    let order = vec![Player::P1, Player::P3, Player::P4];
    assert_eq!(position(&order, Player::P3), 1);
    assert_eq!(next_player(&order, Player::P1), Player::P3);
    assert_eq!(next_player(&order, Player::P4), Player::P1);
    assert_eq!(next_player(&vec![Player::P2], Player::P2), Player::P2);
}

#[test]
fn outcomes_applied_directly() {
    let mut goblins = GoblinMap::new();
    goblins.insert(Player::P2, Goblin::new());
    let order = vec![Player::P1, Player::P2];
    apply_outcome(&mut goblins, &order, Player::P2, EventResult::StealItem, 3);
    assert_eq!(goblins.get(Player::P2).unwrap().loot, vec![Loot { rarity: Rarity::Legendary }]);
    apply_outcome(&mut goblins, &order, Player::P2, EventResult::LootGotStolen, 0);
    assert!(goblins.get(Player::P2).unwrap().loot.is_empty());
    assert_eq!(goblins.get(Player::P1).unwrap().loot, vec![Loot { rarity: Rarity::Legendary }]);
    apply_outcome(&mut goblins, &order, Player::P2, EventResult::LootGotStolen, 0);
    assert_eq!(goblins.get(Player::P1).unwrap().loot.len(), 1);
    apply_outcome(&mut goblins, &order, Player::P2, EventResult::BoostLuck, 0);
    apply_outcome(&mut goblins, &order, Player::P2, EventResult::GetAttacked, 0);
    let g = goblins.get(Player::P2).unwrap();
    assert_eq!((g.health, g.luck, g.greed), (1, 1, 0));
}

#[test]
fn attributes_stop_at_their_bounds() {
    assert_eq!(bump_u8(7), 8);
    assert_eq!(bump_u8(255), 255);
    assert_eq!(drop_u8(1, 2), 0);
    assert_eq!(drop_u8(5, 2), 3);
}
