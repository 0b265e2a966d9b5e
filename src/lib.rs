//! A turn-based looting adventure: a party of goblins alternates between a
//! camp and randomized exploration events, collecting loot as they go.
//!
//! The state machine lives in `adventure`: every operation either performs
//! its step, as the step functions on the model state it, or is refused with
//! a reason and changes nothing. Random draws are taken as arguments by the
//! `_with` operations; the plain operations draw from the host's random source.

pub mod adventure;
pub mod catalog;
pub mod goblin;
pub mod gui;
pub mod laws;
pub mod outcome;
mod random;
pub mod resolver;
pub mod state;
pub mod text;
pub mod turn_order;

pub use adventure::{
    decide_step, dismiss_step, event_in_catalog, event_start_step, finish_step, follows,
    handle_outcome_step, keep_going_step, make_choice_step, new_event, recruit_step,
    recruit_view, rounds_step, rummage_step, start_step, take_a_break_step,
};
pub use catalog::{
    action_wf, catalog_is_well_formed, catalog_wf, location_wf, outcomes_of, scenario_wf,
    EventLocationData, EventScenario, EventScenarioAction, EventScenarioOutcome,
    ACTIONS_PER_SCENARIO, OUTCOMES_PER_ACTION,
};
pub use goblin::{
    all_players, bump, bump_u8, drop_by, drop_u8, fresh_goblin, rarity_at, Goblin, GoblinMap,
    GoblinView, HeroKind, ItemKind, Loot, Player, Rarity, RARITY_COUNT,
};
pub use gui::{
    camp_menu_spec, event_menu_spec, loot_worth, rarity_value, DIALOG_LINE_LEN, CampActionMenu, CampPhaseAction, Command, EventPhaseAction, GoblinDialog, GoblinDialogEvent,
    GoblinList, GoblinListEvent, GoblinLootInspector, GoblinLootInspectorEvent,
    PhaseActionSectionEvent, PhaseActionsSection, GUI,
};
pub use outcome::EventResult;
pub use text::{insert_line_breaks, is_space, is_space_char, place_word, scan, wrapped, Layout};
pub use resolver::{apply_outcome, effect_of, next_player, position, select_outcome};
pub use state::{
    fresh_camp, next_in_order, occupied_order, order_wf, position_of, rank, seeded, state_wf,
    AccountKey, Adventure, AdventureError, AdventurePhase, AdventureState, AdventureStateView,
    AdventureView, BribeResult, CampPhase, EventPhase, EventPhaseOutcome, RummageResult, Settings,
    SettingsView, Turn, STARTING_GREED,
};
