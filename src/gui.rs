use std::collections::VecDeque;

use vstd::prelude::*;
use vstd::utf8::encode_utf8;

use crate::catalog::{catalog_wf, EventLocationData};
use crate::goblin::{Loot, Player, Rarity};
use crate::state::{CampPhase, EventPhase, RummageResult};
use crate::text::{insert_line_breaks, wrapped};

verus! {

#[derive(Copy, Clone, Debug, PartialEq, Eq, Structural)]
pub enum GoblinListEvent {
    OpenGoblinDialog(Player),
    OpenGoblinLootInspector(Player),
}

#[derive(Copy, Clone, Debug, PartialEq, Eq, Structural)]
pub enum GoblinDialogEvent {
    Close,
    FastForward,
    Next,
}

#[derive(Copy, Clone, Debug, PartialEq, Eq, Structural)]
pub enum GoblinLootInspectorEvent {
    Close,
    SelectLoot(usize),
}

#[derive(Copy, Clone, Debug, PartialEq, Eq, Structural)]
pub enum CampPhaseAction {
    RummageStart,
    RummageEnd,
    RummageConfirmFailure,
    RummageConfirmSuccess(bool),
    Bribe,
    ContinueStart,
    ContinueEnd,
    BackToDefaultMenu,
}

#[derive(Copy, Clone, Debug, PartialEq, Eq, Structural)]
pub enum EventPhaseAction {
    TakeRisk,
    TakeRiskEnd,
    PlayItSafe,
    PlayItSafeEnd,
    ConfirmOutcome(bool),
    KeepGoingStart,
    KeepGoingEnd,
    TakeABreakStart,
    TakeABreakEnd,
}

#[derive(Copy, Clone, Debug, PartialEq, Eq, Structural)]
pub enum PhaseActionSectionEvent {
    Camp(CampPhaseAction),
    Event(EventPhaseAction),
}

/// A request raised by a part of the interface, handled on the next pass.
#[derive(Copy, Clone, Debug, PartialEq, Eq, Structural)]
pub enum Command {
    GoblinList(GoblinListEvent),
    GoblinDialog(GoblinDialogEvent),
    GoblinLootInspector(GoblinLootInspectorEvent),
    PhaseActionSection(PhaseActionSectionEvent),
}

#[derive(Copy, Clone, Debug, PartialEq, Eq, Structural)]
pub enum CampActionMenu {
    Default,
    RummageResult,
    BribeResult,
}

#[derive(Copy, Clone, Debug, PartialEq, Eq, Structural)]
pub struct PhaseActionsSection {
    pub camp: CampActionMenu,
}

#[derive(Copy, Clone, Debug, PartialEq, Eq, Structural)]
pub struct GoblinList {}

#[derive(Copy, Clone, Debug, PartialEq, Eq, Structural)]
pub struct GoblinLootInspector {
    pub player: Player,
    pub selected: Option<usize>,
}

/// A goblin's speech bubble, written out one character more on each frame
/// until `max_len` covers the whole message.
#[derive(Clone, Debug, PartialEq, Eq)]
pub struct GoblinDialog {
    pub player: Player,
    pub message: String,
    pub max_len: usize,
    pub on_close: Option<Command>,
}

/// The interface's state: pending commands, newest first, and the overlays
/// that are open.
#[derive(Clone, Debug)]
pub struct GUI {
    pub commands: VecDeque<Command>,
    pub phase_actions_section: PhaseActionsSection,
    pub goblin_list: GoblinList,
    pub loot_inspector: Option<GoblinLootInspector>,
    pub goblin_dialog: Option<GoblinDialog>,
}

/// The widest line of a goblin's speech bubble, in characters.
pub const DIALOG_LINE_LEN: usize = 36;

impl GUI {
    /// Opens a speech bubble for `player`, its message laid out in lines that
    /// fit the bubble and not yet shown; `on_close` runs when it is closed.
    pub fn open_goblin_dialog(&mut self, player: Player, message: &str, on_close: Option<Command>)
        requires
            message@.len() <= usize::MAX / 4,
        ensures
            final(self).goblin_dialog matches Some(d) && d.player == player && d.message@
                == wrapped(message@, DIALOG_LINE_LEN as nat) && d.max_len == 0 && d.on_close
                == on_close,
            final(self).commands@ == old(self).commands@,
            final(self).loot_inspector == old(self).loot_inspector,
    {
        let message = insert_line_breaks(message, DIALOG_LINE_LEN);
        self.goblin_dialog = Some(GoblinDialog { player, message, max_len: 0, on_close });
    }

    /// Queues `cmd` ahead of the commands already waiting.
    pub fn dispatch(&mut self, cmd: Command)
        ensures
            final(self).commands@ == seq![cmd] + old(self).commands@,
            final(self).phase_actions_section == old(self).phase_actions_section,
            final(self).loot_inspector == old(self).loot_inspector,
            final(self).goblin_dialog == old(self).goblin_dialog,
    {
        self.commands.push_front(cmd);
    }

    /// Whether a dialog or the loot inspector covers the screen.
    pub fn is_overlay_open(&self) -> (r: bool)
        ensures
            r == (self.goblin_dialog is Some || self.loot_inspector is Some),
    {
        self.goblin_dialog.is_some() || self.loot_inspector.is_some()
    }

    /// Shows the whole message of the open dialog at once: the shown length
    /// becomes the message's length in bytes.
    pub fn fast_forward_goblin_dialog(&mut self)
        ensures
            final(self).commands@ == old(self).commands@,
            final(self).loot_inspector == old(self).loot_inspector,
            old(self).goblin_dialog is None ==> final(self).goblin_dialog == old(self).goblin_dialog,
            old(self).goblin_dialog matches Some(d) ==> final(self).goblin_dialog matches Some(e)
                && e.player == d.player && e.message == d.message && e.on_close == d.on_close
                && e.max_len == encode_utf8(d.message@).len() as usize,
    {
        match &mut self.goblin_dialog {
            Some(dialog) => {
                dialog.max_len = dialog.message.as_str().len();
            },
            None => {},
        }
    }

    /// Closes the open dialog, handing back the command to run on closing.
    pub fn close_goblin_dialog(&mut self) -> (r: Option<Command>)
        ensures
            final(self).goblin_dialog is None,
            r == (match old(self).goblin_dialog {
                Some(d) => d.on_close,
                None => None,
            }),
            final(self).commands@ == old(self).commands@,
            final(self).loot_inspector == old(self).loot_inspector,
    {
        match self.goblin_dialog.take() {
            Some(dialog) => dialog.on_close,
            None => None,
        }
    }

    /// Opens the loot bag of `player`, with nothing selected.
    pub fn open_goblin_loot_inspector(&mut self, player: Player)
        ensures
            final(self).loot_inspector == Some(GoblinLootInspector { player, selected: None }),
            final(self).commands@ == old(self).commands@,
            final(self).goblin_dialog == old(self).goblin_dialog,
    {
        self.loot_inspector = Some(GoblinLootInspector { player, selected: None });
    }

    /// Closes the loot bag.
    pub fn close_goblin_loot_inspector(&mut self)
        ensures
            final(self).loot_inspector is None,
            final(self).commands@ == old(self).commands@,
            final(self).goblin_dialog == old(self).goblin_dialog,
    {
        self.loot_inspector = None;
    }
}

/// What a piece of loot is worth: one for common, up to five for epic.
pub open spec fn rarity_value(r: Rarity) -> nat {
    match r {
        Rarity::Common => 1,
        Rarity::Uncommon => 2,
        Rarity::Rare => 3,
        Rarity::Legendary => 4,
        Rarity::Epic => 5,
    }
}

/// What a bag of loot is worth.
pub open spec fn loot_worth(loot: Seq<Loot>) -> nat
    decreases loot.len(),
{
    if loot.len() == 0 {
        0
    } else {
        loot_worth(loot.drop_last()) + rarity_value(loot.last().rarity)
    }
}

impl GoblinList {
    /// The worth of a goblin's loot, as the goblin list shows it.
    pub fn total_loot_value(loot: &Vec<Loot>) -> (r: usize)
        requires
            loot@.len() <= usize::MAX / 5,
        ensures
            r == loot_worth(loot@),
    {
        let mut total: usize = 0;
        let mut i: usize = 0;
        while i < loot.len()
            invariant
                i <= loot@.len(),
                loot@.len() <= usize::MAX / 5,
                total == loot_worth(loot@.take(i as int)),
                total <= 5 * i,
            decreases loot@.len() - i,
        {
            assert(loot@.take(i + 1).drop_last() =~= loot@.take(i as int));
            let v: usize = match loot[i].rarity {
                Rarity::Common => 1,
                Rarity::Uncommon => 2,
                Rarity::Rare => 3,
                Rarity::Legendary => 4,
                Rarity::Epic => 5,
            };
            total = total + v;
            i = i + 1;
        }
        assert(loot@.take(loot@.len() as int) =~= loot@);
        total
    }
}

/// The camp menu's entries for the given menu and camp.
pub open spec fn camp_menu_spec(menu: CampActionMenu, phase: CampPhase) -> Seq<
    (CampPhaseAction, &'static str),
> {
    match menu {
        CampActionMenu::Default => {
            let rummage = if phase.rummage_result is None {
                seq![(CampPhaseAction::RummageStart, "> Rummage party loot")]
            } else {
                Seq::empty()
            };
            let bribe = if phase.bribe_result is None {
                seq![(CampPhaseAction::Bribe, "> Bribe a hero")]
            } else {
                Seq::empty()
            };
            rummage + bribe + seq![(CampPhaseAction::ContinueStart, "> Continue journey")]
        },
        CampActionMenu::RummageResult => match phase.rummage_result {
            Some(RummageResult::Fail) => seq![
                (CampPhaseAction::RummageConfirmFailure, "> Make an excuse"),
            ],
            Some(RummageResult::Success { .. }) => seq![
                (CampPhaseAction::RummageConfirmSuccess(true), "> Take loot"),
                (CampPhaseAction::RummageConfirmSuccess(false), "> Leave it be"),
            ],
            None => Seq::empty(),
        },
        CampActionMenu::BribeResult => Seq::empty(),
    }
}

/// The event menu's entries: the scenario's two actions before a choice,
/// moving on once its outcome is read, and pressing on (after a good
/// outcome) or resting once it is accepted.
pub open spec fn event_menu_spec(
    phase: EventPhase,
    cat: Seq<EventLocationData>,
) -> Seq<(EventPhaseAction, &'static str)> {
    let actions = cat[phase.location as int].scenarios@[phase.scenario as int].actions@;
    match phase.outcome {
        None => seq![
            (EventPhaseAction::TakeRisk, actions[0].label),
            (EventPhaseAction::PlayItSafe, actions[1].label),
        ],
        Some(o) => {
            if !o.accepted {
                seq![(EventPhaseAction::ConfirmOutcome(false), "> Next...")]
            } else {
                let outs = actions[o.choice as int].outcomes@;
                let good = outs[(o.effect as nat % outs.len()) as int].effect.spec_is_good();
                let keep = if good {
                    seq![(EventPhaseAction::KeepGoingStart, "> Keep Going")]
                } else {
                    Seq::empty()
                };
                keep + seq![(EventPhaseAction::TakeABreakStart, "> Take a Break")]
            }
        },
    }
}

impl PhaseActionsSection {
    /// The entries that the camp menu offers, in order.
    pub fn camp_menu(&self, phase: &CampPhase) -> (r: Vec<(CampPhaseAction, &'static str)>)
        ensures
            r@ == camp_menu_spec(self.camp, *phase),
    {
        let mut r: Vec<(CampPhaseAction, &'static str)> = Vec::new();
        match self.camp {
            CampActionMenu::Default => {
                if phase.rummage_result.is_none() {
                    r.push((CampPhaseAction::RummageStart, "> Rummage party loot"));
                }
                if phase.bribe_result.is_none() {
                    r.push((CampPhaseAction::Bribe, "> Bribe a hero"));
                }
                r.push((CampPhaseAction::ContinueStart, "> Continue journey"));
            },
            CampActionMenu::RummageResult => match phase.rummage_result {
                Some(RummageResult::Fail) => {
                    r.push((CampPhaseAction::RummageConfirmFailure, "> Make an excuse"));
                },
                Some(RummageResult::Success { .. }) => {
                    r.push((CampPhaseAction::RummageConfirmSuccess(true), "> Take loot"));
                    r.push((CampPhaseAction::RummageConfirmSuccess(false), "> Leave it be"));
                },
                None => {},
            },
            CampActionMenu::BribeResult => {},
        }
        assert(r@ =~= camp_menu_spec(self.camp, *phase));
        r
    }

    /// The entries that the event menu offers, in order; none when the event
    /// or its choice is not in the catalog.
    pub fn event_menu(phase: &EventPhase, catalog: &[EventLocationData]) -> (r: Vec<
        (EventPhaseAction, &'static str),
    >)
        requires
            catalog_wf(catalog@),
        ensures
            phase.location < catalog@.len() && phase.scenario
                < catalog@[phase.location as int].scenarios@.len() && (phase.outcome matches Some(
                o,
            ) ==> o.choice < 2) ==> r@ == event_menu_spec(*phase, catalog@),
            !(phase.location < catalog@.len() && phase.scenario
                < catalog@[phase.location as int].scenarios@.len() && (phase.outcome matches Some(
                o,
            ) ==> o.choice < 2)) ==> r@.len() == 0,
    {
        let mut r: Vec<(EventPhaseAction, &'static str)> = Vec::new();
        if phase.location >= catalog.len() || phase.scenario
            >= catalog[phase.location].scenarios.len() {
            return r;
        }
        proof {
            assert(crate::catalog::location_wf(catalog@[phase.location as int]));
            assert(crate::catalog::scenario_wf(
                catalog@[phase.location as int].scenarios@[phase.scenario as int],
            ));
        }
        let actions = catalog[phase.location].scenarios[phase.scenario].actions;
        match phase.outcome {
            None => {
                r.push((EventPhaseAction::TakeRisk, actions[0].label));
                r.push((EventPhaseAction::PlayItSafe, actions[1].label));
            },
            Some(o) => {
                if o.choice >= actions.len() {
                    return r;
                }
                if !o.accepted {
                    r.push((EventPhaseAction::ConfirmOutcome(false), "> Next..."));
                } else {
                    proof {
                        assert(crate::catalog::action_wf(actions@[o.choice as int]));
                    }
                    let outs = actions[o.choice].outcomes;
                    if outs[o.effect % outs.len()].effect.is_good() {
                        r.push((EventPhaseAction::KeepGoingStart, "> Keep Going"));
                    }
                    r.push((EventPhaseAction::TakeABreakStart, "> Take a Break"));
                }
            },
        }
        assert(r@ =~= event_menu_spec(*phase, catalog@));
        r
    }
}

} // verus!
