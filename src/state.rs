use vstd::prelude::*;

use crate::goblin::{all_players, GoblinMap, GoblinView, HeroKind, ItemKind, Loot, Player};

verus! {

/// The identity of an account: its 32 key bytes.
pub type AccountKey = [u8; 32];

/// Why an operation was refused. A refused operation changes nothing.
#[derive(Copy, Clone, Debug, PartialEq, Eq, Structural)]
pub enum AdventureError {
    /// The adventure, or its current phase, does not offer the operation.
    WrongPhase,
    /// The result that the operation would set is set already.
    AlreadyResolved,
    /// There is no found loot waiting to be taken or left.
    NoLootOnOffer,
    /// No choice has been made in the current event.
    NoOutcomeYet,
    /// The outcome of the current event has not been accepted yet.
    NotYetAccepted,
    /// The chosen action is not one that the scenario offers.
    InvalidChoiceIndex,
    /// The event points at a location or scenario that the catalog lacks.
    UnknownScenario,
    /// As many events have been seen as the adventure has rounds.
    RoundsExhausted,
    /// The adventure still has rounds to play.
    RoundsRemaining,
    /// The seat already holds a goblin.
    SeatTaken,
    /// The seat holds no goblin.
    SeatEmpty,
    /// The creator's own seat cannot be given up.
    CreatorSeat,
    /// The round budget would leave the range of its type.
    RoundsOutOfRange,
}

/// The greed of the goblin who acts first; each later one starts with one less.
pub const STARTING_GREED: u8 = 4;

#[derive(Clone, Debug, PartialEq, Eq)]
pub struct Settings {
    pub num_rounds: u8,
    /// The turn order: position `k` holds the participant who acts `k`-th.
    pub goblin_order: Vec<Player>,
    pub goblin_owners: Vec<(AccountKey, Player)>,
    pub heroes: Vec<(HeroKind, usize)>,
}

pub struct SettingsView {
    pub num_rounds: u8,
    pub goblin_order: Seq<Player>,
    pub goblin_owners: Seq<(AccountKey, Player)>,
    pub heroes: Seq<(HeroKind, usize)>,
}

impl View for Settings {
    type V = SettingsView;

    open spec fn view(&self) -> SettingsView {
        SettingsView {
            num_rounds: self.num_rounds,
            goblin_order: self.goblin_order@,
            goblin_owners: self.goblin_owners@,
            heroes: self.heroes@,
        }
    }
}

#[derive(Copy, Clone, Debug, PartialEq, Eq, Structural)]
pub struct Turn {
    pub nonce: u8,
    pub num_events: u8,
    pub player: Player,
}

#[derive(Copy, Clone, Debug, PartialEq, Eq, Structural)]
pub enum AdventurePhase {
    Camp(CampPhase),
    Event(EventPhase),
}

#[derive(Copy, Clone, Debug, PartialEq, Eq, Structural)]
pub struct EventPhase {
    pub location: usize,
    pub scenario: usize,
    pub outcome: Option<EventPhaseOutcome>,
}

#[derive(Copy, Clone, Debug, PartialEq, Eq, Structural)]
pub struct EventPhaseOutcome {
    pub choice: usize,
    pub effect: usize,
    pub accepted: bool,
}

#[derive(Copy, Clone, Debug, PartialEq, Eq, Structural)]
pub struct CampPhase {
    pub rummage_result: Option<RummageResult>,
    pub bribe_result: Option<BribeResult>,
}

/// What rummaging through the party's loot turned up. `did_take` stays `None`
/// until the goblin decides whether to pocket the find. Rummaging as written
/// always succeeds; `Fail` is kept for states made elsewhere.
#[derive(Copy, Clone, Debug, PartialEq, Eq, Structural)]
pub enum RummageResult {
    Fail,
    Success { loot: Loot, did_take: Option<bool> },
}

#[derive(Copy, Clone, Debug, PartialEq, Eq, Structural)]
pub struct BribeResult {
    pub hero: HeroKind,
    pub got: ItemKind,
    pub confirmed: bool,
}

#[derive(Clone, Debug, PartialEq, Eq)]
pub enum AdventureState {
    Preparing(GoblinMap, Settings),
    Started(GoblinMap, Settings, Turn, AdventurePhase),
    Complete(GoblinMap, Settings),
}

pub enum AdventureStateView {
    Preparing(Map<Player, GoblinView>, SettingsView),
    Started(Map<Player, GoblinView>, SettingsView, Turn, AdventurePhase),
    Complete(Map<Player, GoblinView>, SettingsView),
}

impl View for AdventureState {
    type V = AdventureStateView;

    open spec fn view(&self) -> AdventureStateView {
        match self {
            AdventureState::Preparing(g, s) => AdventureStateView::Preparing(g@, s@),
            AdventureState::Started(g, s, t, ph) => AdventureStateView::Started(g@, s@, *t, *ph),
            AdventureState::Complete(g, s) => AdventureStateView::Complete(g@, s@),
        }
    }
}

/// One play session: who created it, where it is saved, and how far it got.
#[derive(Clone, Debug, PartialEq, Eq)]
pub struct Adventure {
    pub creator: AccountKey,
    pub save_slot: u8,
    pub state: AdventureState,
}

pub struct AdventureView {
    pub creator: AccountKey,
    pub save_slot: u8,
    pub state: AdventureStateView,
}

impl View for Adventure {
    type V = AdventureView;

    open spec fn view(&self) -> AdventureView {
        AdventureView { creator: self.creator, save_slot: self.save_slot, state: self.state@ }
    }
}

// ---------------------------------------------------------------------------
// Turn order
// ---------------------------------------------------------------------------

/// `[p]` when seat `p` is occupied, else nothing.
pub open spec fn seat_entry(g: Map<Player, GoblinView>, p: Player) -> Seq<Player> {
    if g.contains_key(p) {
        seq![p]
    } else {
        Seq::empty()
    }
}

/// The occupied seats in their canonical order: the turn order of a party.
pub open spec fn occupied_order(g: Map<Player, GoblinView>) -> Seq<Player> {
    seat_entry(g, Player::P1) + seat_entry(g, Player::P2) + seat_entry(g, Player::P3)
        + seat_entry(g, Player::P4)
}

pub open spec fn occupied(g: Map<Player, GoblinView>, p: Player) -> nat {
    if g.contains_key(p) {
        1
    } else {
        0
    }
}

/// How many occupied seats come before seat `p`: its ordinal in the turn order.
pub open spec fn rank(g: Map<Player, GoblinView>, p: Player) -> nat {
    match p {
        Player::P1 => 0,
        Player::P2 => occupied(g, Player::P1),
        Player::P3 => occupied(g, Player::P1) + occupied(g, Player::P2),
        Player::P4 => occupied(g, Player::P1) + occupied(g, Player::P2) + occupied(g, Player::P3),
    }
}

/// The party as it sets out: each goblin's greed is four less its ordinal.
pub open spec fn seeded(g: Map<Player, GoblinView>) -> Map<Player, GoblinView> {
    Map::new(
        |p: Player| g.contains_key(p),
        |p: Player| GoblinView { greed: (STARTING_GREED - rank(g, p)) as u8, ..g[p] },
    )
}

/// A turn order fit for play: non-empty, without repeats, and naming
/// only seated goblins.
pub open spec fn order_wf(order: Seq<Player>, g: Map<Player, GoblinView>) -> bool {
    &&& order.len() > 0
    &&& order.no_duplicates()
    &&& forall|k: int| 0 <= k < order.len() ==> g.contains_key(#[trigger] order[k])
}

/// Where `p` stands in `order`.
pub open spec fn position_of(order: Seq<Player>, p: Player) -> int {
    choose|k: int| 0 <= k < order.len() && order[k] == p
}

/// Who acts after `p`: the next entry of the order, the first after the last.
pub open spec fn next_in_order(order: Seq<Player>, p: Player) -> Player {
    order[(position_of(order, p) + 1) % (order.len() as int)]
}

pub open spec fn state_wf(st: AdventureStateView) -> bool {
    match st {
        AdventureStateView::Preparing(g, _) => g.contains_key(Player::P1),
        AdventureStateView::Started(g, s, t, _) => {
            &&& order_wf(s.goblin_order, g)
            &&& s.goblin_order.contains(t.player)
        },
        AdventureStateView::Complete(_, _) => true,
    }
}

pub open spec fn fresh_camp() -> CampPhase {
    CampPhase { rummage_result: None, bribe_result: None }
}

/// The goblin whose turn it is sits at the table.
pub proof fn lemma_active_seated(st: AdventureStateView)
    requires
        state_wf(st),
        st is Started,
    ensures
        st->Started_0.contains_key(st->Started_2.player),
{
    let g = st->Started_0;
    let order = st->Started_1.goblin_order;
    let p = st->Started_2.player;
    let k = choose|k: int| 0 <= k < order.len() && order[k] == p;
    assert(g.contains_key(order[k]));
}

fn seat(i: usize) -> (p: Player)
    requires
        i < 4,
    ensures
        p == all_players()[i as int],
        p.spec_index() == i,
{
    if i == 0 {
        Player::P1
    } else if i == 1 {
        Player::P2
    } else if i == 2 {
        Player::P3
    } else {
        Player::P4
    }
}

impl Settings {
    /// Ten rounds, the creator alone in the turn order, no owners, and no
    /// hero met yet.
    pub fn new() -> (r: Settings)
        ensures
            r.num_rounds == 10,
            r@.goblin_order == seq![Player::P1],
            r@.goblin_owners.len() == 0,
            r@.heroes == seq![
                (HeroKind::Thief, 0usize),
                (HeroKind::Wizard, 0usize),
                (HeroKind::Warrior, 0usize),
                (HeroKind::Merchant, 0usize),
            ],
    {
        let r = Settings {
            num_rounds: 10,
            goblin_order: vec![Player::P1],
            goblin_owners: Vec::new(),
            heroes: vec![
                (HeroKind::Thief, 0),
                (HeroKind::Wizard, 0),
                (HeroKind::Warrior, 0),
                (HeroKind::Merchant, 0),
            ],
        };
        assert(r@.goblin_order =~= seq![Player::P1]);
        r
    }

    /// Fixes the turn order over the occupied seats, in seat order, and gives
    /// each goblin its starting greed: four less its ordinal.
    pub fn update_goblin_order(&mut self, goblins: &mut GoblinMap)
        ensures
            final(self)@.goblin_order == occupied_order(old(goblins)@),
            final(self).num_rounds == old(self).num_rounds,
            final(self)@.goblin_owners == old(self)@.goblin_owners,
            final(self)@.heroes == old(self)@.heroes,
            final(goblins)@ == seeded(old(goblins)@),
    {
        let ghost g0 = goblins@;
        let mut order: Vec<Player> = Vec::new();
        let mut i: usize = 0;
        while i < 4
            invariant
                i <= 4,
                goblins@.dom() == g0.dom(),
                order@.len() <= i,
                forall|p: Player|
                    #![trigger goblins@[p]]
                    g0.contains_key(p) ==> goblins@[p] == (if p.spec_index() < i {
                        seeded(g0)[p]
                    } else {
                        g0[p]
                    }),
                order@ == (if i == 0 {
                    Seq::empty()
                } else if i == 1 {
                    seat_entry(g0, Player::P1)
                } else if i == 2 {
                    seat_entry(g0, Player::P1) + seat_entry(g0, Player::P2)
                } else if i == 3 {
                    seat_entry(g0, Player::P1) + seat_entry(g0, Player::P2) + seat_entry(
                        g0,
                        Player::P3,
                    )
                } else {
                    occupied_order(g0)
                }),
                forall|p: Player| p.spec_index() == i ==> rank(g0, p) == order@.len(),
            decreases 4 - i,
        {
            let p = seat(i);
            let ghost before = order@;
            if goblins.contains_key(p) {
                let mut g = goblins.remove(p).unwrap();
                g.greed = STARTING_GREED - order.len() as u8;
                goblins.insert(p, g);
                order.push(p);
            }
            proof {
                assert(goblins@.dom() =~= g0.dom());
                if i == 0 {
                    assert(order@ =~= seat_entry(g0, Player::P1));
                } else if i == 1 {
                    assert(order@ =~= seat_entry(g0, Player::P1) + seat_entry(g0, Player::P2));
                } else if i == 2 {
                    assert(order@ =~= seat_entry(g0, Player::P1) + seat_entry(g0, Player::P2)
                        + seat_entry(g0, Player::P3));
                } else {
                    assert(order@ =~= occupied_order(g0));
                }
            }
            i += 1;
        }
        self.goblin_order = order;
        assert(goblins@ =~= seeded(g0));
    }
}

impl Turn {
    /// A turn for `player`, before any event.
    pub fn new(player: Player) -> (r: Turn)
        ensures
            r == (Turn { nonce: 0, num_events: 0, player }),
    {
        Turn { nonce: 0, num_events: 0, player }
    }
}

impl CampPhase {
    /// A camp where nothing has been tried yet.
    pub fn new() -> (r: CampPhase)
        ensures
            r == fresh_camp(),
    {
        CampPhase { rummage_result: None, bribe_result: None }
    }
}

} // verus!
