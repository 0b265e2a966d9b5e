use vstd::prelude::*;

verus! {

/// One of the four seats of a party.
#[derive(Copy, Clone, Debug, PartialEq, Eq, Structural, PartialOrd, Ord, Hash)]
pub enum Player {
    P1,
    P2,
    P3,
    P4,
}

impl Player {
    /// The seat's position among the four, counting from zero.
    pub open spec fn spec_index(self) -> nat {
        match self {
            Player::P1 => 0,
            Player::P2 => 1,
            Player::P3 => 2,
            Player::P4 => 3,
        }
    }

    pub fn index(&self) -> (r: usize)
        ensures
            r == self.spec_index(),
    {
        match self {
            Player::P1 => 0,
            Player::P2 => 1,
            Player::P3 => 2,
            Player::P4 => 3,
        }
    }
}

/// The four seats in their canonical order.
pub open spec fn all_players() -> Seq<Player> {
    seq![Player::P1, Player::P2, Player::P3, Player::P4]
}

#[derive(Copy, Clone, Debug, PartialEq, Eq, Structural, PartialOrd, Ord, Hash)]
pub enum HeroKind {
    Thief,
    Wizard,
    Warrior,
    Merchant,
    Ninja,
}

#[derive(Copy, Clone, Debug, PartialEq, Eq, Structural, PartialOrd, Ord, Hash)]
pub enum ItemKind {
    Foo,
    Bar,
    Baz,
    Qux,
}

/// The five rarity tiers of loot, from the most common up.
#[derive(Copy, Clone, Debug, PartialEq, Eq, Structural, PartialOrd, Ord, Hash)]
pub enum Rarity {
    Common,
    Uncommon,
    Rare,
    Legendary,
    Epic,
}

/// Number of rarity tiers.
pub const RARITY_COUNT: u32 = 5;

/// The tier at position `i` (taken modulo the number of tiers).
pub open spec fn rarity_at(i: nat) -> Rarity {
    let k = i % 5;
    if k == 0 {
        Rarity::Common
    } else if k == 1 {
        Rarity::Uncommon
    } else if k == 2 {
        Rarity::Rare
    } else if k == 3 {
        Rarity::Legendary
    } else {
        Rarity::Epic
    }
}

impl Rarity {
    /// Picks a tier uniformly from a random draw: each tier takes the draws
    /// that leave its position as remainder modulo five.
    pub fn from_roll(roll: u32) -> (r: Rarity)
        ensures
            r == rarity_at(roll as nat),
    {
        let k = roll % RARITY_COUNT;
        if k == 0 {
            Rarity::Common
        } else if k == 1 {
            Rarity::Uncommon
        } else if k == 2 {
            Rarity::Rare
        } else if k == 3 {
            Rarity::Legendary
        } else {
            Rarity::Epic
        }
    }
}

#[derive(Copy, Clone, Debug, PartialEq, Eq, Structural)]
pub struct Loot {
    pub rarity: Rarity,
}

/// A participant's attributes and belongings.
#[derive(Clone, Debug, PartialEq, Eq)]
pub struct Goblin {
    pub health: u8,
    pub luck: u8,
    pub greed: u8,
    pub items: Vec<ItemKind>,
    pub loot: Vec<Loot>,
}

/// What a goblin is, as plain values.
pub struct GoblinView {
    pub health: u8,
    pub luck: u8,
    pub greed: u8,
    pub items: Seq<ItemKind>,
    pub loot: Seq<Loot>,
}

impl View for Goblin {
    type V = GoblinView;

    open spec fn view(&self) -> GoblinView {
        GoblinView {
            health: self.health,
            luck: self.luck,
            greed: self.greed,
            items: self.items@,
            loot: self.loot@,
        }
    }
}

/// Adds one, staying at the largest value of the type once it is reached.
pub open spec fn bump(x: u8) -> u8 {
    if x < u8::MAX { (x + 1) as u8 } else { x }
}

/// Takes `n` away, stopping at zero.
pub open spec fn drop_by(x: u8, n: u8) -> u8 {
    if x >= n { (x - n) as u8 } else { 0 }
}

/// Two health, no luck, no greed, empty hands.
pub open spec fn fresh_goblin(g: GoblinView) -> bool {
    &&& g.health == 2
    &&& g.luck == 0
    &&& g.greed == 0
    &&& g.items.len() == 0
    &&& g.loot.len() == 0
}

/// Adds one to an attribute, staying at the top of its range once there.
pub fn bump_u8(x: u8) -> (r: u8)
    ensures
        r == bump(x),
{
    if x < u8::MAX {
        x + 1
    } else {
        x
    }
}

/// Takes `n` from an attribute, stopping at zero.
pub fn drop_u8(x: u8, n: u8) -> (r: u8)
    ensures
        r == drop_by(x, n),
{
    if x >= n {
        x - n
    } else {
        0
    }
}

/// Taking a goblin out of its seat and seating `v` there is the same as
/// seating `v` in place of the goblin.
pub proof fn lemma_reseat(m: Map<Player, GoblinView>, p: Player, v: GoblinView)
    ensures
        m.remove(p).insert(p, v) == m.insert(p, v),
{
    assert(m.remove(p).insert(p, v) =~= m.insert(p, v));
}

impl Goblin {
    pub const MAX_ITEMS_LEN: usize = 1;

    pub const MAX_LOOT_LEN: usize = 32;

    /// Two health, no luck, no greed, empty hands.
    pub open spec fn is_fresh(&self) -> bool {
        fresh_goblin(self@)
    }

    /// A fresh recruit.
    pub fn new() -> (r: Goblin)
        ensures
            r.is_fresh(),
    {
        Goblin { health: 2, luck: 0, greed: 0, items: Vec::new(), loot: Vec::new() }
    }
}

/// The party's seats, each empty or holding a goblin. Four seats and no
/// more, so a seat's presence never needs a lookup that can fail.
#[derive(Clone, Debug, PartialEq, Eq)]
pub struct GoblinMap {
    pub p1: Option<Goblin>,
    pub p2: Option<Goblin>,
    pub p3: Option<Goblin>,
    pub p4: Option<Goblin>,
}

impl View for GoblinMap {
    type V = Map<Player, GoblinView>;

    /// The occupied seats, each with its goblin.
    open spec fn view(&self) -> Map<Player, GoblinView> {
        Map::new(|p: Player| self.has(p), |p: Player| self.goblin(p)@)
    }
}

impl GoblinMap {
    /// What the seat holds.
    pub open spec fn slot(&self, p: Player) -> Option<Goblin> {
        match p {
            Player::P1 => self.p1,
            Player::P2 => self.p2,
            Player::P3 => self.p3,
            Player::P4 => self.p4,
        }
    }

    pub open spec fn has(&self, p: Player) -> bool {
        self.slot(p) is Some
    }

    /// The goblin in an occupied seat.
    pub open spec fn goblin(&self, p: Player) -> Goblin {
        self.slot(p)->Some_0
    }

    /// This map with the seat `p` holding `v`, all other seats as they were.
    pub open spec fn with_slot(self, p: Player, v: Option<Goblin>) -> GoblinMap {
        match p {
            Player::P1 => GoblinMap { p1: v, ..self },
            Player::P2 => GoblinMap { p2: v, ..self },
            Player::P3 => GoblinMap { p3: v, ..self },
            Player::P4 => GoblinMap { p4: v, ..self },
        }
    }

    /// This map with the goblin in seat `p` replaced by `g`.
    pub open spec fn with_goblin(self, p: Player, g: Goblin) -> GoblinMap {
        self.with_slot(p, Some(g))
    }

    /// A party of one: the creator in the first seat.
    pub fn new() -> (r: GoblinMap)
        ensures
            r@.dom() == set![Player::P1],
            fresh_goblin(r@[Player::P1]),
    {
        let r = GoblinMap { p1: Some(Goblin::new()), p2: None, p3: None, p4: None };
        assert(r@.dom() =~= set![Player::P1]);
        r
    }

    pub fn contains_key(&self, p: Player) -> (r: bool)
        ensures
            r == self@.contains_key(p),
    {
        match p {
            Player::P1 => self.p1.is_some(),
            Player::P2 => self.p2.is_some(),
            Player::P3 => self.p3.is_some(),
            Player::P4 => self.p4.is_some(),
        }
    }

    pub fn get(&self, p: Player) -> (r: Option<&Goblin>)
        ensures
            r is Some <==> self@.contains_key(p),
            r is Some ==> r->Some_0@ == self@[p],
    {
        match p {
            Player::P1 => self.p1.as_ref(),
            Player::P2 => self.p2.as_ref(),
            Player::P3 => self.p3.as_ref(),
            Player::P4 => self.p4.as_ref(),
        }
    }

    /// Puts `g` in seat `p`, handing back what was there.
    pub fn insert(&mut self, p: Player, g: Goblin) -> (r: Option<Goblin>)
        ensures
            r is Some <==> old(self)@.contains_key(p),
            r is Some ==> r->Some_0@ == old(self)@[p],
            final(self)@ == old(self)@.insert(p, g@),
    {
        proof {
            let ghost want = old(self)@.insert(p, g@);
            assert(old(self).with_goblin(p, g)@ =~= want);
        }
        match p {
            Player::P1 => {
                let r = self.p1.take();
                self.p1 = Some(g);
                r
            },
            Player::P2 => {
                let r = self.p2.take();
                self.p2 = Some(g);
                r
            },
            Player::P3 => {
                let r = self.p3.take();
                self.p3 = Some(g);
                r
            },
            Player::P4 => {
                let r = self.p4.take();
                self.p4 = Some(g);
                r
            },
        }
    }

    /// Empties seat `p`, handing back what was there.
    pub fn remove(&mut self, p: Player) -> (r: Option<Goblin>)
        ensures
            r is Some <==> old(self)@.contains_key(p),
            r is Some ==> r->Some_0@ == old(self)@[p],
            final(self)@ == old(self)@.remove(p),
    {
        proof {
            let ghost want = old(self)@.remove(p);
            assert(old(self).with_slot(p, None)@ =~= want);
        }
        match p {
            Player::P1 => self.p1.take(),
            Player::P2 => self.p2.take(),
            Player::P3 => self.p3.take(),
            Player::P4 => self.p4.take(),
        }
    }
}

} // verus!
