use vstd::prelude::*;

verus! {

/// What an outcome does to the goblin who meets it.
#[derive(Copy, Clone, Debug, PartialEq, Eq, Structural, PartialOrd, Ord, Hash)]
pub enum EventResult {
    GetLoot,
    GetItem,
    StealLoot,
    StealItem,
    Heal,
    BoostLuck,
    ReduceGreed,
    LoseLoot,
    LoseItem,
    LootGotStolen,
    ItemGotStolen,
    SlapFight,
    GetAttacked,
    OK,
}

impl EventResult {
    pub const LEN: usize = 14;

    /// The line that announces the outcome.
    pub open spec fn desc_text(self) -> Seq<char> {
        match self {
            EventResult::GetLoot => "Found some valuable loot."@,
            EventResult::GetItem => "Discovered an item."@,
            EventResult::StealLoot => "Stole some loot."@,
            EventResult::StealItem => "Snatched a handy item"@,
            EventResult::Heal => "Recovered some health"@,
            EventResult::BoostLuck => "Your luck increased."@,
            EventResult::ReduceGreed => "You feel less greedy."@,
            EventResult::LoseLoot => "Lost some of your loot."@,
            EventResult::LoseItem => "You misplaced an item."@,
            EventResult::LootGotStolen => "Your loot was stolen."@,
            EventResult::ItemGotStolen => "One of your items was stolen."@,
            EventResult::SlapFight => "Slap fight initiated!"@,
            EventResult::GetAttacked => "You are ambushed by a hidden foe!"@,
            EventResult::OK => "Nothing eventful occurs."@,
        }
    }

    pub fn desc(&self) -> (r: &'static str)
        ensures
            r@ == self.desc_text(),
    {
        match self {
            EventResult::GetLoot => "Found some valuable loot.",
            EventResult::GetItem => "Discovered an item.",
            EventResult::StealLoot => "Stole some loot.",
            EventResult::StealItem => "Snatched a handy item",
            EventResult::Heal => "Recovered some health",
            EventResult::BoostLuck => "Your luck increased.",
            EventResult::ReduceGreed => "You feel less greedy.",
            EventResult::LoseLoot => "Lost some of your loot.",
            EventResult::LoseItem => "You misplaced an item.",
            EventResult::LootGotStolen => "Your loot was stolen.",
            EventResult::ItemGotStolen => "One of your items was stolen.",
            EventResult::SlapFight => "Slap fight initiated!",
            EventResult::GetAttacked => "You are ambushed by a hidden foe!",
            EventResult::OK => "Nothing eventful occurs.",
        }
    }

    /// Whether the outcome favours the goblin.
    pub open spec fn spec_is_good(self) -> bool {
        match self {
            EventResult::GetLoot => true,
            EventResult::GetItem => true,
            EventResult::StealLoot => true,
            EventResult::StealItem => true,
            EventResult::Heal => true,
            EventResult::BoostLuck => true,
            EventResult::ReduceGreed => true,
            EventResult::LoseLoot => false,
            EventResult::LoseItem => false,
            EventResult::LootGotStolen => false,
            EventResult::ItemGotStolen => false,
            EventResult::SlapFight => false,
            EventResult::GetAttacked => false,
            EventResult::OK => true,
        }
    }

    pub fn is_good(&self) -> (r: bool)
        ensures
            r == self.spec_is_good(),
    {
        match self {
            EventResult::GetLoot => true,
            EventResult::GetItem => true,
            EventResult::StealLoot => true,
            EventResult::StealItem => true,
            EventResult::Heal => true,
            EventResult::BoostLuck => true,
            EventResult::ReduceGreed => true,
            EventResult::LoseLoot => false,
            EventResult::LoseItem => false,
            EventResult::LootGotStolen => false,
            EventResult::ItemGotStolen => false,
            EventResult::SlapFight => false,
            EventResult::GetAttacked => false,
            EventResult::OK => true,
        }
    }

    /// The goblin's own remark on the outcome.
    pub open spec fn dialog_text(self) -> Seq<char> {
        match self {
            EventResult::BoostLuck => "I smell loot. I must have Gob's favor."@,
            EventResult::GetAttacked => "Wot the 'eck! Who's pokin' me bum?"@,
            EventResult::GetItem => "I've nabbed a fancy trinket! It's mine, I say!"@,
            EventResult::GetLoot => "Ooh, shiny! This'll fetch a nice price."@,
            EventResult::Heal => "Ouchies all gone! Tough as a dragon's hind am I!"@,
            EventResult::ItemGotStolen => "Oi! Who's the sneak thief pinchin' me treasures?"@,
            EventResult::LootGotStolen => "Someone's pinched me precious loot! Cheeky blighter!"@,
            EventResult::LoseItem => "Drat! Lost me thingamajig! Where'd it get off to?"@,
            EventResult::LoseLoot => "Me loot! It's gone! This is a right mess."@,
            EventResult::OK => "All quiet... too quiet. But heck, I'll take it!"@,
            EventResult::ReduceGreed => "Maybe bein' stupid filthy rich ain't all it's cracked up to be... Who said that?"@,
            EventResult::SlapFight => "Slappin' time! Best part of the day, this is!"@,
            EventResult::StealItem => "Hehe, this'll be my little secret, yeah?"@,
            EventResult::StealLoot => "Yoink! This loot's better off with me."@,
        }
    }

    pub fn goblin_dialog(&self) -> (r: &'static str)
        ensures
            r@ == self.dialog_text(),
    {
        match self {
            EventResult::BoostLuck => "I smell loot. I must have Gob's favor.",
            EventResult::GetAttacked => "Wot the 'eck! Who's pokin' me bum?",
            EventResult::GetItem => "I've nabbed a fancy trinket! It's mine, I say!",
            EventResult::GetLoot => "Ooh, shiny! This'll fetch a nice price.",
            EventResult::Heal => "Ouchies all gone! Tough as a dragon's hind am I!",
            EventResult::ItemGotStolen => "Oi! Who's the sneak thief pinchin' me treasures?",
            EventResult::LootGotStolen => "Someone's pinched me precious loot! Cheeky blighter!",
            EventResult::LoseItem => "Drat! Lost me thingamajig! Where'd it get off to?",
            EventResult::LoseLoot => "Me loot! It's gone! This is a right mess.",
            EventResult::OK => "All quiet... too quiet. But heck, I'll take it!",
            EventResult::ReduceGreed => "Maybe bein' stupid filthy rich ain't all it's cracked up to be... Who said that?",
            EventResult::SlapFight => "Slappin' time! Best part of the day, this is!",
            EventResult::StealItem => "Hehe, this'll be my little secret, yeah?",
            EventResult::StealLoot => "Yoink! This loot's better off with me.",
        }
    }
}

} // verus!
