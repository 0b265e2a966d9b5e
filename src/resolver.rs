use vstd::prelude::*;

use crate::goblin::{
    bump, bump_u8, drop_by, drop_u8, lemma_reseat, rarity_at, GoblinMap, GoblinView, Loot, Player,
    Rarity,
};
use crate::outcome::EventResult;
use crate::state::{next_in_order, order_wf, position_of};

verus! {

/// Picks which of `count` outcomes happens, from a random draw. Every outcome
/// is equally likely: the declared weights do not take part.
pub fn select_outcome(count: usize, roll: u32) -> (r: usize)
    requires
        count > 0,
    ensures
        r == roll as nat % count as nat,
        r < count,
{
    (roll as usize) % count
}

/// What an outcome of kind `kind` does to the party when goblin `p` meets
/// it; `roll` decides the rarity of any loot found.
pub open spec fn effect_of(
    g: Map<Player, GoblinView>,
    order: Seq<Player>,
    p: Player,
    kind: EventResult,
    roll: u32,
) -> Map<Player, GoblinView> {
    let gb = g[p];
    match kind {
        EventResult::GetLoot | EventResult::GetItem | EventResult::StealLoot
        | EventResult::StealItem => g.insert(
            p,
            GoblinView { loot: gb.loot.push(Loot { rarity: rarity_at(roll as nat) }), ..gb },
        ),
        EventResult::Heal => g.insert(p, GoblinView { health: bump(gb.health), ..gb }),
        EventResult::BoostLuck => g.insert(p, GoblinView { luck: bump(gb.luck), ..gb }),
        EventResult::ReduceGreed => g.insert(p, GoblinView { greed: drop_by(gb.greed, 2), ..gb }),
        EventResult::LoseLoot | EventResult::LoseItem | EventResult::ItemGotStolen => {
            if gb.loot.len() > 0 {
                g.insert(p, GoblinView { loot: gb.loot.drop_last(), ..gb })
            } else {
                g
            }
        },
        EventResult::LootGotStolen => {
            if gb.loot.len() > 0 {
                let g1 = g.insert(p, GoblinView { loot: gb.loot.drop_last(), ..gb });
                let q = next_in_order(order, p);
                g1.insert(q, GoblinView { loot: g1[q].loot.push(gb.loot.last()), ..g1[q] })
            } else {
                g
            }
        },
        EventResult::SlapFight | EventResult::OK => g,
        EventResult::GetAttacked => g.insert(p, GoblinView { health: drop_by(gb.health, 1), ..gb }),
    }
}

/// Where `p` stands in `order`.
pub fn position(order: &Vec<Player>, p: Player) -> (k: usize)
    requires
        order@.no_duplicates(),
        order@.contains(p),
    ensures
        k < order@.len(),
        order@[k as int] == p,
        k == position_of(order@, p),
{
    let mut k: usize = 0;
    while k < order.len()
        invariant
            k <= order@.len(),
            forall|m: int| 0 <= m < k ==> order@[m] != p,
            order@.contains(p),
            order@.no_duplicates(),
        decreases order@.len() - k,
    {
        if order[k] == p {
            assert(0 <= k < order@.len() && order@[k as int] == p);
            let ghost c = position_of(order@, p);
            assert(0 <= c < order@.len() && order@[c] == p);
            proof {
                if c != k as int {
                    assert(order@[c] != order@[k as int]);
                }
            }
            return k;
        }
        k += 1;
    }
    proof {
        let w = choose|m: int| 0 <= m < order@.len() && order@[m] == p;
        assert(order@[w] == p);
    }
    0
}

/// The participant after `p` in `order`, the first after the last.
pub fn next_player(order: &Vec<Player>, p: Player) -> (q: Player)
    requires
        order@.no_duplicates(),
        order@.contains(p),
    ensures
        q == next_in_order(order@, p),
{
    let k = position(order, p);
    let n = order.len();
    order[(k + 1) % n]
}

/// Applies an outcome of kind `kind` to goblin `p`, which sits in the turn
/// order `order`.
pub fn apply_outcome(
    goblins: &mut GoblinMap,
    order: &Vec<Player>,
    p: Player,
    kind: EventResult,
    roll: u32,
)
    requires
        order_wf(order@, old(goblins)@),
        order@.contains(p),
    ensures
        final(goblins)@ == effect_of(old(goblins)@, order@, p, kind, roll),
        final(goblins)@.dom() == old(goblins)@.dom(),
{
    let ghost g0 = goblins@;
    assert(g0.contains_key(p));
    match kind {
        EventResult::GetLoot | EventResult::GetItem | EventResult::StealLoot
        | EventResult::StealItem => {
            let mut g = goblins.remove(p).unwrap();
            g.loot.push(Loot { rarity: Rarity::from_roll(roll) });
            proof {
                lemma_reseat(g0, p, g@);
            }
            goblins.insert(p, g);
        },
        EventResult::Heal => {
            let mut g = goblins.remove(p).unwrap();
            g.health = bump_u8(g.health);
            proof {
                lemma_reseat(g0, p, g@);
            }
            goblins.insert(p, g);
        },
        EventResult::BoostLuck => {
            let mut g = goblins.remove(p).unwrap();
            g.luck = bump_u8(g.luck);
            proof {
                lemma_reseat(g0, p, g@);
            }
            goblins.insert(p, g);
        },
        EventResult::ReduceGreed => {
            let mut g = goblins.remove(p).unwrap();
            g.greed = drop_u8(g.greed, 2);
            proof {
                lemma_reseat(g0, p, g@);
            }
            goblins.insert(p, g);
        },
        EventResult::LoseLoot | EventResult::LoseItem | EventResult::ItemGotStolen => {
            let mut g = goblins.remove(p).unwrap();
            let _ = g.loot.pop();
            proof {
                lemma_reseat(g0, p, g@);
                if g0[p].loot.len() == 0 {
                    assert(g@ == g0[p]);
                    assert(g0.insert(p, g@) =~= g0);
                }
            }
            goblins.insert(p, g);
        },
        EventResult::LootGotStolen => {
            let mut g = goblins.remove(p).unwrap();
            let taken = g.loot.pop();
            proof {
                lemma_reseat(g0, p, g@);
            }
            goblins.insert(p, g);
            match taken {
                Some(l) => {
                    let q = next_player(order, p);
                    let ghost g1 = goblins@;
                    assert(g1.contains_key(q));
                    let mut h = goblins.remove(q).unwrap();
                    h.loot.push(l);
                    proof {
                        lemma_reseat(g1, q, h@);
                    }
                    goblins.insert(q, h);
                },
                None => {
                    proof {
                        assert(g0.insert(p, g0[p]) =~= g0);
                    }
                },
            }
        },
        EventResult::SlapFight | EventResult::OK => {},
        EventResult::GetAttacked => {
            let mut g = goblins.remove(p).unwrap();
            g.health = drop_u8(g.health, 1);
            proof {
                lemma_reseat(g0, p, g@);
            }
            goblins.insert(p, g);
        },
    }
    assert(goblins@.dom() =~= g0.dom());
}

} // verus!
