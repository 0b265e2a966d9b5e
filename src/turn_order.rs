use vstd::prelude::*;

use crate::goblin::{GoblinView, Player};
use crate::state::{occupied, occupied_order, rank};

verus! {

/// The turn order of a party has one entry per seated goblin: position `k`
/// holds the goblin of ordinal `k`, and every seated goblin has a position.
pub proof fn lemma_occupied_order(g: Map<Player, GoblinView>)
    ensures
        occupied_order(g).len() == occupied(g, Player::P1) + occupied(g, Player::P2) + occupied(
            g,
            Player::P3,
        ) + occupied(g, Player::P4),
        forall|k: int|
            0 <= k < occupied_order(g).len() ==> g.contains_key(#[trigger] occupied_order(g)[k])
                && rank(g, occupied_order(g)[k]) == k,
        forall|p: Player|
            g.contains_key(p) ==> #[trigger] rank(g, p) < occupied_order(g).len()
                && occupied_order(g)[rank(g, p) as int] == p,
        occupied_order(g).no_duplicates(),
{
    if g.contains_key(Player::P1) {
        if g.contains_key(Player::P2) {
            if g.contains_key(Player::P3) {
                if g.contains_key(Player::P4) {
                    assert(occupied_order(g) =~= seq![Player::P1, Player::P2, Player::P3, Player::P4]);
                } else {
                    assert(occupied_order(g) =~= seq![Player::P1, Player::P2, Player::P3]);
                }
            } else {
                if g.contains_key(Player::P4) {
                    assert(occupied_order(g) =~= seq![Player::P1, Player::P2, Player::P4]);
                } else {
                    assert(occupied_order(g) =~= seq![Player::P1, Player::P2]);
                }
            }
        } else {
            if g.contains_key(Player::P3) {
                if g.contains_key(Player::P4) {
                    assert(occupied_order(g) =~= seq![Player::P1, Player::P3, Player::P4]);
                } else {
                    assert(occupied_order(g) =~= seq![Player::P1, Player::P3]);
                }
            } else {
                if g.contains_key(Player::P4) {
                    assert(occupied_order(g) =~= seq![Player::P1, Player::P4]);
                } else {
                    assert(occupied_order(g) =~= seq![Player::P1]);
                }
            }
        }
    } else {
        if g.contains_key(Player::P2) {
            if g.contains_key(Player::P3) {
                if g.contains_key(Player::P4) {
                    assert(occupied_order(g) =~= seq![Player::P2, Player::P3, Player::P4]);
                } else {
                    assert(occupied_order(g) =~= seq![Player::P2, Player::P3]);
                }
            } else {
                if g.contains_key(Player::P4) {
                    assert(occupied_order(g) =~= seq![Player::P2, Player::P4]);
                } else {
                    assert(occupied_order(g) =~= seq![Player::P2]);
                }
            }
        } else {
            if g.contains_key(Player::P3) {
                if g.contains_key(Player::P4) {
                    assert(occupied_order(g) =~= seq![Player::P3, Player::P4]);
                } else {
                    assert(occupied_order(g) =~= seq![Player::P3]);
                }
            } else {
                if g.contains_key(Player::P4) {
                    assert(occupied_order(g) =~= seq![Player::P4]);
                } else {
                    assert(occupied_order(g) =~= Seq::<Player>::empty());
                }
            }
        }
    }
    let o = occupied_order(g);
    assert forall|i: int, j: int| 0 <= i < o.len() && 0 <= j < o.len() && i != j implies o[i]
        != o[j] by {
        assert(rank(g, o[i]) == i);
        assert(rank(g, o[j]) == j);
    }
}

} // verus!
