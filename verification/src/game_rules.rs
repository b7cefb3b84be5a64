use vstd::prelude::*;
use crate::kuni::Kuni;
use crate::value_objects::DaimyoId;

verus! {

/// The phase of the game.
#[derive(Debug, Clone, Copy, PartialEq, Eq, Structural)]
pub enum GamePhase {
    /// Warlords take domestic actions in turn.
    Domestic,
    /// A battle is being fought.
    Battle,
    /// The game has ended and the player has lost (or there is no player).
    GameOver,
    /// The player has unified the land.
    GameClear,
}

/// The verdict of the victory check.
#[derive(Debug, Clone, Copy, PartialEq, Eq, Structural)]
pub enum VictoryCheck {
    /// The game goes on.
    Undecided,
    /// The game ends in `phase`, with `winner` recorded as the winner.
    Decided { winner: Option<DaimyoId>, phase: GamePhase },
}

/// Warlord `d` rules every province in `ks`.
pub open spec fn rules_all(ks: Seq<Kuni>, d: DaimyoId) -> bool {
    forall|i: int| 0 <= i < ks.len() ==> #[trigger] ks[i].daimyo_id == d
}

/// Warlord `d` rules some province in `ks`.
pub open spec fn rules_some(ks: Seq<Kuni>, d: DaimyoId) -> bool {
    exists|i: int| 0 <= i < ks.len() && #[trigger] ks[i].daimyo_id == d
}

/// The victory rules: with no provinces nothing is decided; a player who
/// rules no province loses (the warlord of the first province is recorded
/// as winner); a warlord who rules every province wins, which is a clear
/// for the player and a game over otherwise.
pub open spec fn spec_victory(ks: Seq<Kuni>, player: Option<DaimyoId>) -> VictoryCheck {
    if ks.len() == 0 {
        VictoryCheck::Undecided
    } else if player matches Some(p) && !rules_some(ks, p) {
        VictoryCheck::Decided { winner: Some(ks[0].daimyo_id), phase: GamePhase::GameOver }
    } else if rules_all(ks, ks[0].daimyo_id) {
        VictoryCheck::Decided {
            winner: Some(ks[0].daimyo_id),
            phase: if player == Some(ks[0].daimyo_id) {
                GamePhase::GameClear
            } else {
                GamePhase::GameOver
            },
        }
    } else {
        VictoryCheck::Undecided
    }
}

/// Checks whether the game has been won or lost, given all provinces and
/// the player's warlord (if any).
pub fn check_victory_and_defeat(all_kunis: &Vec<Kuni>, player_daimyo_id: Option<DaimyoId>) -> (r:
    VictoryCheck)
    ensures
        r == spec_victory(all_kunis@, player_daimyo_id),
{
    if all_kunis.len() == 0 {
        return VictoryCheck::Undecided;
    }
    if let Some(player_id) = player_daimyo_id {
        let mut owned = false;
        let mut i: usize = 0;
        while i < all_kunis.len()
            invariant
                i <= all_kunis@.len(),
                owned == rules_some(all_kunis@.subrange(0, i as int), player_id),
            decreases all_kunis@.len() - i,
        {
            proof {
                let pre = all_kunis@.subrange(0, i as int);
                let post = all_kunis@.subrange(0, i + 1);
                if rules_some(pre, player_id) {
                    let j = choose|j: int| 0 <= j < pre.len() && #[trigger] pre[j].daimyo_id == player_id;
                    assert(post[j].daimyo_id == player_id);
                }
                if rules_some(post, player_id) && all_kunis@[i as int].daimyo_id != player_id {
                    let j = choose|j: int| 0 <= j < post.len() && #[trigger] post[j].daimyo_id == player_id;
                    assert(pre[j].daimyo_id == player_id);
                }
                if all_kunis@[i as int].daimyo_id == player_id {
                    assert(post[i as int].daimyo_id == player_id);
                }
            }
            if all_kunis[i].daimyo_id == player_id {
                owned = true;
            }
            i = i + 1;
        }
        proof {
            assert(all_kunis@.subrange(0, all_kunis@.len() as int) == all_kunis@);
        }
        if !owned {
            return VictoryCheck::Decided {
                winner: Some(all_kunis[0].daimyo_id),
                phase: GamePhase::GameOver,
            };
        }
    }
    let first_daimyo = all_kunis[0].daimyo_id;
    let mut unified = true;
    let mut i: usize = 0;
    while i < all_kunis.len()
        invariant
            i <= all_kunis@.len(),
            all_kunis@.len() > 0,
            first_daimyo == all_kunis@[0].daimyo_id,
            unified == rules_all(all_kunis@.subrange(0, i as int), first_daimyo),
        decreases all_kunis@.len() - i,
    {
        proof {
            let pre = all_kunis@.subrange(0, i as int);
            let post = all_kunis@.subrange(0, i + 1);
            assert(post[i as int] == all_kunis@[i as int]);
            assert(forall|j: int| 0 <= j < i ==> pre[j] == post[j]);
        }
        if all_kunis[i].daimyo_id != first_daimyo {
            unified = false;
        }
        i = i + 1;
    }
    proof {
        assert(all_kunis@.subrange(0, all_kunis@.len() as int) == all_kunis@);
    }
    if unified {
        let phase = match player_daimyo_id {
            Some(player_id) => if first_daimyo == player_id {
                GamePhase::GameClear
            } else {
                GamePhase::GameOver
            },
            None => GamePhase::GameOver,
        };
        VictoryCheck::Decided { winner: Some(first_daimyo), phase }
    } else {
        VictoryCheck::Undecided
    }
}

} // verus!
