use vstd::prelude::*;
use crate::game_rules::GamePhase;
use crate::game_state::{GameState, GameStateView};
use crate::kuni::Kuni;
use crate::repository::KuniRepository;
use crate::screen::{ScreenState, ScreenView, WarSubState, WarView};
use crate::value_objects::{DaimyoId, KuniId};

verus! {

/// The war under way in which the player's province defends, if any.
pub open spec fn defense_war(state: GameStateView, kunis: Map<KuniId, Kuni>, player: Option<DaimyoId>) -> Option<(KuniId, KuniId)> {
    match (player, state.war) {
        (Some(p), Some(w)) => if kunis.contains_key(w.defender) && kunis[w.defender].daimyo_id == p {
            Some((w.attacker, w.defender))
        } else {
            None
        },
        _ => None,
    }
}

/// The screen after the client has read the game's state: a war in which
/// the player defends brings up its battle screen (unless it is already
/// shown); once the game is decided (clear or over, with a winner) every
/// screen but the title gives way to the game-over screen; and the domestic
/// screen follows the province whose turn it is.
pub open spec fn spec_screen_after_state(
    screen: ScreenView,
    state: GameStateView,
    kunis: Map<KuniId, Kuni>,
    player: Option<DaimyoId>,
) -> ScreenView {
    let s1 = match defense_war(state, kunis, player) {
        Some(w) => match screen {
            ScreenView::War { attacker_kuni, defender_kuni, cursor, sub_state } => if attacker_kuni == w.0
                && defender_kuni == w.1 {
                screen
            } else {
                ScreenView::War { attacker_kuni: w.0, defender_kuni: w.1, cursor: 0, sub_state: WarView::Normal }
            },
            _ => ScreenView::War { attacker_kuni: w.0, defender_kuni: w.1, cursor: 0, sub_state: WarView::Normal },
        },
        None => screen,
    };
    let s2 = if !(s1 is Title) && state.winner is Some && (state.phase == GamePhase::GameClear || state.phase
        == GamePhase::GameOver) {
        ScreenView::GameOver { winner: state.winner.unwrap() }
    } else {
        s1
    };
    match (state.current(), s2) {
        (Some(c), ScreenView::Domestic { selected_kuni, cursor, sub_state }) => ScreenView::Domestic {
            selected_kuni: c,
            cursor,
            sub_state,
        },
        _ => s2,
    }
}

/// The screen to show after reading the game's state; see
/// `spec_screen_after_state`.
pub fn screen_after_state<R: KuniRepository>(
    screen: ScreenState,
    state: &GameState,
    kunis: &R,
    player: Option<DaimyoId>,
) -> (r: ScreenState)
    ensures
        r.view() == spec_screen_after_state(screen.view(), state@, kunis.kunis(), player),
{
    let ghost v0 = screen.view();
    let defense: Option<(KuniId, KuniId)> = match (player, state.war) {
        (Some(p), Some(w)) => match kunis.find_by_id(&w.defender) {
            Some(d) => if d.daimyo_id == p {
                Some((w.attacker, w.defender))
            } else {
                None
            },
            None => None,
        },
        _ => None,
    };
    assert(defense == defense_war(state@, kunis.kunis(), player));
    let s1 = match defense {
        Some(w) => match screen {
            ScreenState::War { attacker_kuni, defender_kuni, cursor, sub_state } => if attacker_kuni == w.0
                && defender_kuni == w.1 {
                ScreenState::War { attacker_kuni, defender_kuni, cursor, sub_state }
            } else {
                ScreenState::War { attacker_kuni: w.0, defender_kuni: w.1, cursor: 0, sub_state: WarSubState::Normal }
            },
            _ => ScreenState::War { attacker_kuni: w.0, defender_kuni: w.1, cursor: 0, sub_state: WarSubState::Normal },
        },
        None => screen,
    };
    let decided = state.phase == GamePhase::GameClear || state.phase == GamePhase::GameOver;
    let s2 = match (state.winner, s1) {
        (Some(w), ScreenState::Title) => ScreenState::Title,
        (Some(w), other) => if decided {
            ScreenState::GameOver { winner: w }
        } else {
            other
        },
        (None, other) => other,
    };
    match (state.current_kuni_id(), s2) {
        (Some(c), ScreenState::Domestic { selected_kuni, cursor, sub_state }) => ScreenState::Domestic {
            selected_kuni: c,
            cursor,
            sub_state,
        },
        (_, other) => other,
    }
}

} // verus!
