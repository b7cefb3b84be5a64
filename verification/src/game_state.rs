use vstd::prelude::*;
use crate::error::{DomainError, is_invalid_state};
use crate::game_rules::GamePhase;
use crate::value_objects::{DaimyoId, KuniId};

verus! {

/// The progress of the game: the turn, the order in which the provinces act
/// in it, whose action is next, and the phase and winner.
#[derive(Debug, Clone)]
pub struct GameState {
    /// The turn number; turn `t` is season `t % 4` (spring first).
    pub turn: u32,
    /// The provinces in the order in which they act this turn.
    pub order: Vec<KuniId>,
    /// The position in `order` of the province to act; `order.len()` once
    /// all have acted.
    pub index: usize,
    /// The province to act has already taken its action.
    pub action_performed: bool,
    /// The phase of the game.
    pub phase: GamePhase,
    /// The warlord who has won, once the game is decided.
    pub winner: Option<DaimyoId>,
    /// The war under way in the battle phase.
    pub war: Option<WarStatus>,
}

/// A war under way: the attacking and the defending province, and the
/// troops that the attacker sends into each round.
#[derive(Debug, Clone, Copy, PartialEq, Eq, Structural)]
pub struct WarStatus {
    pub attacker: KuniId,
    pub defender: KuniId,
    pub troops: u32,
}

/// What a `GameState` holds, with the order as a sequence.
pub struct GameStateView {
    pub turn: u32,
    pub order: Seq<KuniId>,
    pub index: int,
    pub action_performed: bool,
    pub phase: GamePhase,
    pub winner: Option<DaimyoId>,
    pub war: Option<WarStatus>,
}

impl View for GameState {
    type V = GameStateView;

    open spec fn view(&self) -> GameStateView {
        GameStateView {
            turn: self.turn,
            order: self.order@,
            index: self.index as int,
            action_performed: self.action_performed,
            phase: self.phase,
            winner: self.winner,
            war: self.war,
        }
    }
}

/// The message of a domestic action refused outside the domestic phase.
pub open spec fn not_domestic_message() -> Seq<char> {
    "現在は内政フェーズではありません"@
}

impl GameStateView {
    /// The state is consistent: the index does not pass the end of the order.
    pub open spec fn wf(self) -> bool {
        0 <= self.index <= self.order.len()
    }

    /// The province whose turn it is, if any is left this turn.
    pub open spec fn current(self) -> Option<KuniId> {
        if 0 <= self.index < self.order.len() {
            Some(self.order[self.index])
        } else {
            None
        }
    }

    /// Every province of the order has acted.
    pub open spec fn completed(self) -> bool {
        self.index >= self.order.len()
    }

    /// Province `kuni_id` may take a domestic action now.
    pub open spec fn allows(self, kuni_id: KuniId) -> bool {
        self.phase == GamePhase::Domestic && self.current() == Some(kuni_id)
    }

    /// `e` is the error with which a domestic action of `kuni_id` is refused.
    pub open spec fn refuses_with(self, kuni_id: KuniId, e: DomainError) -> bool {
        if self.phase != GamePhase::Domestic {
            is_invalid_state(e, not_domestic_message())
        } else {
            e is NotYourTurn
        }
    }

    /// The state after the current province's action is over.
    pub open spec fn advanced(self) -> GameStateView {
        GameStateView {
            index: if self.index < self.order.len() { self.index + 1 } else { self.index },
            action_performed: false,
            ..self
        }
    }

    /// The state at the start of the next turn, with `order` as its order.
    pub open spec fn next_turn(self, order: Seq<KuniId>) -> GameStateView {
        GameStateView {
            turn: (self.turn + 1) as u32,
            order,
            index: 0,
            action_performed: false,
            ..self
        }
    }
}

impl GameState {
    /// A state at turn `turn`, in the domestic phase, with `order` as the
    /// order of action and `index` as the position of the province to act.
    /// Fails when `index` lies past the end of `order`.
    pub fn new(turn: u32, order: Vec<KuniId>, index: usize) -> (r: Result<GameState, DomainError>)
        ensures
            r is Ok <==> index <= order.len(),
            r matches Ok(s) ==> s@ == (GameStateView {
                turn,
                order: order@,
                index: index as int,
                action_performed: false,
                phase: GamePhase::Domestic,
                winner: None,
                war: None,
            }),
            r matches Err(e) ==> is_invalid_state(e, "行動順の位置が範囲外です"@),
    {
        if index > order.len() {
            return Err(DomainError::InvalidState(String::from_str("行動順の位置が範囲外です")));
        }
        Ok(GameState {
            turn,
            order,
            index,
            action_performed: false,
            phase: GamePhase::Domestic,
            winner: None,
            war: None,
        })
    }

    /// The turn number.
    pub fn current_turn(&self) -> (r: u32)
        ensures
            r == self.turn,
    {
        self.turn
    }

    /// The season of the turn: 0 spring, 1 summer, 2 autumn, 3 winter.
    pub fn season(&self) -> (r: u32)
        ensures
            r == self.turn % 4,
    {
        self.turn % 4
    }

    /// The province whose turn it is, if any is left this turn.
    pub fn current_kuni_id(&self) -> (r: Option<KuniId>)
        ensures
            r == self@.current(),
    {
        if self.index < self.order.len() {
            Some(self.order[self.index])
        } else {
            None
        }
    }

    /// Every province of the order has acted.
    pub fn is_turn_completed(&self) -> (r: bool)
        ensures
            r == self@.completed(),
    {
        self.index >= self.order.len()
    }

    /// Ends the current province's action: the next province is to act.
    pub fn advance_action(&mut self)
        ensures
            final(self)@ == old(self)@.advanced(),
    {
        if self.index < self.order.len() {
            self.index = self.index + 1;
        }
        self.action_performed = false;
    }

    /// Starts the next turn, in which the provinces act in `order`.
    pub fn start_new_turn(&mut self, order: Vec<KuniId>)
        requires
            old(self).turn < u32::MAX,
        ensures
            final(self)@ == old(self)@.next_turn(order@),
    {
        self.turn = self.turn + 1;
        self.order = order;
        self.index = 0;
        self.action_performed = false;
    }

    /// Records that the province to act has taken its action.
    pub fn mark_action_performed(&mut self)
        ensures
            final(self)@ == (GameStateView { action_performed: true, ..old(self)@ }),
    {
        self.action_performed = true;
    }

    /// Whether the province to act has taken its action.
    pub fn is_action_performed(&self) -> (r: bool)
        ensures
            r == self.action_performed,
    {
        self.action_performed
    }

    /// Sets the phase.
    pub fn set_phase(&mut self, phase: GamePhase)
        ensures
            final(self)@ == (GameStateView { phase, ..old(self)@ }),
    {
        self.phase = phase;
    }

    /// Records the winner.
    pub fn set_winner(&mut self, winner: DaimyoId)
        ensures
            final(self)@ == (GameStateView { winner: Some(winner), ..old(self)@ }),
    {
        self.winner = Some(winner);
    }

    /// Checks that province `kuni_id` may take a domestic action: the game is
    /// in the domestic phase and the province is the one to act.
    pub fn check_turn(&self, kuni_id: KuniId) -> (r: Result<(), DomainError>)
        ensures
            r is Ok <==> self@.allows(kuni_id),
            r matches Err(e) ==> self@.refuses_with(kuni_id, e),
    {
        if self.phase != GamePhase::Domestic {
            return Err(DomainError::InvalidState(String::from_str("現在は内政フェーズではありません")));
        }
        match self.current_kuni_id() {
            Some(id) => if id == kuni_id {
                Ok(())
            } else {
                Err(DomainError::NotYourTurn)
            },
            None => Err(DomainError::NotYourTurn),
        }
    }
}

} // verus!
