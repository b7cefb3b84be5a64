use vstd::prelude::*;
use crate::value_objects::{DaimyoId, KuniId};

verus! {

/// The screen that the terminal client shows.
#[derive(Debug)]
pub enum ScreenState {
    Title,
    SelectDaimyo { cursor: usize },
    Domestic { selected_kuni: KuniId, cursor: usize, sub_state: DomesticSubState },
    War { attacker_kuni: KuniId, defender_kuni: KuniId, cursor: usize, sub_state: WarSubState },
    GameOver { winner: DaimyoId },
}

/// The state of the domestic screen.
#[derive(Debug)]
pub enum DomesticSubState {
    /// Choosing a command.
    Normal,
    /// Typing the amount for a command; `input` holds the characters typed.
    InputAmount { command: DomesticCommand, input: Vec<char> },
    /// Choosing the neighbour that a command targets.
    SelectTargetKuni { command: DomesticCommand, cursor: usize },
    /// Showing a message; `next_state` follows when it is dismissed.
    ShowMessage { message: String, next_state: Box<DomesticSubState> },
}

/// The state of the war screen.
#[derive(Debug)]
pub enum WarSubState {
    Normal,
    SelectTactic,
    ShowMessage { message: String, next_state: Box<WarSubState> },
}

/// The commands of the domestic menu, in menu order.
#[derive(Debug, Clone, Copy, PartialEq, Eq, Structural)]
pub enum DomesticCommand {
    War,
    SellRice,
    BuyRice,
    Develop,
    BuildTown,
    Hire,
    Dismiss,
    Give,
    Transport,
    Delegate,
    Undelegate,
    Information,
    Exit,
}

/// A screen as a mathematical value.
pub enum ScreenView {
    Title,
    SelectDaimyo { cursor: nat },
    Domestic { selected_kuni: KuniId, cursor: nat, sub_state: DomesticView },
    War { attacker_kuni: KuniId, defender_kuni: KuniId, cursor: nat, sub_state: WarView },
    GameOver { winner: DaimyoId },
}

/// A domestic sub-state as a mathematical value.
pub enum DomesticView {
    Normal,
    InputAmount { command: DomesticCommand, input: Seq<char> },
    SelectTargetKuni { command: DomesticCommand, cursor: nat },
    ShowMessage { message: Seq<char>, next_state: Box<DomesticView> },
}

/// A war sub-state as a mathematical value.
pub enum WarView {
    Normal,
    SelectTactic,
    ShowMessage { message: Seq<char>, next_state: Box<WarView> },
}

impl DomesticSubState {
    pub open spec fn view(&self) -> DomesticView
        decreases self,
    {
        match self {
            DomesticSubState::Normal => DomesticView::Normal,
            DomesticSubState::InputAmount { command, input } => DomesticView::InputAmount {
                command: *command,
                input: input@,
            },
            DomesticSubState::SelectTargetKuni { command, cursor } => DomesticView::SelectTargetKuni {
                command: *command,
                cursor: *cursor as nat,
            },
            DomesticSubState::ShowMessage { message, next_state } => DomesticView::ShowMessage {
                message: message@,
                next_state: Box::new((**next_state).view()),
            },
        }
    }
}

impl WarSubState {
    pub open spec fn view(&self) -> WarView
        decreases self,
    {
        match self {
            WarSubState::Normal => WarView::Normal,
            WarSubState::SelectTactic => WarView::SelectTactic,
            WarSubState::ShowMessage { message, next_state } => WarView::ShowMessage {
                message: message@,
                next_state: Box::new((**next_state).view()),
            },
        }
    }
}

impl ScreenState {
    pub open spec fn view(&self) -> ScreenView {
        match self {
            ScreenState::Title => ScreenView::Title,
            ScreenState::SelectDaimyo { cursor } => ScreenView::SelectDaimyo { cursor: *cursor as nat },
            ScreenState::Domestic { selected_kuni, cursor, sub_state } => ScreenView::Domestic {
                selected_kuni: *selected_kuni,
                cursor: *cursor as nat,
                sub_state: sub_state.view(),
            },
            ScreenState::War { attacker_kuni, defender_kuni, cursor, sub_state } => ScreenView::War {
                attacker_kuni: *attacker_kuni,
                defender_kuni: *defender_kuni,
                cursor: *cursor as nat,
                sub_state: sub_state.view(),
            },
            ScreenState::GameOver { winner } => ScreenView::GameOver { winner: *winner },
        }
    }
}

} // verus!
