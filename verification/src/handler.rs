use vstd::prelude::*;
use crate::amount_input::{is_digit, parse_u32, spec_parse_u32};
use crate::battle_service::{BattleSide, Tactic};
use crate::screen::{DomesticCommand, DomesticSubState, DomesticView, ScreenState, ScreenView, WarSubState, WarView};
use crate::value_objects::{Amount, KuniId, spec_from_display};

verus! {

/// A key that the player pressed.
#[derive(Debug, Clone, Copy, PartialEq, Eq, Structural)]
pub enum Key {
    Up,
    Down,
    Enter,
    Esc,
    Backspace,
    Char(char),
    Other,
}

/// What the client must do after a key press, besides showing the new
/// screen. The screen that comes with a command is shown once the command
/// has succeeded; for the commands that name a follow-up, the follow-up
/// function gives the screen from the command's outcome.
#[derive(Debug, Clone, Copy, PartialEq, Eq, Structural)]
pub enum Command {
    /// Nothing to do.
    Idle,
    /// Leave the client.
    Quit,
    /// Advance the game once, which sets up the first turn.
    StartGame,
    /// The player picks the warlord at `index` of the list; follow-up:
    /// `EventHandler::after_daimyo_chosen`.
    ChooseDaimyo { index: usize },
    /// Turn delegation of a province on or off.
    SetDelegation { kuni: KuniId, delegate: bool },
    /// Spy on the other provinces: complete the current action and advance
    /// the game.
    Information,
    /// Run a domestic command on a province with the amount typed, in
    /// internal units (the typed number times 100); follow-up:
    /// `EventHandler::after_domestic_command`.
    RunDomestic { kuni: KuniId, command: DomesticCommand, amount: u32 },
    /// Move goods between two provinces; follow-up:
    /// `EventHandler::after_transport`.
    Transport { from: KuniId, to: KuniId, kin: u32, hei: u32, kome: u32 },
    /// Play a round of battle; follow-up: `EventHandler::after_battle_round`.
    BattleRound {
        attacker: KuniId,
        defender: KuniId,
        attacker_tactic: Tactic,
        defender_tactic: Tactic,
        troops: u32,
    },
}

/// What the client knows when a key is pressed.
pub struct KeyContext {
    /// The number of warlords the player can choose from.
    pub daimyo_count: usize,
    /// It is the turn of the player's warlord.
    pub is_player_turn: bool,
    /// The neighbours of the province on screen.
    pub neighbors: Vec<KuniId>,
}

/// The key-handling rules of the terminal client.
pub struct EventHandler;

/// The domestic menu, in order.
pub open spec fn menu_command(cursor: nat) -> Option<DomesticCommand> {
    if cursor == 0 { Some(DomesticCommand::War) }
    else if cursor == 1 { Some(DomesticCommand::SellRice) }
    else if cursor == 2 { Some(DomesticCommand::BuyRice) }
    else if cursor == 3 { Some(DomesticCommand::Develop) }
    else if cursor == 4 { Some(DomesticCommand::BuildTown) }
    else if cursor == 5 { Some(DomesticCommand::Hire) }
    else if cursor == 6 { Some(DomesticCommand::Dismiss) }
    else if cursor == 7 { Some(DomesticCommand::Give) }
    else if cursor == 8 { Some(DomesticCommand::Transport) }
    else if cursor == 9 { Some(DomesticCommand::Delegate) }
    else if cursor == 10 { Some(DomesticCommand::Undelegate) }
    else if cursor == 11 { Some(DomesticCommand::Information) }
    else if cursor == 12 { Some(DomesticCommand::Exit) }
    else { None }
}

/// The tactic menu, in order.
pub open spec fn tactic_at(cursor: nat) -> Tactic {
    if cursor == 0 { Tactic::Normal }
    else if cursor == 1 { Tactic::Surprise }
    else if cursor == 2 { Tactic::Fire }
    else if cursor == 3 { Tactic::Inspire }
    else { Tactic::Normal }
}

/// The troops that the client sends into each round of battle: 100 as
/// the player counts them.
pub open spec fn troops_per_round() -> u32 {
    spec_from_display(100)
}

/// The amount of each good that the client's transport command moves.
pub open spec fn transport_lot() -> u32 {
    100
}

/// The domestic screen.
pub open spec fn dom(kuni: KuniId, cursor: nat, sub: DomesticView) -> ScreenView {
    ScreenView::Domestic { selected_kuni: kuni, cursor, sub_state: sub }
}

/// A domestic message to dismiss back to the menu.
pub open spec fn dom_message(message: Seq<char>) -> DomesticView {
    DomesticView::ShowMessage { message, next_state: Box::new(DomesticView::Normal) }
}

/// The cursor moved up one line, stopping at the top.
pub open spec fn up(cursor: nat) -> nat {
    if cursor == 0 { 0 } else { (cursor - 1) as nat }
}

/// Keys on the title screen: Enter starts a game, `q` or Esc quits.
pub open spec fn spec_title(key: Key) -> (ScreenView, Command) {
    match key {
        Key::Enter => (ScreenView::SelectDaimyo { cursor: 0 }, Command::StartGame),
        Key::Esc => (ScreenView::Title, Command::Quit),
        Key::Char(c) => if c == 'q' { (ScreenView::Title, Command::Quit) } else { (ScreenView::Title, Command::Idle) },
        _ => (ScreenView::Title, Command::Idle),
    }
}

/// Keys on the warlord list: move the cursor, choose, or go back.
pub open spec fn spec_select_daimyo(cursor: nat, key: Key, count: nat) -> (ScreenView, Command) {
    let here = ScreenView::SelectDaimyo { cursor };
    if count == 0 {
        (ScreenView::Title, Command::Idle)
    } else {
        match key {
            Key::Up => (ScreenView::SelectDaimyo { cursor: up(cursor) }, Command::Idle),
            Key::Down => if cursor < count - 1 {
                (ScreenView::SelectDaimyo { cursor: cursor + 1 }, Command::Idle)
            } else {
                (here, Command::Idle)
            },
            Key::Enter => (here, Command::ChooseDaimyo { index: cursor as usize }),
            Key::Esc => (ScreenView::Title, Command::Idle),
            _ => (here, Command::Idle),
        }
    }
}

/// Enter on the domestic menu.
pub open spec fn spec_domestic_enter(kuni: KuniId, cursor: nat, is_player_turn: bool) -> (ScreenView, Command) {
    match menu_command(cursor) {
        None => (dom(kuni, cursor, DomesticView::Normal), Command::Idle),
        Some(command) => if command != DomesticCommand::Exit && command != DomesticCommand::Information
            && !is_player_turn {
            (dom(kuni, cursor, dom_message("自分の手番ではありません"@)), Command::Idle)
        } else {
            match command {
                DomesticCommand::Exit => (dom(kuni, cursor, DomesticView::Normal), Command::Quit),
                DomesticCommand::Delegate => (
                    dom(kuni, cursor, dom_message("委任しました"@)),
                    Command::SetDelegation { kuni, delegate: true },
                ),
                DomesticCommand::Undelegate => (
                    dom(kuni, cursor, dom_message("委任を解除しました"@)),
                    Command::SetDelegation { kuni, delegate: false },
                ),
                DomesticCommand::Information => (
                    dom(kuni, cursor, dom_message("他国の情報を調査しました。1ターン経過しました。"@)),
                    Command::Information,
                ),
                DomesticCommand::War => (
                    dom(kuni, cursor, DomesticView::SelectTargetKuni { command, cursor: 0 }),
                    Command::Idle,
                ),
                DomesticCommand::Transport => (
                    dom(kuni, cursor, DomesticView::SelectTargetKuni { command, cursor: 0 }),
                    Command::Idle,
                ),
                _ => (
                    dom(kuni, cursor, DomesticView::InputAmount { command, input: Seq::empty() }),
                    Command::Idle,
                ),
            }
        }
    }
}

/// Keys on the domestic screen.
pub open spec fn spec_domestic(
    kuni: KuniId,
    cursor: nat,
    sub: DomesticView,
    key: Key,
    is_player_turn: bool,
    neighbors: Seq<KuniId>,
) -> (ScreenView, Command) {
    let here = dom(kuni, cursor, sub);
    match sub {
        DomesticView::Normal => match key {
            Key::Up => (dom(kuni, up(cursor), DomesticView::Normal), Command::Idle),
            Key::Down => if cursor < 12 {
                (dom(kuni, cursor + 1, DomesticView::Normal), Command::Idle)
            } else {
                (here, Command::Idle)
            },
            Key::Enter => spec_domestic_enter(kuni, cursor, is_player_turn),
            Key::Esc => (ScreenView::Title, Command::Idle),
            _ => (here, Command::Idle),
        },
        DomesticView::InputAmount { command, input } => match key {
            Key::Char(c) => if is_digit(c) {
                (dom(kuni, cursor, DomesticView::InputAmount { command, input: input.push(c) }), Command::Idle)
            } else {
                (here, Command::Idle)
            },
            Key::Backspace => (
                dom(kuni, cursor, DomesticView::InputAmount {
                    command,
                    input: if input.len() > 0 { input.drop_last() } else { input },
                }),
                Command::Idle,
            ),
            Key::Enter => match spec_parse_u32(input) {
                Some(v) => if v > 0 {
                    (here, Command::RunDomestic { kuni, command, amount: spec_from_display(v) })
                } else {
                    (dom(kuni, cursor, DomesticView::ShowMessage {
                        message: "1以上の数値を入力してください"@,
                        next_state: Box::new(sub),
                    }), Command::Idle)
                },
                None => (dom(kuni, cursor, DomesticView::ShowMessage {
                    message: "1以上の数値を入力してください"@,
                    next_state: Box::new(sub),
                }), Command::Idle),
            },
            Key::Esc => (dom(kuni, cursor, DomesticView::Normal), Command::Idle),
            _ => (here, Command::Idle),
        },
        DomesticView::SelectTargetKuni { command, cursor: target } => match key {
            Key::Up => (
                dom(kuni, cursor, DomesticView::SelectTargetKuni { command, cursor: up(target) }),
                Command::Idle,
            ),
            Key::Down => if neighbors.len() > 0 && target < neighbors.len() - 1 {
                (dom(kuni, cursor, DomesticView::SelectTargetKuni { command, cursor: target + 1 }), Command::Idle)
            } else {
                (here, Command::Idle)
            },
            Key::Enter => if target < neighbors.len() {
                if command == DomesticCommand::War {
                    (ScreenView::War {
                        attacker_kuni: kuni,
                        defender_kuni: neighbors[target as int],
                        cursor: 0,
                        sub_state: WarView::Normal,
                    }, Command::Idle)
                } else if command == DomesticCommand::Transport {
                    (here, Command::Transport {
                        from: kuni,
                        to: neighbors[target as int],
                        kin: transport_lot(),
                        hei: transport_lot(),
                        kome: transport_lot(),
                    })
                } else {
                    (here, Command::Idle)
                }
            } else {
                (here, Command::Idle)
            },
            Key::Esc => (dom(kuni, cursor, DomesticView::Normal), Command::Idle),
            _ => (here, Command::Idle),
        },
        DomesticView::ShowMessage { message, next_state } => match key {
            Key::Enter => (dom(kuni, cursor, *next_state), Command::Idle),
            Key::Esc => (dom(kuni, cursor, *next_state), Command::Idle),
            _ => (here, Command::Idle),
        },
    }
}

/// Keys on the war screen.
pub open spec fn spec_war(
    attacker: KuniId,
    defender: KuniId,
    cursor: nat,
    sub: WarView,
    key: Key,
    is_player_turn: bool,
) -> (ScreenView, Command) {
    let war = |c: nat, s: WarView|
        ScreenView::War { attacker_kuni: attacker, defender_kuni: defender, cursor: c, sub_state: s };
    let here = war(cursor, sub);
    match sub {
        WarView::Normal => match key {
            Key::Enter => (war(0, WarView::SelectTactic), Command::Idle),
            Key::Esc => (dom(attacker, 0, DomesticView::Normal), Command::Idle),
            _ => (here, Command::Idle),
        },
        WarView::SelectTactic => match key {
            Key::Up => (war(up(cursor), WarView::SelectTactic), Command::Idle),
            Key::Down => if cursor < 3 {
                (war(cursor + 1, WarView::SelectTactic), Command::Idle)
            } else {
                (here, Command::Idle)
            },
            Key::Enter => if !is_player_turn {
                (dom(attacker, 0, dom_message("自分の手番ではありません"@)), Command::Idle)
            } else {
                (here, Command::BattleRound {
                    attacker,
                    defender,
                    attacker_tactic: tactic_at(cursor),
                    defender_tactic: Tactic::Normal,
                    troops: troops_per_round(),
                })
            },
            Key::Esc => (war(0, WarView::Normal), Command::Idle),
            _ => (here, Command::Idle),
        },
        WarView::ShowMessage { message, next_state } => match key {
            Key::Enter => (war(0, *next_state), Command::Idle),
            Key::Esc => (war(0, *next_state), Command::Idle),
            _ => (here, Command::Idle),
        },
    }
}

/// The client's response to a key press.
pub open spec fn spec_handle_key(
    s: ScreenView,
    key: Key,
    count: nat,
    is_player_turn: bool,
    neighbors: Seq<KuniId>,
) -> (ScreenView, Command) {
    match s {
        ScreenView::Title => spec_title(key),
        ScreenView::SelectDaimyo { cursor } => spec_select_daimyo(cursor, key, count),
        ScreenView::Domestic { selected_kuni, cursor, sub_state } => spec_domestic(
            selected_kuni,
            cursor,
            sub_state,
            key,
            is_player_turn,
            neighbors,
        ),
        ScreenView::War { attacker_kuni, defender_kuni, cursor, sub_state } => spec_war(
            attacker_kuni,
            defender_kuni,
            cursor,
            sub_state,
            key,
            is_player_turn,
        ),
        ScreenView::GameOver { winner } => match key {
            Key::Enter => (ScreenView::Title, Command::Idle),
            Key::Esc => (ScreenView::Title, Command::Idle),
            _ => (s, Command::Idle),
        },
    }
}


/// A domestic message to dismiss back to the menu.
fn menu_message(text: &str) -> (r: DomesticSubState)
    ensures
        r.view() == dom_message(text@),
{
    let r = DomesticSubState::ShowMessage {
        message: String::from_str(text),
        next_state: Box::new(DomesticSubState::Normal),
    };
    assert(DomesticSubState::Normal.view() == DomesticView::Normal);
    r
}

fn menu_command_at(cursor: usize) -> (r: Option<DomesticCommand>)
    ensures
        r == menu_command(cursor as nat),
{
    match cursor {
        0 => Some(DomesticCommand::War),
        1 => Some(DomesticCommand::SellRice),
        2 => Some(DomesticCommand::BuyRice),
        3 => Some(DomesticCommand::Develop),
        4 => Some(DomesticCommand::BuildTown),
        5 => Some(DomesticCommand::Hire),
        6 => Some(DomesticCommand::Dismiss),
        7 => Some(DomesticCommand::Give),
        8 => Some(DomesticCommand::Transport),
        9 => Some(DomesticCommand::Delegate),
        10 => Some(DomesticCommand::Undelegate),
        11 => Some(DomesticCommand::Information),
        12 => Some(DomesticCommand::Exit),
        _ => None,
    }
}

fn domestic(kuni: KuniId, cursor: usize, sub_state: DomesticSubState) -> (r: ScreenState)
    ensures
        r.view() == dom(kuni, cursor as nat, sub_state.view()),
{
    ScreenState::Domestic { selected_kuni: kuni, cursor, sub_state }
}

impl EventHandler {
    /// The client's response to a key press: the next screen and what to do.
    pub fn handle_key(screen: ScreenState, key: Key, ctx: &KeyContext) -> (r: (ScreenState, Command))
        ensures
            (r.0.view(), r.1) == spec_handle_key(
                screen.view(),
                key,
                ctx.daimyo_count as nat,
                ctx.is_player_turn,
                ctx.neighbors@,
            ),
    {
        match screen {
            ScreenState::Title => Self::handle_title(key),
            ScreenState::SelectDaimyo { cursor } => Self::handle_select_daimyo(cursor, key, ctx.daimyo_count),
            ScreenState::Domestic { selected_kuni, cursor, sub_state } => Self::handle_domestic(
                selected_kuni,
                cursor,
                sub_state,
                key,
                ctx,
            ),
            ScreenState::War { attacker_kuni, defender_kuni, cursor, sub_state } => Self::handle_war(
                attacker_kuni,
                defender_kuni,
                cursor,
                sub_state,
                key,
                ctx.is_player_turn,
            ),
            ScreenState::GameOver { winner } => match key {
                Key::Enter | Key::Esc => (ScreenState::Title, Command::Idle),
                _ => (ScreenState::GameOver { winner }, Command::Idle),
            },
        }
    }

    fn handle_title(key: Key) -> (r: (ScreenState, Command))
        ensures
            (r.0.view(), r.1) == spec_title(key),
    {
        match key {
            Key::Enter => (ScreenState::SelectDaimyo { cursor: 0 }, Command::StartGame),
            Key::Esc => (ScreenState::Title, Command::Quit),
            Key::Char(c) => if c == 'q' {
                (ScreenState::Title, Command::Quit)
            } else {
                (ScreenState::Title, Command::Idle)
            },
            _ => (ScreenState::Title, Command::Idle),
        }
    }

    fn handle_select_daimyo(cursor: usize, key: Key, count: usize) -> (r: (ScreenState, Command))
        ensures
            (r.0.view(), r.1) == spec_select_daimyo(cursor as nat, key, count as nat),
    {
        if count == 0 {
            return (ScreenState::Title, Command::Idle);
        }
        match key {
            Key::Up => (
                ScreenState::SelectDaimyo { cursor: if cursor == 0 { 0 } else { cursor - 1 } },
                Command::Idle,
            ),
            Key::Down => if cursor < count - 1 {
                (ScreenState::SelectDaimyo { cursor: cursor + 1 }, Command::Idle)
            } else {
                (ScreenState::SelectDaimyo { cursor }, Command::Idle)
            },
            Key::Enter => (ScreenState::SelectDaimyo { cursor }, Command::ChooseDaimyo { index: cursor }),
            Key::Esc => (ScreenState::Title, Command::Idle),
            _ => (ScreenState::SelectDaimyo { cursor }, Command::Idle),
        }
    }

    fn handle_domestic_enter(kuni: KuniId, cursor: usize, is_player_turn: bool) -> (r: (
        ScreenState,
        Command,
    ))
        ensures
            (r.0.view(), r.1) == spec_domestic_enter(kuni, cursor as nat, is_player_turn),
    {
        let command = match menu_command_at(cursor) {
            Some(c) => c,
            None => {
                return (domestic(kuni, cursor, DomesticSubState::Normal), Command::Idle);
            },
        };
        if command != DomesticCommand::Exit && command != DomesticCommand::Information && !is_player_turn {
            return (domestic(kuni, cursor, menu_message("自分の手番ではありません")), Command::Idle);
        }
        match command {
            DomesticCommand::Exit => (domestic(kuni, cursor, DomesticSubState::Normal), Command::Quit),
            DomesticCommand::Delegate => (
                domestic(kuni, cursor, menu_message("委任しました")),
                Command::SetDelegation { kuni, delegate: true },
            ),
            DomesticCommand::Undelegate => (
                domestic(kuni, cursor, menu_message("委任を解除しました")),
                Command::SetDelegation { kuni, delegate: false },
            ),
            DomesticCommand::Information => (
                domestic(kuni, cursor, menu_message("他国の情報を調査しました。1ターン経過しました。")),
                Command::Information,
            ),
            DomesticCommand::War | DomesticCommand::Transport => (
                domestic(kuni, cursor, DomesticSubState::SelectTargetKuni { command, cursor: 0 }),
                Command::Idle,
            ),
            _ => {
                let input: Vec<char> = Vec::new();
                (domestic(kuni, cursor, DomesticSubState::InputAmount { command, input }), Command::Idle)
            },
        }
    }

    fn handle_domestic(
        kuni: KuniId,
        cursor: usize,
        sub_state: DomesticSubState,
        key: Key,
        ctx: &KeyContext,
    ) -> (r: (ScreenState, Command))
        ensures
            (r.0.view(), r.1) == spec_domestic(
                kuni,
                cursor as nat,
                sub_state.view(),
                key,
                ctx.is_player_turn,
                ctx.neighbors@,
            ),
    {
        let ghost sub_view = sub_state.view();
        match sub_state {
            DomesticSubState::Normal => match key {
                Key::Up => (
                    domestic(kuni, if cursor == 0 { 0 } else { cursor - 1 }, DomesticSubState::Normal),
                    Command::Idle,
                ),
                Key::Down => if cursor < 12 {
                    (domestic(kuni, cursor + 1, DomesticSubState::Normal), Command::Idle)
                } else {
                    (domestic(kuni, cursor, DomesticSubState::Normal), Command::Idle)
                },
                Key::Enter => Self::handle_domestic_enter(kuni, cursor, ctx.is_player_turn),
                Key::Esc => (ScreenState::Title, Command::Idle),
                _ => (domestic(kuni, cursor, DomesticSubState::Normal), Command::Idle),
            },
            DomesticSubState::InputAmount { command, mut input } => match key {
                Key::Char(c) => {
                    if '0' <= c && c <= '9' {
                        input.push(c);
                    }
                    (domestic(kuni, cursor, DomesticSubState::InputAmount { command, input }), Command::Idle)
                },
                Key::Backspace => {
                    if input.len() > 0 {
                        input.pop();
                    }
                    (domestic(kuni, cursor, DomesticSubState::InputAmount { command, input }), Command::Idle)
                },
                Key::Enter => {
                    match parse_u32(&input) {
                        Some(v) => if v > 0 {
                            return (
                                domestic(kuni, cursor, DomesticSubState::InputAmount { command, input }),
                                Command::RunDomestic { kuni, command, amount: Amount::from_display(v).value() },
                            );
                        },
                        None => {},
                    }
                    let next = DomesticSubState::InputAmount { command, input };
                    (domestic(kuni, cursor, DomesticSubState::ShowMessage {
                        message: String::from_str("1以上の数値を入力してください"),
                        next_state: Box::new(next),
                    }), Command::Idle)
                },
                Key::Esc => (domestic(kuni, cursor, DomesticSubState::Normal), Command::Idle),
                _ => (domestic(kuni, cursor, DomesticSubState::InputAmount { command, input }), Command::Idle),
            },
            DomesticSubState::SelectTargetKuni { command, cursor: target } => {
                let here = DomesticSubState::SelectTargetKuni { command, cursor: target };
                match key {
                    Key::Up => (
                        domestic(kuni, cursor, DomesticSubState::SelectTargetKuni {
                            command,
                            cursor: if target == 0 { 0 } else { target - 1 },
                        }),
                        Command::Idle,
                    ),
                    Key::Down => if ctx.neighbors.len() > 0 && target < ctx.neighbors.len() - 1 {
                        (domestic(kuni, cursor, DomesticSubState::SelectTargetKuni {
                            command,
                            cursor: target + 1,
                        }), Command::Idle)
                    } else {
                        (domestic(kuni, cursor, here), Command::Idle)
                    },
                    Key::Enter => if target < ctx.neighbors.len() {
                        let target_id = ctx.neighbors[target];
                        if command == DomesticCommand::War {
                            (ScreenState::War {
                                attacker_kuni: kuni,
                                defender_kuni: target_id,
                                cursor: 0,
                                sub_state: WarSubState::Normal,
                            }, Command::Idle)
                        } else if command == DomesticCommand::Transport {
                            (domestic(kuni, cursor, here), Command::Transport {
                                from: kuni,
                                to: target_id,
                                kin: 100,
                                hei: 100,
                                kome: 100,
                            })
                        } else {
                            (domestic(kuni, cursor, here), Command::Idle)
                        }
                    } else {
                        (domestic(kuni, cursor, here), Command::Idle)
                    },
                    Key::Esc => (domestic(kuni, cursor, DomesticSubState::Normal), Command::Idle),
                    _ => (domestic(kuni, cursor, here), Command::Idle),
                }
            },
            DomesticSubState::ShowMessage { message, next_state } => match key {
                Key::Enter | Key::Esc => (domestic(kuni, cursor, *next_state), Command::Idle),
                _ => (domestic(kuni, cursor, DomesticSubState::ShowMessage { message, next_state }), Command::Idle),
            },
        }
    }

    fn handle_war(
        attacker: KuniId,
        defender: KuniId,
        cursor: usize,
        sub_state: WarSubState,
        key: Key,
        is_player_turn: bool,
    ) -> (r: (ScreenState, Command))
        ensures
            (r.0.view(), r.1) == spec_war(attacker, defender, cursor as nat, sub_state.view(), key, is_player_turn),
    {
        match sub_state {
            WarSubState::Normal => match key {
                Key::Enter => (ScreenState::War {
                    attacker_kuni: attacker,
                    defender_kuni: defender,
                    cursor: 0,
                    sub_state: WarSubState::SelectTactic,
                }, Command::Idle),
                Key::Esc => (domestic(attacker, 0, DomesticSubState::Normal), Command::Idle),
                _ => (ScreenState::War {
                    attacker_kuni: attacker,
                    defender_kuni: defender,
                    cursor,
                    sub_state: WarSubState::Normal,
                }, Command::Idle),
            },
            WarSubState::SelectTactic => match key {
                Key::Up => (ScreenState::War {
                    attacker_kuni: attacker,
                    defender_kuni: defender,
                    cursor: if cursor == 0 { 0 } else { cursor - 1 },
                    sub_state: WarSubState::SelectTactic,
                }, Command::Idle),
                Key::Down => (ScreenState::War {
                    attacker_kuni: attacker,
                    defender_kuni: defender,
                    cursor: if cursor < 3 { cursor + 1 } else { cursor },
                    sub_state: WarSubState::SelectTactic,
                }, Command::Idle),
                Key::Enter => {
                    let tactic = match cursor {
                        0 => Tactic::Normal,
                        1 => Tactic::Surprise,
                        2 => Tactic::Fire,
                        3 => Tactic::Inspire,
                        _ => Tactic::Normal,
                    };
                    if !is_player_turn {
                        (domestic(attacker, 0, menu_message("自分の手番ではありません")), Command::Idle)
                    } else {
                        (ScreenState::War {
                            attacker_kuni: attacker,
                            defender_kuni: defender,
                            cursor,
                            sub_state: WarSubState::SelectTactic,
                        }, Command::BattleRound {
                            attacker,
                            defender,
                            attacker_tactic: tactic,
                            defender_tactic: Tactic::Normal,
                            troops: Amount::from_display(100).value(),
                        })
                    }
                },
                Key::Esc => (ScreenState::War {
                    attacker_kuni: attacker,
                    defender_kuni: defender,
                    cursor: 0,
                    sub_state: WarSubState::Normal,
                }, Command::Idle),
                _ => (ScreenState::War {
                    attacker_kuni: attacker,
                    defender_kuni: defender,
                    cursor,
                    sub_state: WarSubState::SelectTactic,
                }, Command::Idle),
            },
            WarSubState::ShowMessage { message, next_state } => match key {
                Key::Enter | Key::Esc => (ScreenState::War {
                    attacker_kuni: attacker,
                    defender_kuni: defender,
                    cursor: 0,
                    sub_state: *next_state,
                }, Command::Idle),
                _ => (ScreenState::War {
                    attacker_kuni: attacker,
                    defender_kuni: defender,
                    cursor,
                    sub_state: WarSubState::ShowMessage { message, next_state },
                }, Command::Idle),
            },
        }
    }
}


/// The name of a side as the battle report shows it.
pub open spec fn side_name(side: BattleSide) -> Seq<char> {
    match side {
        BattleSide::Attacker => "Attacker"@,
        BattleSide::Defender => "Defender"@,
    }
}

impl EventHandler {
    /// The screen after the player chose a warlord whose first province is
    /// `first_kuni`: that province's domestic menu, or the title when the
    /// warlord rules nothing.
    pub fn after_daimyo_chosen(first_kuni: Option<KuniId>) -> (r: ScreenState)
        ensures
            r.view() == (match first_kuni {
                Some(k) => dom(k, 0, DomesticView::Normal),
                None => ScreenView::Title,
            }),
    {
        match first_kuni {
            Some(k) => domestic(k, 0, DomesticSubState::Normal),
            None => ScreenState::Title,
        }
    }

    /// The screen after a domestic command on province `kuni` (menu line
    /// `cursor`) ended with `outcome` (a report, or the error's text), and
    /// whether the game must now complete the action and advance.
    pub fn after_domestic_command(kuni: KuniId, cursor: usize, outcome: Result<String, String>) -> (r: (
        ScreenState,
        bool,
    ))
        ensures
            r.0.view() == dom(kuni, cursor as nat, dom_message(match outcome {
                Ok(m) => m@,
                Err(e) => "エラー: "@ + e@,
            })),
            r.1 == outcome is Ok,
    {
        let ok = outcome.is_ok();
        let message = match outcome {
            Ok(m) => m,
            Err(e) => {
                let mut m = String::from_str("エラー: ");
                m.append(e.as_str());
                m
            },
        };
        assert(DomesticSubState::Normal.view() == DomesticView::Normal);
        (domestic(kuni, cursor, DomesticSubState::ShowMessage {
            message,
            next_state: Box::new(DomesticSubState::Normal),
        }), ok)
    }

    /// The screen after a transport from province `kuni` ended with
    /// `outcome`, and whether the game must now complete the action and
    /// advance.
    pub fn after_transport(kuni: KuniId, cursor: usize, outcome: Result<(), String>) -> (r: (
        ScreenState,
        bool,
    ))
        ensures
            r.0.view() == dom(kuni, cursor as nat, dom_message(match outcome {
                Ok(_) => "資源を輸送しました"@,
                Err(e) => "エラー: "@ + e@,
            })),
            r.1 == outcome is Ok,
    {
        match outcome {
            Ok(()) => (domestic(kuni, cursor, menu_message("資源を輸送しました")), true),
            Err(e) => Self::after_domestic_command(kuni, cursor, Err(e)),
        }
    }

    /// The screen after a round of battle that `winner` (if any) decided,
    /// and whether the game must now complete the action and advance: a
    /// finished battle returns to the attacker's domestic menu with the
    /// winner's name, an open one stays on the war screen.
    pub fn after_battle_round(attacker: KuniId, defender: KuniId, winner: Option<BattleSide>) -> (r: (
        ScreenState,
        bool,
    ))
        ensures
            r.0.view() == (match winner {
                Some(w) => dom(attacker, 0, dom_message("戦闘終了！勝者: "@ + side_name(w))),
                None => ScreenView::War {
                    attacker_kuni: attacker,
                    defender_kuni: defender,
                    cursor: 0,
                    sub_state: WarView::ShowMessage {
                        message: "激しい戦闘が繰り広げられた...！"@,
                        next_state: Box::new(WarView::Normal),
                    },
                },
            }),
            r.1 == winner is Some,
    {
        match winner {
            Some(w) => {
                let mut m = String::from_str("戦闘終了！勝者: ");
                match w {
                    BattleSide::Attacker => m.append("Attacker"),
                    BattleSide::Defender => m.append("Defender"),
                }
                assert(DomesticSubState::Normal.view() == DomesticView::Normal);
                (domestic(attacker, 0, DomesticSubState::ShowMessage {
                    message: m,
                    next_state: Box::new(DomesticSubState::Normal),
                }), true)
            },
            None => {
                let next = WarSubState::Normal;
                assert(next.view() == WarView::Normal);
                (ScreenState::War {
                    attacker_kuni: attacker,
                    defender_kuni: defender,
                    cursor: 0,
                    sub_state: WarSubState::ShowMessage {
                        message: String::from_str("激しい戦闘が繰り広げられた...！"),
                        next_state: Box::new(next),
                    },
                }, false)
            },
        }
    }
}

} // verus!
