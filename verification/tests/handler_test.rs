use sengoku::amount_input::parse_u32;
use sengoku::battle_service::{BattleSide, Tactic};
use sengoku::handler::{Command, EventHandler, Key, KeyContext};
use sengoku::screen::{DomesticCommand, DomesticSubState, ScreenState, WarSubState};
use sengoku::value_objects::{Amount, DaimyoId, KuniId};

fn ctx(turn: bool) -> KeyContext {
    KeyContext { daimyo_count: 3, is_player_turn: turn, neighbors: vec![KuniId(2), KuniId(3)] }
}

fn domestic(cursor: usize, sub_state: DomesticSubState) -> ScreenState {
    ScreenState::Domestic { selected_kuni: KuniId(1), cursor, sub_state }
}

fn message_of(s: &ScreenState) -> String {
    match s {
        ScreenState::Domestic { sub_state: DomesticSubState::ShowMessage { message, .. }, .. } => message.clone(),
        ScreenState::War { sub_state: WarSubState::ShowMessage { message, .. }, .. } => message.clone(),
        other => panic!("no message on {:?}", other),
    }
}

#[test]
fn parse_amounts() {
    let p = |s: &str| parse_u32(&s.chars().collect());
    assert_eq!(p("123"), Some(123));
    assert_eq!(p("+7"), Some(7));
    assert_eq!(p("007"), Some(7));
    assert_eq!(p(""), None);
    assert_eq!(p("+"), None);
    assert_eq!(p("1a"), None);
    assert_eq!(p("4294967295"), Some(u32::MAX));
    assert_eq!(p("4294967296"), None);
    assert_eq!(p("99999999999"), None);
}

#[test]
fn title_and_daimyo_selection() {
    let (s, c) = EventHandler::handle_key(ScreenState::Title, Key::Enter, &ctx(true));
    assert!(matches!(s, ScreenState::SelectDaimyo { cursor: 0 }));
    assert_eq!(c, Command::StartGame);
    let (_, c) = EventHandler::handle_key(ScreenState::Title, Key::Char('q'), &ctx(true));
    assert_eq!(c, Command::Quit);
    let (s, _) = EventHandler::handle_key(ScreenState::SelectDaimyo { cursor: 2 }, Key::Down, &ctx(true));
    assert!(matches!(s, ScreenState::SelectDaimyo { cursor: 2 }));
    let (s, c) = EventHandler::handle_key(ScreenState::SelectDaimyo { cursor: 1 }, Key::Enter, &ctx(true));
    assert!(matches!(s, ScreenState::SelectDaimyo { cursor: 1 }));
    assert_eq!(c, Command::ChooseDaimyo { index: 1 });
    let empty = KeyContext { daimyo_count: 0, is_player_turn: true, neighbors: vec![] };
    let (s, _) = EventHandler::handle_key(ScreenState::SelectDaimyo { cursor: 0 }, Key::Enter, &empty);
    assert!(matches!(s, ScreenState::Title));
    assert!(matches!(EventHandler::after_daimyo_chosen(Some(KuniId(4))), ScreenState::Domestic { selected_kuni: KuniId(4), cursor: 0, sub_state: DomesticSubState::Normal }));
    assert!(matches!(EventHandler::after_daimyo_chosen(None), ScreenState::Title));
}

#[test]
fn domestic_menu() {
    let (s, _) = EventHandler::handle_key(domestic(12, DomesticSubState::Normal), Key::Down, &ctx(true));
    assert!(matches!(s, ScreenState::Domestic { cursor: 12, .. }));
    let (s, c) = EventHandler::handle_key(domestic(1, DomesticSubState::Normal), Key::Enter, &ctx(true));
    assert!(matches!(s, ScreenState::Domestic { sub_state: DomesticSubState::InputAmount { command: DomesticCommand::SellRice, .. }, .. }));
    assert_eq!(c, Command::Idle);
    let (s, c) = EventHandler::handle_key(domestic(1, DomesticSubState::Normal), Key::Enter, &ctx(false));
    assert_eq!(message_of(&s), "自分の手番ではありません");
    assert_eq!(c, Command::Idle);
    let (s, c) = EventHandler::handle_key(domestic(9, DomesticSubState::Normal), Key::Enter, &ctx(true));
    assert_eq!(message_of(&s), "委任しました");
    assert_eq!(c, Command::SetDelegation { kuni: KuniId(1), delegate: true });
    let (_, c) = EventHandler::handle_key(domestic(12, DomesticSubState::Normal), Key::Enter, &ctx(false));
    assert_eq!(c, Command::Quit);
    let (s, c) = EventHandler::handle_key(domestic(11, DomesticSubState::Normal), Key::Enter, &ctx(false));
    assert_eq!(c, Command::Information);
    assert_eq!(message_of(&s), "他国の情報を調査しました。1ターン経過しました。");
}

#[test]
fn typing_an_amount() {
    let mut s = domestic(3, DomesticSubState::InputAmount { command: DomesticCommand::Develop, input: vec![] });
    for k in [Key::Char('4'), Key::Char('x'), Key::Char('2'), Key::Char('5'), Key::Backspace] {
        s = EventHandler::handle_key(s, k, &ctx(true)).0;
    }
    let (_, c) = EventHandler::handle_key(s, Key::Enter, &ctx(true));
    assert_eq!(c, Command::RunDomestic { kuni: KuniId(1), command: DomesticCommand::Develop, amount: 4200 });
    let zero = domestic(3, DomesticSubState::InputAmount { command: DomesticCommand::Develop, input: vec!['0'] });
    let (s, c) = EventHandler::handle_key(zero, Key::Enter, &ctx(true));
    assert_eq!(c, Command::Idle);
    assert_eq!(message_of(&s), "1以上の数値を入力してください");
    let (s, _) = EventHandler::handle_key(s, Key::Enter, &ctx(true));
    assert!(matches!(s, ScreenState::Domestic { sub_state: DomesticSubState::InputAmount { .. }, .. }));
}

#[test]
fn choosing_a_target() {
    let sel = |c| domestic(0, DomesticSubState::SelectTargetKuni { command: c, cursor: 1 });
    let (s, _) = EventHandler::handle_key(sel(DomesticCommand::War), Key::Enter, &ctx(true));
    assert!(matches!(s, ScreenState::War { attacker_kuni: KuniId(1), defender_kuni: KuniId(3), cursor: 0, sub_state: WarSubState::Normal }));
    let (_, c) = EventHandler::handle_key(sel(DomesticCommand::Transport), Key::Enter, &ctx(true));
    assert_eq!(c, Command::Transport { from: KuniId(1), to: KuniId(3), kin: 100, hei: 100, kome: 100 });
    let (s, _) = EventHandler::handle_key(sel(DomesticCommand::War), Key::Down, &ctx(true));
    assert!(matches!(s, ScreenState::Domestic { sub_state: DomesticSubState::SelectTargetKuni { cursor: 1, .. }, .. }));
}

#[test]
fn war_screen() {
    let war = |cursor, sub_state| ScreenState::War { attacker_kuni: KuniId(1), defender_kuni: KuniId(2), cursor, sub_state };
    let (s, _) = EventHandler::handle_key(war(0, WarSubState::Normal), Key::Enter, &ctx(true));
    assert!(matches!(s, ScreenState::War { sub_state: WarSubState::SelectTactic, .. }));
    let (_, c) = EventHandler::handle_key(war(2, WarSubState::SelectTactic), Key::Enter, &ctx(true));
    assert_eq!(c, Command::BattleRound { attacker: KuniId(1), defender: KuniId(2), attacker_tactic: Tactic::Fire, defender_tactic: Tactic::Normal, troops: 10000 });
    let (s, c) = EventHandler::handle_key(war(2, WarSubState::SelectTactic), Key::Enter, &ctx(false));
    assert_eq!(c, Command::Idle);
    assert_eq!(message_of(&s), "自分の手番ではありません");
    let (s, adv) = EventHandler::after_battle_round(KuniId(1), KuniId(2), Some(BattleSide::Attacker));
    assert!(adv);
    assert_eq!(message_of(&s), "戦闘終了！勝者: Attacker");
    let (s, adv) = EventHandler::after_battle_round(KuniId(1), KuniId(2), None);
    assert!(!adv);
    assert_eq!(message_of(&s), "激しい戦闘が繰り広げられた...！");
    let (s, _) = EventHandler::handle_key(s, Key::Esc, &ctx(true));
    assert!(matches!(s, ScreenState::War { sub_state: WarSubState::Normal, .. }));
}

#[test]
fn follow_ups() {
    let (s, adv) = EventHandler::after_domestic_command(KuniId(1), 2, Err("資源不足".to_string()));
    assert!(!adv);
    assert_eq!(message_of(&s), "エラー: 資源不足");
    let (s, adv) = EventHandler::after_domestic_command(KuniId(1), 2, Ok("完了".to_string()));
    assert!(adv);
    assert_eq!(message_of(&s), "完了");
    let (s, adv) = EventHandler::after_transport(KuniId(1), 8, Ok(()));
    assert!(adv);
    assert_eq!(message_of(&s), "資源を輸送しました");
    let (s, _) = EventHandler::handle_key(s, Key::Enter, &ctx(true));
    assert!(matches!(s, ScreenState::Domestic { cursor: 8, sub_state: DomesticSubState::Normal, .. }));
    let over = ScreenState::GameOver { winner: DaimyoId(1) };
    assert!(matches!(EventHandler::handle_key(over, Key::Enter, &ctx(true)).0, ScreenState::Title));
}

#[test]
fn typed_amounts_are_scaled_and_saturate() {
    let big: Vec<char> = "50000000".chars().collect();
    let s = domestic(3, DomesticSubState::InputAmount { command: DomesticCommand::Develop, input: big });
    let (_, c) = EventHandler::handle_key(s, Key::Enter, &ctx(true));
    assert_eq!(c, Command::RunDomestic { kuni: KuniId(1), command: DomesticCommand::Develop, amount: u32::MAX });
    assert_eq!(Amount::from_display(7).value(), 700);
    assert_eq!(Amount::new(1299).to_display(), 12);
}
