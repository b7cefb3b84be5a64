use sengoku::action_log::{decimal_string, ActionLogBook, render_event, ActionLogEvent, DomesticLogEvent, SeasonalEventType, WarLogEvent};
use sengoku::battle_service::Tactic;
use sengoku::value_objects::DaimyoId;

fn domestic(e: DomesticLogEvent) -> String {
    render_event(&ActionLogEvent::Domestic(e))
}

#[test]
fn decimal_numbers() {
    assert_eq!(decimal_string(0), "0");
    assert_eq!(decimal_string(7), "7");
    assert_eq!(decimal_string(10), "10");
    assert_eq!(decimal_string(1560), "1560");
    assert_eq!(decimal_string(u32::MAX), "4294967295");
}

#[test]
fn domestic_log_lines() {
    assert_eq!(
        domestic(DomesticLogEvent::RiceSold { kuni_name: "尾張".to_string(), gain: 150 }),
        "尾張：米を売却し、金150を得ました"
    );
    assert_eq!(
        domestic(DomesticLogEvent::RiceBought { kuni_name: "尾張".to_string(), cost: 80, amount: 50 }),
        "尾張：米を50購入しました（金80を消費）"
    );
    assert_eq!(
        domestic(DomesticLogEvent::LandReclaimed { kuni_name: "甲斐".to_string(), gain: 450 }),
        "甲斐：開墾し、石高が450上昇しました"
    );
    assert_eq!(
        domestic(DomesticLogEvent::TownDeveloped { kuni_name: "甲斐".to_string(), gain: 9 }),
        "甲斐：町を整備し、町が9上昇しました"
    );
    assert_eq!(domestic(DomesticLogEvent::TroopsDrafted { kuni_name: "駿河".to_string(), amount: 100 }), "駿河：兵を100徴募しました");
    assert_eq!(domestic(DomesticLogEvent::TroopsDismissed { kuni_name: "駿河".to_string(), amount: 5 }), "駿河：兵を5解雇しました");
    assert_eq!(
        domestic(DomesticLogEvent::CharityPerformed { kuni_name: "美濃".to_string(), gain_tyu: 3 }),
        "美濃：施しを行い、忠誠度が3上昇しました"
    );
    assert_eq!(
        domestic(DomesticLogEvent::ResourcesTransported {
            from_kuni: "尾張".to_string(),
            to_kuni: "美濃".to_string(),
            kin: 1,
            hei: 2,
            kome: 30
        }),
        "尾張→美濃：資源を輸送しました（金:1 兵:2 米:30）"
    );
    assert_eq!(
        domestic(DomesticLogEvent::DelegationChanged { kuni_name: "尾張".to_string(), enabled: true }),
        "尾張：委任をONにしました"
    );
    assert_eq!(
        domestic(DomesticLogEvent::DelegationChanged { kuni_name: "尾張".to_string(), enabled: false }),
        "尾張：委任をOFFにしました"
    );
    assert_eq!(
        domestic(DomesticLogEvent::CpuAction { daimyo_id: DaimyoId(2), action_msg: "開墾".to_string() }),
        "CPU (Daimyo=DaimyoId(2)): 開墾"
    );
}

#[test]
fn turn_start_names_the_season() {
    let line = |season: u32| domestic(DomesticLogEvent::TurnStart { turn: 12, season });
    assert_eq!(line(0), "第12ターン（春）が始まりました");
    assert_eq!(line(1), "第12ターン（夏）が始まりました");
    assert_eq!(line(2), "第12ターン（秋）が始まりました");
    assert_eq!(line(3), "第12ターン（冬）が始まりました");
    assert_eq!(line(9), "第12ターン（冬）が始まりました");
}

#[test]
fn seasonal_events_list_the_provinces() {
    let names = vec!["尾張".to_string(), "美濃".to_string(), "甲斐".to_string()];
    let line = |event_type: SeasonalEventType, kuni_names: Vec<String>| {
        domestic(DomesticLogEvent::SeasonalEvent { event_type, kuni_names })
    };
    assert_eq!(line(SeasonalEventType::Plague, names.clone()), "【疫病】疫病が発生しました：尾張、美濃、甲斐");
    assert_eq!(line(SeasonalEventType::Flood, vec!["尾張".to_string()]), "【洪水】洪水に見舞われました：尾張");
    assert_eq!(line(SeasonalEventType::Rebellion, Vec::new()), "【反乱】反乱が発生しました：");
    assert_eq!(line(SeasonalEventType::GoldIncome, names.clone()), "春の収穫：各地で金が徴収されました");
    assert_eq!(line(SeasonalEventType::RiceIncome, names.clone()), "秋の収穫：各地で米が増産されました");
    assert_eq!(line(SeasonalEventType::PopulationGrowth, names), "春の恵み：各地の人口が増加しました");
}

#[test]
fn war_log_lines() {
    assert_eq!(
        domestic(DomesticLogEvent::WarStarted { attacker_name: "甲斐".to_string(), defender_name: "信濃".to_string() }),
        "【合戦】甲斐 が 信濃 へ侵攻しました"
    );
    assert_eq!(
        domestic(DomesticLogEvent::WarAttackerOccupied { home_name: "甲斐".to_string(), occupied_name: "信濃".to_string() }),
        "【合戦】甲斐 が 信濃 を占領しました"
    );
    assert_eq!(
        domestic(DomesticLogEvent::WarDefenderDefended { defender_name: "信濃".to_string() }),
        "【合戦】信濃 が侵攻を退けました"
    );
    let war = |e: WarLogEvent| render_event(&ActionLogEvent::War(e));
    assert_eq!(war(WarLogEvent::CpuDefenderTactic { tactic: Tactic::Fire }), "CPU Defender Tactic: Fire");
    assert_eq!(
        war(WarLogEvent::Damage {
            attacker_tactic: Tactic::Surprise,
            defender_tactic: Tactic::Inspire,
            attacker_damage: 12,
            defender_damage: 340
        }),
        "自軍(奇襲)の被害: 12、敵軍(鼓舞)の被害: 340"
    );
    assert_eq!(
        war(WarLogEvent::AttackerVictory { home_name: "甲斐".to_string() }),
        "合戦終了：攻撃軍（甲斐から出陣）の勝利！領地を占領しました"
    );
    assert_eq!(war(WarLogEvent::DefenderVictory), "合戦終了：防衛軍の勝利");
    assert_eq!(
        war(WarLogEvent::WarStarted { attacker_name: "甲斐".to_string(), defender_name: "信濃".to_string() }),
        "甲斐 が 信濃 へ侵攻を開始しました"
    );
}

#[test]
fn the_log_book_gives_the_recent_lines() {
    let mut book = ActionLogBook::new();
    assert!(book.recent(5).is_empty());
    for turn in 1..=4 {
        book.record(ActionLogEvent::Domestic(DomesticLogEvent::TurnStart { turn, season: turn % 4 }));
    }
    assert_eq!(book.recent(2), vec!["第3ターン（冬）が始まりました".to_string(), "第4ターン（春）が始まりました".to_string()]);
    assert_eq!(book.recent(10).len(), 4);
    assert_eq!(book.recent(0).len(), 0);
}
