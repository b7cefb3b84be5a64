use sengoku::battle_service::{BattleService, Tactic};
use sengoku::cpu_decision::CpuDecision;
use sengoku::query_usecase::KuniQueryUseCase;
use sengoku::screen::{DomesticSubState, ScreenState, WarSubState};
use sengoku::screen_sync::screen_after_state;
use sengoku::error::DomainError;
use sengoku::game_rules::GamePhase;
use sengoku::daimyo::Daimyo;
use sengoku::game_lifecycle::{GameLifecycleUseCase, MasterData};
use sengoku::game_state::{GameState, WarStatus};
use sengoku::kuni_names::KuniNames;
use sengoku::info_usecase::InfoUseCase;
use sengoku::kuni::Kuni;
use sengoku::neighbor_repository::{InMemoryNeighborRepository, NeighborRepository};
use sengoku::repository::{DaimyoRepository, InMemoryDaimyoRepository, InMemoryKuniRepository, KuniRepository};
use sengoku::resource::{DevelopmentStats, Resource};
use sengoku::turn_progression::{CpuPlan, PlanDraws, ProgressStep, TurnProgressionUseCase};
use sengoku::value_objects::{DaimyoId, KuniId};

fn create_test_kuni(id: u32) -> Kuni {
    Kuni::new(
        KuniId(id),
        DaimyoId(id),
        Resource::new(100000, 10000, 100000, 100000),
        DevelopmentStats::new(10000, 10000, 60),
        false,
    )
}

fn repo_with(kunis: &[Kuni]) -> InMemoryKuniRepository {
    let mut repo = InMemoryKuniRepository::new();
    for k in kunis {
        repo.save(k);
    }
    repo
}

fn adjacent(a: u32, b: u32) -> InMemoryNeighborRepository {
    let mut n = InMemoryNeighborRepository::new();
    n.add_neighbor(KuniId(a), KuniId(b));
    n
}

#[test]
fn game_state_tracks_the_order() {
    assert!(matches!(GameState::new(1, vec![KuniId(1)], 2), Err(DomainError::InvalidState(_))));
    let mut s = GameState::new(3, vec![KuniId(1), KuniId(2)], 0).unwrap();
    assert_eq!(s.season(), 3);
    assert_eq!(s.current_kuni_id(), Some(KuniId(1)));
    assert!(s.check_turn(KuniId(1)).is_ok());
    s.mark_action_performed();
    s.advance_action();
    assert!(!s.is_action_performed());
    assert_eq!(s.current_kuni_id(), Some(KuniId(2)));
    s.advance_action();
    assert!(s.is_turn_completed());
    assert_eq!(s.current_kuni_id(), None);
    s.start_new_turn(vec![KuniId(2)]);
    assert_eq!(s.current_turn(), 4);
    assert_eq!(s.index, 0);
    assert_eq!(s.season(), 0);
}

#[test]
fn action_order_lists_every_province_once() {
    let kunis = vec![create_test_kuni(1), create_test_kuni(2), create_test_kuni(3)];
    let mut order = TurnProgressionUseCase::determine_action_order(&kunis);
    order.sort_by_key(|k| k.0);
    assert_eq!(order, vec![KuniId(1), KuniId(2), KuniId(3)]);
}

#[test]
fn completing_an_action_moves_to_the_next_province() {
    let mut repo = repo_with(&[create_test_kuni(1), create_test_kuni(2)]);
    let mut state = GameState::new(1, vec![KuniId(1), KuniId(2)], 0).unwrap();
    TurnProgressionUseCase::complete_current_action(&mut state, &mut repo, None).unwrap();
    assert_eq!(state.index, 1);
    assert_eq!(state.turn, 1);
    assert_eq!(state.phase, GamePhase::Domestic);
}

#[test]
fn completing_the_last_action_ends_the_turn() {
    let mut repo = repo_with(&[create_test_kuni(1), create_test_kuni(2)]);
    let mut state = GameState::new(1, vec![KuniId(1), KuniId(2)], 1).unwrap();
    TurnProgressionUseCase::complete_current_action(&mut state, &mut repo, None).unwrap();
    assert_eq!(state.turn, 2);
    assert_eq!(state.index, 0);
    let mut order = state.order.clone();
    order.sort_by_key(|k| k.0);
    assert_eq!(order, vec![KuniId(1), KuniId(2)]);
    assert_eq!(repo.find_all().len(), 2);
}

#[test]
fn finishing_a_turn_refuses_overflow() {
    let mut big = create_test_kuni(1);
    big.resource.jinko = sengoku::value_objects::Amount::new(u32::MAX);
    let mut repo = repo_with(&[big]);
    let mut state = GameState::new(1, vec![KuniId(1)], 1).unwrap();
    match TurnProgressionUseCase::finish_turn(&mut state, &mut repo, None).unwrap_err() {
        DomainError::InvalidState(m) => assert_eq!(m, "季節の処理で値が上限を超えます"),
        other => panic!("{:?}", other),
    }
    assert_eq!(state.turn, 1);
    assert_eq!(repo.find_by_id(&KuniId(1)), Some(big));
}

#[test]
fn cpu_domestic_action_is_taken_once() {
    let mut repo = repo_with(&[create_test_kuni(1), create_test_kuni(2)]);
    let neighbors = adjacent(1, 2);
    let mut state = GameState::new(1, vec![KuniId(1), KuniId(2)], 0).unwrap();
    let plan = CpuPlan::Domestic(CpuDecision::Recruit { amount: 100 });
    TurnProgressionUseCase::execute_cpu_action(&mut state, &mut repo, &neighbors, KuniId(1), plan, None).unwrap();
    assert!(state.action_performed);
    assert_eq!(repo.find_by_id(&KuniId(1)).unwrap().resource.hei.value(), 10100);
    TurnProgressionUseCase::execute_cpu_action(&mut state, &mut repo, &neighbors, KuniId(1), plan, None).unwrap();
    assert_eq!(repo.find_by_id(&KuniId(1)).unwrap().resource.hei.value(), 10100);
}

#[test]
fn cpu_sell_rice_uses_the_drawn_price() {
    let mut repo = repo_with(&[create_test_kuni(1)]);
    let neighbors = InMemoryNeighborRepository::new();
    let mut state = GameState::new(1, vec![KuniId(1)], 0).unwrap();
    let plan = CpuPlan::Domestic(CpuDecision::SellRice { amount: 100, bias: 15 });
    TurnProgressionUseCase::execute_cpu_action(&mut state, &mut repo, &neighbors, KuniId(1), plan, None).unwrap();
    let k = repo.find_by_id(&KuniId(1)).unwrap();
    assert_eq!(k.resource.kome.value(), 99900);
    assert_eq!(k.resource.kin.value(), 100150);
}

#[test]
fn cpu_invasion_of_the_player_starts_a_battle() {
    let mut repo = repo_with(&[create_test_kuni(1), create_test_kuni(2)]);
    let neighbors = adjacent(1, 2);
    let mut state = GameState::new(1, vec![KuniId(2), KuniId(1)], 0).unwrap();
    let plan = CpuPlan::Invade { target: KuniId(1), troops: 500 };
    TurnProgressionUseCase::execute_cpu_action(&mut state, &mut repo, &neighbors, KuniId(2), plan, Some(DaimyoId(1)))
        .unwrap();
    assert_eq!(state.phase, GamePhase::Battle);
    assert_eq!(state.war, Some(WarStatus { attacker: KuniId(2), defender: KuniId(1), troops: 500 }));
    assert_eq!(repo.find_by_id(&KuniId(1)), Some(create_test_kuni(1)));
}

#[test]
fn cpu_invasion_of_a_cpu_conquers_a_weak_province() {
    let mut weak = create_test_kuni(2);
    weak.resource = Resource::new(1000, 100, 1000, 1000);
    let mut repo = repo_with(&[create_test_kuni(1), weak]);
    let neighbors = adjacent(1, 2);
    let mut state = GameState::new(1, vec![KuniId(1), KuniId(2)], 0).unwrap();
    let plan = CpuPlan::Invade { target: KuniId(2), troops: 100 };
    TurnProgressionUseCase::execute_cpu_action(&mut state, &mut repo, &neighbors, KuniId(1), plan, Some(DaimyoId(7)))
        .unwrap();
    assert_eq!(repo.find_by_id(&KuniId(2)).unwrap().daimyo_id, DaimyoId(1));
    assert_eq!(state.phase, GamePhase::Domestic);
    let far = CpuPlan::Invade { target: KuniId(2), troops: 100 };
    let mut other = GameState::new(1, vec![KuniId(1)], 0).unwrap();
    let lone = InMemoryNeighborRepository::new();
    assert!(matches!(
        TurnProgressionUseCase::execute_cpu_action(&mut other, &mut repo, &lone, KuniId(1), far, None),
        Err(DomainError::NotAdjacent)
    ));
    assert!(!other.action_performed);
}

#[test]
fn progress_stops_at_the_player() {
    let mut repo = repo_with(&[create_test_kuni(1), create_test_kuni(2)]);
    let neighbors = adjacent(1, 2);
    let mut state = GameState::new(1, vec![KuniId(2), KuniId(1)], 0).unwrap();
    let rest = CpuPlan::Domestic(CpuDecision::Rest);
    let step = TurnProgressionUseCase::progress(&mut state, &mut repo, &neighbors, rest, Some(DaimyoId(1))).unwrap();
    assert_eq!(step, ProgressStep::CpuActed);
    assert_eq!(state.current_kuni_id(), Some(KuniId(1)));
    let step = TurnProgressionUseCase::progress(&mut state, &mut repo, &neighbors, rest, Some(DaimyoId(1))).unwrap();
    assert_eq!(step, ProgressStep::PlayerTurn);
    assert_eq!(state.index, 1);
}

#[test]
fn progress_finishes_a_completed_turn() {
    let mut repo = repo_with(&[create_test_kuni(1)]);
    let neighbors = InMemoryNeighborRepository::new();
    let mut state = GameState::new(1, vec![KuniId(1)], 1).unwrap();
    let rest = CpuPlan::Domestic(CpuDecision::Rest);
    let step = TurnProgressionUseCase::progress(&mut state, &mut repo, &neighbors, rest, Some(DaimyoId(1))).unwrap();
    assert_eq!(step, ProgressStep::TurnFinished);
    assert_eq!(state.turn, 2);
    assert_eq!(state.order, vec![KuniId(1)]);
    state.set_phase(GamePhase::Battle);
    let step = TurnProgressionUseCase::progress(&mut state, &mut repo, &neighbors, rest, None).unwrap();
    assert_eq!(step, ProgressStep::Stopped);
    assert_eq!(state.turn, 2);
}

#[test]
fn conquest_by_the_player_clears_the_game() {
    let mut weak = create_test_kuni(2);
    weak.resource = Resource::new(1000, 100, 1000, 1000);
    let mut repo = repo_with(&[create_test_kuni(1), weak]);
    let neighbors = adjacent(1, 2);
    let mut state = GameState::new(1, vec![KuniId(1), KuniId(2)], 0).unwrap();
    let plan = CpuPlan::Invade { target: KuniId(2), troops: 100 };
    TurnProgressionUseCase::execute_cpu_action(&mut state, &mut repo, &neighbors, KuniId(1), plan, Some(DaimyoId(1)))
        .unwrap();
    TurnProgressionUseCase::complete_current_action(&mut state, &mut repo, Some(DaimyoId(1))).unwrap();
    assert_eq!(state.phase, GamePhase::GameClear);
    assert_eq!(state.winner, Some(DaimyoId(1)));
}

fn names_of(ids: &[(u32, &str)]) -> KuniNames {
    let mut names = KuniNames::new();
    for (id, name) in ids {
        names.set(KuniId(*id), name);
    }
    names
}

fn daimyos_of(list: &[(u32, &str)]) -> InMemoryDaimyoRepository {
    let mut repo = InMemoryDaimyoRepository::new();
    for (id, name) in list {
        repo.save(&Daimyo::new(DaimyoId(*id), name));
    }
    repo
}

#[test]
fn player_status_lists_provinces_and_invasions() {
    let mut other = create_test_kuni(3);
    other.set_daimyo_id(DaimyoId(1));
    let repo = repo_with(&[create_test_kuni(1), create_test_kuni(2), other]);
    let query = KuniQueryUseCase::new(repo, adjacent(1, 2));
    let names = names_of(&[(1, "尾張"), (2, "甲斐")]);
    let daimyos = daimyos_of(&[(1, "織田信長"), (2, "武田信玄")]);
    let mut state = GameState::new(4, vec![KuniId(2), KuniId(1)], 0).unwrap();
    state.set_phase(GamePhase::Battle);
    state.war = Some(WarStatus { attacker: KuniId(2), defender: KuniId(1), troops: 5000 });
    let status = query.get_player_status(&state, &DaimyoId(1), &names, &daimyos).unwrap();
    assert_eq!(status.current_turn, 4);
    assert_eq!(status.current_daimyo_name, "武田信玄");
    let mut rows: Vec<(u32, String, u32, u32, u32)> =
        status.kunis.iter().map(|k| (k.id.0, k.name.clone(), k.kin, k.hei, k.tyu)).collect();
    rows.sort();
    assert_eq!(rows, vec![(1, "尾張".to_string(), 1000, 100, 60), (3, "不明".to_string(), 1000, 100, 60)]);
    assert_eq!(status.defense_alerts.len(), 1);
    assert_eq!(status.defense_alerts[0].attacker_kuni_name, "甲斐");
    assert_eq!(status.defense_alerts[0].defender_kuni_name, "尾張");
    assert_eq!(status.defense_alerts[0].enemy_hei, 50);
    let calm = query.get_player_status(&state, &DaimyoId(2), &names, &daimyos).unwrap();
    assert!(calm.defense_alerts.is_empty());
    let lost = GameState::new(4, vec![KuniId(8)], 0).unwrap();
    match query.get_player_status(&lost, &DaimyoId(1), &names, &daimyos).unwrap_err() {
        DomainError::NotFound(m) => assert_eq!(m, "手番の国が見つかりません"),
        other => panic!("{:?}", other),
    }
    let unknown = daimyos_of(&[(1, "織田信長")]);
    match query.get_player_status(&state, &DaimyoId(1), &names, &unknown).unwrap_err() {
        DomainError::NotFound(m) => assert_eq!(m, "手番の大名が見つかりません"),
        other => panic!("{:?}", other),
    }
    let done = GameState::new(4, vec![KuniId(8)], 1).unwrap();
    assert_eq!(query.get_player_status(&done, &DaimyoId(1), &names, &daimyos).unwrap().current_daimyo_name, "不明");
}

#[test]
fn screen_follows_the_game() {
    let repo = repo_with(&[create_test_kuni(1), create_test_kuni(2)]);
    let mut state = GameState::new(1, vec![KuniId(2), KuniId(1)], 1).unwrap();
    let shown = ScreenState::Domestic { selected_kuni: KuniId(2), cursor: 3, sub_state: DomesticSubState::Normal };
    match screen_after_state(shown, &state, &repo, Some(DaimyoId(1))) {
        ScreenState::Domestic { selected_kuni, cursor, .. } => {
            assert_eq!(selected_kuni, KuniId(1));
            assert_eq!(cursor, 3);
        }
        other => panic!("{:?}", other),
    }
    state.set_phase(GamePhase::Battle);
    state.war = Some(WarStatus { attacker: KuniId(2), defender: KuniId(1), troops: 100 });
    let shown = ScreenState::Domestic { selected_kuni: KuniId(1), cursor: 0, sub_state: DomesticSubState::Normal };
    match screen_after_state(shown, &state, &repo, Some(DaimyoId(1))) {
        ScreenState::War { attacker_kuni, defender_kuni, cursor, sub_state: WarSubState::Normal } => {
            assert_eq!((attacker_kuni, defender_kuni, cursor), (KuniId(2), KuniId(1), 0));
        }
        other => panic!("{:?}", other),
    }
    let in_battle = ScreenState::War { attacker_kuni: KuniId(2), defender_kuni: KuniId(1), cursor: 2, sub_state: WarSubState::SelectTactic };
    match screen_after_state(in_battle, &state, &repo, Some(DaimyoId(1))) {
        ScreenState::War { cursor, sub_state: WarSubState::SelectTactic, .. } => assert_eq!(cursor, 2),
        other => panic!("{:?}", other),
    }
    state.set_phase(GamePhase::GameOver);
    state.set_winner(DaimyoId(2));
    let shown = ScreenState::Domestic { selected_kuni: KuniId(1), cursor: 0, sub_state: DomesticSubState::Normal };
    assert!(matches!(screen_after_state(shown, &state, &repo, Some(DaimyoId(1))), ScreenState::GameOver { winner: DaimyoId(2) }));
    state.war = None;
    assert!(matches!(screen_after_state(ScreenState::Title, &state, &repo, Some(DaimyoId(1))), ScreenState::Title));
}

#[test]
fn round_fits_matches_the_rules() {
    let a = create_test_kuni(1);
    let d = create_test_kuni(2);
    assert!(BattleService::round_fits(&a, &d, Tactic::Normal, Tactic::Normal, 100));
    assert!(!BattleService::round_fits(&a, &d, Tactic::Normal, Tactic::Normal, u32::MAX / 100));
    assert!(BattleService::round_fits(&a, &d, Tactic::Inspire, Tactic::Fire, u32::MAX / 100));
    let mut odd = create_test_kuni(1);
    odd.stats.tyu = sengoku::value_objects::Rate::new(0x8000_0005);
    assert!(BattleService::round_fits(&odd, &d, Tactic::Normal, Tactic::Normal, 100));
    assert!(!BattleService::round_fits(&odd, &d, Tactic::Surprise, Tactic::Surprise, 100));
}

#[test]
fn progress_until_the_player_is_to_act() {
    let mut repo = repo_with(&[create_test_kuni(1), create_test_kuni(2)]);
    let neighbors = adjacent(1, 2);
    let mut state = GameState::new(1, vec![KuniId(2), KuniId(1)], 0).unwrap();
    TurnProgressionUseCase::progress_until_player_turn(&mut state, &mut repo, &neighbors, DaimyoId(1), 100).unwrap();
    assert_eq!(state.current_kuni_id(), Some(KuniId(1)));
    assert_eq!(state.index, 1);
    assert_eq!(state.turn, 1);
}

#[test]
fn progress_until_player_turn_gives_up() {
    let mut repo = repo_with(&[create_test_kuni(1), create_test_kuni(2), create_test_kuni(3)]);
    let neighbors = InMemoryNeighborRepository::new();
    let mut state = GameState::new(1, vec![KuniId(2), KuniId(3)], 0).unwrap();
    let result = TurnProgressionUseCase::progress_until_player_turn(&mut state, &mut repo, &neighbors, DaimyoId(1), 1);
    assert!(result.unwrap_err().message().contains("プレイヤーの手番に到達できませんでした"));
    assert_eq!(state.index, 1);
    let mut state = GameState::new(1, vec![KuniId(2)], 0).unwrap();
    let mut lone = repo_with(&[create_test_kuni(2)]);
    TurnProgressionUseCase::progress_until_player_turn(&mut state, &mut lone, &neighbors, DaimyoId(9), 10).unwrap();
    assert_eq!(state.phase, GamePhase::GameOver);
}

#[test]
fn spying_lists_other_warlords_and_takes_the_action() {
    let mut own = create_test_kuni(3);
    own.set_daimyo_id(DaimyoId(1));
    let mut repo = repo_with(&[create_test_kuni(1), create_test_kuni(2), own]);
    let names = names_of(&[(2, "甲斐")]);
    let daimyos = daimyos_of(&[(1, "織田信長"), (2, "武田信玄")]);
    let mut wrong = GameState::new(1, vec![KuniId(2), KuniId(1)], 0).unwrap();
    assert!(matches!(
        InfoUseCase::get_other_countries_info(&mut wrong, &mut repo, &daimyos, &names, DaimyoId(1), Some(DaimyoId(1))),
        Err(DomainError::NotYourTurn)
    ));
    assert_eq!(wrong.index, 0);
    let mut state = GameState::new(1, vec![KuniId(1), KuniId(2), KuniId(3)], 0).unwrap();
    let others =
        InfoUseCase::get_other_countries_info(&mut state, &mut repo, &daimyos, &names, DaimyoId(1), Some(DaimyoId(1)))
            .unwrap();
    assert_eq!(others.len(), 1);
    assert_eq!((others[0].kuni_id, others[0].kuni_name.as_str(), others[0].daimyo_name.as_str()), (2, "甲斐", "武田信玄"));
    assert_eq!(state.index, 1);
    let mut done = GameState::new(1, vec![KuniId(1)], 1).unwrap();
    match InfoUseCase::get_other_countries_info(&mut done, &mut repo, &daimyos, &names, DaimyoId(1), None).unwrap_err() {
        DomainError::InvalidState(m) => assert_eq!(m, "現在の手番の国が見つかりません"),
        other => panic!("{:?}", other),
    }
    assert_eq!(done.index, 1);
    let mut state = GameState::new(1, vec![KuniId(1), KuniId(2)], 0).unwrap();
    let lonely = daimyos_of(&[(1, "織田信長")]);
    match InfoUseCase::get_other_countries_info(&mut state, &mut repo, &lonely, &names, DaimyoId(1), None).unwrap_err() {
        DomainError::NotFound(m) => assert_eq!(m, "大名が見つかりません: DaimyoId(2)"),
        other => panic!("{:?}", other),
    }
    assert_eq!(state.index, 0);
}

#[test]
fn test_get_other_countries_info() {
    let player_id = DaimyoId(1);
    let enemy_id = DaimyoId(2);
    let daimyos = daimyos_of(&[(1, "プレイヤー"), (2, "敵大名")]);
    let player_kuni = Kuni::new(
        KuniId(1),
        player_id,
        Resource::new(100 * 100, 10 * 100, 100 * 100, 500 * 100),
        DevelopmentStats::new(10 * 100, 10 * 100, 100),
        false,
    );
    let enemy_kuni = Kuni::new(
        KuniId(10),
        enemy_id,
        Resource::new(1000 * 100, 500 * 100, 1000 * 100, 2000 * 100),
        DevelopmentStats::new(200 * 100, 150 * 100, 80),
        false,
    );
    let mut repo = repo_with(&[player_kuni, enemy_kuni]);
    let names = names_of(&[(1, "プレイヤー国"), (10, "敵国")]);
    let mut state = GameState::new(1, vec![KuniId(1), KuniId(10)], 0).unwrap();

    let result =
        InfoUseCase::get_other_countries_info(&mut state, &mut repo, &daimyos, &names, player_id, Some(player_id)).unwrap();

    assert_eq!(result.len(), 1);
    assert_eq!(result[0].kuni_id, 10);
    assert_eq!(result[0].kuni_name, "敵国");
    assert_eq!(result[0].daimyo_name, "敵大名");
    assert_eq!(result[0].kin, 1000);
    assert_eq!(result[0].kome, 1000);
    assert_eq!(result[0].hei, 500);
    assert_eq!(result[0].kokudaka, 200);
    assert_eq!(result[0].towns, 150);
    assert_eq!(result[0].tyu, 80);
    assert_eq!(state.index, 1);
}

#[test]
fn test_game_lifecycle_reset_game() {
    let mut kuni_repo = InMemoryKuniRepository::new();
    let mut daimyo_repo = InMemoryDaimyoRepository::new();
    let mut neighbor_repo = InMemoryNeighborRepository::new();

    // 1. データのセットアップ
    let kuni1 = create_test_kuni(1);
    let kuni2 = create_test_kuni(2);
    kuni_repo.save(&kuni1);
    kuni_repo.save(&kuni2);
    daimyo_repo.save(&Daimyo::new(DaimyoId(1), "大名1"));
    neighbor_repo.add_neighbor(kuni1.id, kuni2.id);
    let mut state = GameState::new(2, vec![kuni1.id, kuni2.id], 1).unwrap();

    // 2. リセット実行
    let mut names = names_of(&[(1, "TestKuni-1")]);
    let master = MasterData { kunis: Vec::new(), names: Vec::new(), daimyos: Vec::new(), adjacency: Vec::new() };
    GameLifecycleUseCase::reset_game(&mut state, &mut kuni_repo, &mut daimyo_repo, &mut neighbor_repo, &mut names, master);
    assert_eq!(names.name_of(KuniId(1)), "不明");

    // 3. 検証
    assert_eq!(state.current_turn(), 1);
    assert!(state.order.is_empty());
    assert!(kuni_repo.find_all().is_empty());
    assert!(daimyo_repo.find_all().is_empty());
    assert!(state.war.is_none());
    assert!(neighbor_repo.get_neighbors(&kuni1.id).is_empty());
}

#[test]
fn reset_game_stores_the_master_data() {
    let mut kuni_repo = repo_with(&[create_test_kuni(9)]);
    let mut daimyo_repo = InMemoryDaimyoRepository::new();
    let mut neighbor_repo = adjacent(7, 9);
    let mut state = GameState::new(5, vec![KuniId(9)], 0).unwrap();
    let master = MasterData {
        kunis: vec![create_test_kuni(1), create_test_kuni(2)],
        names: vec![(KuniId(1), "尾張".to_string()), (KuniId(1), "美濃".to_string())],
        daimyos: vec![Daimyo::new(DaimyoId(1), "織田信長")],
        adjacency: vec![(KuniId(1), KuniId(2)), (KuniId(2), KuniId(1))],
    };
    let mut names = names_of(&[(9, "信濃")]);
    GameLifecycleUseCase::reset_game(&mut state, &mut kuni_repo, &mut daimyo_repo, &mut neighbor_repo, &mut names, master);
    assert_eq!(names.name_of(KuniId(1)), "美濃");
    assert_eq!(names.name_of(KuniId(9)), "不明");
    assert_eq!(kuni_repo.find_by_id(&KuniId(9)), None);
    assert_eq!(kuni_repo.find_by_id(&KuniId(2)), Some(create_test_kuni(2)));
    assert_eq!(daimyo_repo.find_all().len(), 1);
    assert_eq!(neighbor_repo.get_neighbors(&KuniId(1)), vec![KuniId(2)]);
    assert!(neighbor_repo.get_neighbors(&KuniId(7)).is_empty());
    assert_eq!(state.turn, 1);
}

#[test]
fn drawn_plans_are_playable() {
    let strong = create_test_kuni(1);
    let mut weak = create_test_kuni(2);
    weak.resource = Resource::new(1000, 100, 1000, 1000);
    let mut seen_invasion = false;
    for _ in 0..200 {
        match TurnProgressionUseCase::draw_cpu_plan(&strong, &vec![weak]) {
            CpuPlan::Invade { target, troops } => {
                assert_eq!(target, KuniId(2));
                assert_eq!(troops, 5000);
                seen_invasion = true;
            }
            CpuPlan::Domestic(CpuDecision::DevelopLand { amount, multiplier })
            | CpuPlan::Domestic(CpuDecision::BuildTown { amount, multiplier }) => {
                assert_eq!(amount, 10000);
                assert!((45..=54).contains(&multiplier));
            }
            CpuPlan::Domestic(CpuDecision::GiveCharity { amount, multiplier }) => {
                assert_eq!(amount, 1000);
                assert!((5..=10).contains(&multiplier));
            }
            CpuPlan::Domestic(CpuDecision::Rest) => {}
            other => panic!("{:?}", other),
        }
        assert!(!matches!(
            TurnProgressionUseCase::draw_cpu_plan(&strong, &vec![create_test_kuni(3)]),
            CpuPlan::Invade { .. }
        ));
    }
    assert!(seen_invasion);
}

#[test]
fn cpu_war_is_fought_to_a_result() {
    let mut middling = create_test_kuni(2);
    middling.resource = Resource::new(100000, 1000, 100000, 100000);
    let mut repo = repo_with(&[create_test_kuni(1), middling]);
    let neighbors = adjacent(1, 2);
    let mut state = GameState::new(1, vec![KuniId(1), KuniId(2)], 0).unwrap();
    let plan = CpuPlan::Invade { target: KuniId(2), troops: 100 };
    TurnProgressionUseCase::execute_cpu_action(&mut state, &mut repo, &neighbors, KuniId(1), plan, None).unwrap();
    // 1000 troops fall by 180 a round: the sixth round takes the province.
    let taken = repo.find_by_id(&KuniId(2)).unwrap();
    assert_eq!(taken.daimyo_id, DaimyoId(1));
    assert_eq!(taken.resource.hei.value(), 0);
    assert_eq!(repo.find_by_id(&KuniId(1)).unwrap().resource.kome.value(), 100000 - 6 * 30 + 100000);
}

#[test]
fn plans_follow_the_draws() {
    let strong = create_test_kuni(1);
    let mut weak = create_test_kuni(2);
    weak.resource = Resource::new(1000, 100, 1000, 1000);
    let draws = |invade_roll, roll| PlanDraws { invade_roll, roll, multiplier: 50, charity: 7 };
    assert_eq!(
        TurnProgressionUseCase::plan_from_draws(&strong, &vec![create_test_kuni(3), weak], draws(0, 0)),
        CpuPlan::Invade { target: KuniId(2), troops: 5000 }
    );
    assert_eq!(
        TurnProgressionUseCase::plan_from_draws(&strong, &vec![weak], draws(1, 0)),
        CpuPlan::Domestic(CpuDecision::DevelopLand { amount: 10000, multiplier: 50 })
    );
    assert_eq!(
        TurnProgressionUseCase::plan_from_draws(&strong, &vec![], draws(0, 1)),
        CpuPlan::Domestic(CpuDecision::BuildTown { amount: 10000, multiplier: 50 })
    );
    assert_eq!(
        TurnProgressionUseCase::plan_from_draws(&strong, &vec![], draws(0, 2)),
        CpuPlan::Domestic(CpuDecision::GiveCharity { amount: 1000, multiplier: 7 })
    );
    assert_eq!(TurnProgressionUseCase::plan_from_draws(&strong, &vec![], draws(0, 3)), CpuPlan::Domestic(CpuDecision::Rest));
}

#[test]
fn auto_action_plays_the_players_province() {
    let mut repo = repo_with(&[create_test_kuni(1), create_test_kuni(2)]);
    let neighbors = InMemoryNeighborRepository::new();
    let mut state = GameState::new(1, vec![KuniId(1), KuniId(2)], 0).unwrap();
    TurnProgressionUseCase::auto_action(&mut state, &mut repo, &neighbors, Some(DaimyoId(1))).unwrap();
    assert_eq!(state.index, 1);
    assert!(!state.action_performed);
    let mut done = GameState::new(1, vec![KuniId(1)], 1).unwrap();
    match TurnProgressionUseCase::auto_action(&mut done, &mut repo, &neighbors, None).unwrap_err() {
        DomainError::InvalidState(m) => assert_eq!(m, "現在の手番の国が見つかりません"),
        other => panic!("{:?}", other),
    }
}

#[test]
fn cpu_action_and_advance() {
    let mut repo = repo_with(&[create_test_kuni(1), create_test_kuni(2)]);
    let neighbors = InMemoryNeighborRepository::new();
    let mut state = GameState::new(1, vec![KuniId(1), KuniId(2)], 0).unwrap();
    let plan = CpuPlan::Domestic(CpuDecision::Dismiss { amount: 100 });
    TurnProgressionUseCase::execute_cpu_action_and_advance(&mut state, &mut repo, &neighbors, KuniId(1), plan, None).unwrap();
    assert_eq!(state.index, 1);
    assert_eq!(repo.find_by_id(&KuniId(1)).unwrap().resource.hei.value(), 9900);
    assert!(matches!(
        TurnProgressionUseCase::execute_cpu_action_and_advance(&mut state, &mut repo, &neighbors, KuniId(9), plan, None),
        Err(DomainError::NotFound(_))
    ));
    assert_eq!(state.index, 1);
}

#[test]
fn a_new_game_starts_at_turn_one() {
    let repo = repo_with(&[create_test_kuni(1), create_test_kuni(2), create_test_kuni(3)]);
    let state = TurnProgressionUseCase::start_game(&repo);
    assert_eq!((state.turn, state.index, state.action_performed), (1, 0, false));
    assert_eq!(state.phase, GamePhase::Domestic);
    let mut order = state.order.clone();
    order.sort_by_key(|k| k.0);
    assert_eq!(order, vec![KuniId(1), KuniId(2), KuniId(3)]);
}
