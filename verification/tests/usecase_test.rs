use sengoku::battle_service::{BattleSide, Tactic};
use sengoku::battle_usecase::BattleUseCase;
use sengoku::domestic_usecase::DomesticUseCase;
use sengoku::error::DomainError;
use sengoku::kuni::Kuni;
use sengoku::game_rules::GamePhase;
use sengoku::game_state::{GameState, WarStatus};
use sengoku::neighbor_repository::InMemoryNeighborRepository;
use sengoku::repository::{InMemoryKuniRepository, KuniRepository};
use sengoku::resource::{DevelopmentStats, Resource};
use sengoku::value_objects::{DaimyoId, KuniId};

fn create_test_kuni(id: u32) -> Kuni {
    Kuni::new(
        KuniId(id),
        DaimyoId(id),
        Resource::new(100000, 10000, 100000, 100000),
        DevelopmentStats::new(10000, 10000, 60),
        false,
    )
}

fn repo_with(kunis: &[Kuni]) -> InMemoryKuniRepository {
    let mut repo = InMemoryKuniRepository::new();
    for k in kunis {
        repo.save(k);
    }
    repo
}

/// Province `id` is to act, in turn 1.
fn turn_of(id: u32) -> GameState {
    GameState::new(1, vec![KuniId(id), KuniId(999)], 0).unwrap()
}

fn adjacent(a: u32, b: u32) -> InMemoryNeighborRepository {
    let mut n = InMemoryNeighborRepository::new();
    n.add_neighbor(KuniId(a), KuniId(b));
    n
}

fn domestic(kunis: &[Kuni]) -> DomesticUseCase<InMemoryKuniRepository, InMemoryNeighborRepository> {
    DomesticUseCase::new(repo_with(kunis), adjacent(1, 2))
}

fn not_found(e: DomainError) -> String {
    match e {
        DomainError::NotFound(m) => m,
        other => panic!("unexpected error {:?}", other),
    }
}

#[test]
fn repository_read_gives_back_write() {
    let mut repo = repo_with(&[create_test_kuni(1), create_test_kuni(2)]);
    let mut k = create_test_kuni(1);
    k.add_resource(5, 0, 0);
    repo.save(&k);
    assert_eq!(repo.find_by_id(&KuniId(1)), Some(k));
    assert_eq!(repo.find_by_id(&KuniId(2)), Some(create_test_kuni(2)));
    assert_eq!(repo.find_by_id(&KuniId(3)), None);
    assert_eq!(repo.find_all().len(), 2);
    let mut other = create_test_kuni(3);
    other.set_daimyo_id(DaimyoId(1));
    repo.save(&other);
    let ids: Vec<KuniId> = repo.find_by_daimyo_id(&DaimyoId(1)).iter().map(|k| k.id).collect();
    assert_eq!(ids, vec![KuniId(1), KuniId(3)]);
}

#[test]
fn domestic_sell_rice_updates_repository() {
    let mut usecase = domestic(&[create_test_kuni(1)]);
    usecase.sell_rice(&turn_of(1), KuniId(1), 100).expect("sold");
    let updated = usecase.repo().find_by_id(&KuniId(1)).unwrap();
    assert_eq!(updated.resource.kome.value(), 99900);
    assert!(updated.resource.kin.value() >= 100100 && updated.resource.kin.value() <= 100200);
}

#[test]
fn domestic_commands_fail_on_missing_province() {
    let mut usecase = domestic(&[create_test_kuni(1)]);
    assert_eq!(not_found(usecase.sell_rice(&turn_of(9), KuniId(9), 1).unwrap_err()), "Kuni not found");
    assert_eq!(not_found(usecase.buy_rice(&turn_of(9), KuniId(9), 1).unwrap_err()), "Kuni not found");
    assert_eq!(not_found(usecase.develop_land(&turn_of(9), KuniId(9), 1).unwrap_err()), "Kuni not found");
    assert_eq!(not_found(usecase.build_town(&turn_of(9), KuniId(9), 1).unwrap_err()), "Kuni not found");
    assert_eq!(not_found(usecase.recruit(&turn_of(9), KuniId(9), 1).unwrap_err()), "Kuni not found");
    assert_eq!(not_found(usecase.dismiss(&turn_of(9), KuniId(9), 1).unwrap_err()), "Kuni not found");
    assert_eq!(not_found(usecase.give_charity(&turn_of(9), KuniId(9), 1).unwrap_err()), "Kuni not found");
    assert_eq!(not_found(usecase.set_delegation(KuniId(9), true).unwrap_err()), "Kuni not found");
    assert_eq!(usecase.repo().find_all(), vec![create_test_kuni(1)]);
}

#[test]
fn domestic_recruit_and_dismiss() {
    let mut usecase = domestic(&[create_test_kuni(1)]);
    usecase.recruit(&turn_of(1), KuniId(1), 100).expect("recruited");
    let k = usecase.repo().find_by_id(&KuniId(1)).unwrap();
    assert_eq!(k.resource.hei.value(), 10100);
    assert_eq!(k.resource.jinko.value(), 99900);
    assert_eq!(k.resource.kin.value(), 99950);
    match usecase.recruit(&turn_of(1), KuniId(1), 200000).unwrap_err() {
        DomainError::InsufficientResource(m) => assert_eq!(m, "Insufficient population"),
        other => panic!("{:?}", other),
    }
    usecase.dismiss(&turn_of(1), KuniId(1), 100).expect("dismissed");
    let k = usecase.repo().find_by_id(&KuniId(1)).unwrap();
    assert_eq!(k.resource.hei.value(), 10000);
    assert_eq!(k.resource.jinko.value(), 100000);
}

#[test]
fn domestic_development_and_charity() {
    let mut usecase = domestic(&[create_test_kuni(1)]);
    usecase.develop_land(&turn_of(1), KuniId(1), 10).unwrap();
    usecase.build_town(&turn_of(1), KuniId(1), 10).unwrap();
    usecase.give_charity(&turn_of(1), KuniId(1), 10).unwrap();
    usecase.buy_rice(&turn_of(1), KuniId(1), 10).unwrap();
    let k = usecase.repo().find_by_id(&KuniId(1)).unwrap();
    assert!(k.stats.kokudaka.value() >= 10450 && k.stats.kokudaka.value() <= 10540);
    assert!(k.stats.machi.value() >= 10450 && k.stats.machi.value() <= 10540);
    assert!(k.stats.tyu.value() >= 65 && k.stats.tyu.value() <= 70);
    assert_eq!(k.resource.kome.value(), 100000 - 10 + 10);
}

#[test]
fn domestic_transport_moves_goods() {
    let mut usecase = domestic(&[create_test_kuni(1), create_test_kuni(2)]);
    usecase.transport(&turn_of(1), KuniId(1), KuniId(2), 100, 10, 0).expect("transported");
    let from = usecase.repo().find_by_id(&KuniId(1)).unwrap();
    let to = usecase.repo().find_by_id(&KuniId(2)).unwrap();
    assert_eq!(from.resource.kin.value(), 99900);
    assert_eq!(to.resource.kin.value(), 100100);
    assert_eq!(from.resource.hei.value() + to.resource.hei.value(), 20000);
}

#[test]
fn domestic_transport_errors() {
    let mut usecase = domestic(&[create_test_kuni(1), create_test_kuni(2)]);
    assert_eq!(not_found(usecase.transport(&turn_of(5), KuniId(5), KuniId(2), 1, 0, 0).unwrap_err()), "Source Kuni not found");
    assert_eq!(not_found(usecase.transport(&turn_of(1), KuniId(1), KuniId(5), 1, 0, 0).unwrap_err()), "Target Kuni not found");
    assert!(matches!(usecase.transport(&turn_of(1), KuniId(1), KuniId(2), 100001, 0, 0), Err(DomainError::InsufficientResource(_))));
    assert_eq!(usecase.repo().find_by_id(&KuniId(1)), Some(create_test_kuni(1)));
}

#[test]
fn domestic_set_delegation() {
    let mut usecase = domestic(&[create_test_kuni(1)]);
    usecase.set_delegation(KuniId(1), true).unwrap();
    assert!(usecase.repo().find_by_id(&KuniId(1)).unwrap().inin);
    usecase.set_delegation(KuniId(1), false).unwrap();
    assert!(!usecase.repo().find_by_id(&KuniId(1)).unwrap().inin);
}

#[test]
fn battle_usecase_plays_and_saves_a_round() {
    let mut defender = create_test_kuni(2);
    defender.resource = Resource::new(1000, 100, 1000, 1000);
    let mut usecase = BattleUseCase::new(repo_with(&[create_test_kuni(1), defender]), adjacent(1, 2));
    let result = usecase.execute_battle_turn(KuniId(1), KuniId(2), Tactic::Normal, Tactic::Normal, 100).unwrap();
    assert_eq!(result.winner, Some(BattleSide::Attacker));
    assert_eq!(usecase.repo().find_by_id(&KuniId(2)), Some(result.defender_kuni));
    assert_eq!(usecase.repo().find_by_id(&KuniId(1)), Some(result.attacker_kuni));
    assert_eq!(result.defender_kuni.resource.hei.value(), 0);
}

#[test]
fn battle_usecase_errors() {
    let mut usecase = BattleUseCase::new(repo_with(&[create_test_kuni(1), create_test_kuni(2)]), adjacent(1, 2));
    assert_eq!(not_found(usecase.execute_battle_turn(KuniId(8), KuniId(2), Tactic::Normal, Tactic::Normal, 1).err().unwrap()), "Attacker not found");
    assert_eq!(not_found(usecase.execute_battle_turn(KuniId(1), KuniId(8), Tactic::Normal, Tactic::Normal, 1).err().unwrap()), "Defender not found");
    match usecase.execute_battle_turn(KuniId(1), KuniId(2), Tactic::Normal, Tactic::Normal, 10001).err().unwrap() {
        DomainError::InsufficientResource(m) => assert_eq!(m, "Attacker does not have enough troops"),
        other => panic!("{:?}", other),
    }
    assert_eq!(usecase.repo().find_by_id(&KuniId(1)), Some(create_test_kuni(1)));
}

#[test]
fn battle_victory_takes_the_province() {
    let mut defender = create_test_kuni(2);
    defender.resource = Resource::new(1000, 100, 1000, 1000);
    let mut usecase = BattleUseCase::new(repo_with(&[create_test_kuni(1), defender]), adjacent(1, 2));
    let result = usecase.execute_battle_turn(KuniId(1), KuniId(2), Tactic::Normal, Tactic::Normal, 100).unwrap();
    assert_eq!(result.winner, Some(BattleSide::Attacker));
    assert_eq!(usecase.repo().find_by_id(&KuniId(2)).unwrap().daimyo_id, DaimyoId(1));
    assert_eq!(usecase.repo().find_by_daimyo_id(&DaimyoId(2)).len(), 0);
}

#[test]
fn battle_undecided_round_keeps_the_owner() {
    let mut usecase = BattleUseCase::new(repo_with(&[create_test_kuni(1), create_test_kuni(2)]), adjacent(1, 2));
    let result = usecase.execute_battle_turn(KuniId(1), KuniId(2), Tactic::Normal, Tactic::Normal, 100).unwrap();
    assert_eq!(result.winner, None);
    assert_eq!(result.defender_kuni.resource.hei.value(), 10000 - 180);
    assert_eq!(usecase.repo().find_by_id(&KuniId(2)).unwrap().daimyo_id, DaimyoId(2));
}

#[test]
fn war_starts_and_ends_with_conquest() {
    let mut defender = create_test_kuni(2);
    defender.resource = Resource::new(1000, 100, 1000, 1000);
    let mut usecase = BattleUseCase::new(repo_with(&[create_test_kuni(1), defender]), adjacent(1, 2));
    let mut state = turn_of(1);
    usecase.start_war(&mut state, KuniId(1), KuniId(2), 100).unwrap();
    assert_eq!(state.phase, GamePhase::Battle);
    assert_eq!(state.war, Some(WarStatus { attacker: KuniId(1), defender: KuniId(2), troops: 100 }));
    assert!(state.action_performed);
    let result = usecase.execute_war_round(&mut state, Tactic::Normal, Tactic::Normal).unwrap();
    assert_eq!(result.winner, Some(BattleSide::Attacker));
    assert_eq!(state.phase, GamePhase::Domestic);
    assert_eq!(state.war, None);
    assert_eq!(usecase.repo().find_by_id(&KuniId(2)).unwrap().daimyo_id, DaimyoId(1));
}

#[test]
fn war_refusals() {
    let mut usecase = BattleUseCase::new(repo_with(&[create_test_kuni(1), create_test_kuni(2), create_test_kuni(3)]), adjacent(1, 2));
    let mut state = turn_of(1);
    assert!(matches!(usecase.start_war(&mut state, KuniId(1), KuniId(3), 100), Err(DomainError::NotAdjacent)));
    assert!(matches!(usecase.start_war(&mut state, KuniId(2), KuniId(1), 100), Err(DomainError::NotYourTurn)));
    match usecase.start_war(&mut state, KuniId(1), KuniId(2), 10001).unwrap_err() {
        DomainError::InsufficientResource(m) => assert_eq!(m, "Attacker does not have enough troops"),
        other => panic!("{:?}", other),
    }
    assert_eq!(state.phase, GamePhase::Domestic);
    assert!(usecase.start_war(&mut state, KuniId(1), KuniId(2), 100).is_ok());
    let mut idle = turn_of(1);
    match usecase.execute_war_round(&mut idle, Tactic::Normal, Tactic::Normal).unwrap_err() {
        DomainError::InvalidState(m) => assert_eq!(m, "合戦中ではありません"),
        other => panic!("{:?}", other),
    }
    let mut own = create_test_kuni(2);
    own.set_daimyo_id(DaimyoId(1));
    let mut usecase = BattleUseCase::new(repo_with(&[create_test_kuni(1), own]), adjacent(1, 2));
    let mut state = turn_of(1);
    match usecase.start_war(&mut state, KuniId(1), KuniId(2), 100).unwrap_err() {
        DomainError::InvalidState(m) => assert_eq!(m, "自領には攻め込めません"),
        other => panic!("{:?}", other),
    }
    assert_eq!(state.phase, GamePhase::Domestic);
}

#[test]
fn test_domestic_sell_rice() {
    let mut usecase = domestic(&[create_test_kuni(1)]);
    usecase.sell_rice(&turn_of(1), KuniId(1), 100).expect("売却成功");
    let updated = usecase.repo().find_by_id(&KuniId(1)).unwrap();
    assert_eq!(updated.resource.kome.value(), 99900);
    assert!(updated.resource.kin.value() > 100000);
}

#[test]
fn test_domestic_recruit() {
    let mut usecase = domestic(&[create_test_kuni(1)]);
    usecase.recruit(&turn_of(1), KuniId(1), 100).expect("徴募成功");
    let updated = usecase.repo().find_by_id(&KuniId(1)).unwrap();
    assert_eq!(updated.resource.hei.value(), 10100);
    assert_eq!(updated.resource.jinko.value(), 99900);
}

#[test]
fn test_domestic_transport_success_when_adjacent() {
    let mut usecase = domestic(&[create_test_kuni(1), create_test_kuni(2)]);
    let res = usecase.transport(&turn_of(1), KuniId(1), KuniId(2), 100, 0, 0);
    assert!(res.is_ok());
    let updated_from = usecase.repo().find_by_id(&KuniId(1)).unwrap();
    let updated_to = usecase.repo().find_by_id(&KuniId(2)).unwrap();
    assert_eq!(updated_from.resource.kin.value(), 99900);
    assert_eq!(updated_to.resource.kin.value(), 100100);
}

#[test]
fn test_domestic_transport_fails_when_not_adjacent() {
    let mut usecase = DomesticUseCase::new(
        repo_with(&[create_test_kuni(1), create_test_kuni(2)]),
        InMemoryNeighborRepository::new(),
    );
    let res = usecase.transport(&turn_of(1), KuniId(1), KuniId(2), 100, 0, 0);
    assert!(res.is_err());
    let err_str = res.unwrap_err().message();
    assert!(err_str.contains("隣接していません"));
    assert_eq!(usecase.repo().find_by_id(&KuniId(1)), Some(create_test_kuni(1)));
    assert_eq!(usecase.repo().find_by_id(&KuniId(2)), Some(create_test_kuni(2)));
}

#[test]
fn test_turn_validation_fails_on_wrong_turn() {
    let mut usecase = domestic(&[create_test_kuni(1), create_test_kuni(2)]);
    let state = GameState::new(1, vec![KuniId(2), KuniId(1)], 0).unwrap();
    let res = usecase.sell_rice(&state, KuniId(1), 100);
    assert!(res.is_err());
    assert!(res.unwrap_err().message().contains("現在の手番ではありません"));
    assert_eq!(usecase.repo().find_by_id(&KuniId(1)), Some(create_test_kuni(1)));
}

#[test]
fn domestic_refused_outside_domestic_phase() {
    let mut usecase = domestic(&[create_test_kuni(1)]);
    let mut state = turn_of(1);
    state.set_phase(GamePhase::Battle);
    match usecase.develop_land(&state, KuniId(1), 10).unwrap_err() {
        DomainError::InvalidState(m) => assert_eq!(m, "現在は内政フェーズではありません"),
        other => panic!("{:?}", other),
    }
    let mut done = turn_of(1);
    done.advance_action();
    assert!(matches!(usecase.recruit(&done, KuniId(1), 10), Err(DomainError::NotYourTurn)));
    assert_eq!(usecase.repo().find_by_id(&KuniId(1)), Some(create_test_kuni(1)));
}

#[test]
fn transport_to_own_refuses_another_warlords_province() {
    let mut usecase = domestic(&[create_test_kuni(1), create_test_kuni(2)]);
    let res = usecase.transport_to_own(&turn_of(1), KuniId(1), KuniId(2), 100, 0, 0);
    assert!(matches!(res, Err(DomainError::NotOwnProvince)));
    assert_eq!(res.unwrap_err().message(), "自領ではありません");
    assert_eq!(usecase.repo().find_by_id(&KuniId(1)), Some(create_test_kuni(1)));
    assert_eq!(usecase.repo().find_by_id(&KuniId(2)), Some(create_test_kuni(2)));
    let mut own = create_test_kuni(2);
    own.set_daimyo_id(DaimyoId(1));
    let mut usecase = domestic(&[create_test_kuni(1), own]);
    usecase.transport_to_own(&turn_of(1), KuniId(1), KuniId(2), 100, 5, 7).unwrap();
    let to = usecase.repo().find_by_id(&KuniId(2)).unwrap();
    assert_eq!(to.resource.kin.value(), 100100);
    assert_eq!(to.resource.hei.value(), 10005);
    assert_eq!(to.resource.kome.value(), 100007);
}

#[test]
fn domestic_commands_report_gains() {
    let mut usecase = domestic(&[create_test_kuni(1)]);
    let gain = usecase.develop_land(&turn_of(1), KuniId(1), 10).unwrap();
    assert!((450..=540).contains(&gain));
    assert_eq!(usecase.repo().find_by_id(&KuniId(1)).unwrap().stats.kokudaka.value(), 10000 + gain);
    let sold = usecase.sell_rice(&turn_of(1), KuniId(1), 100).unwrap();
    assert!((100..=200).contains(&sold));
    assert_eq!(usecase.repo().find_by_id(&KuniId(1)).unwrap().resource.kin.value(), 100000 - 10 + sold);
    let tyu = usecase.give_charity(&turn_of(1), KuniId(1), 10).unwrap();
    assert!((5..=10).contains(&tyu));
    assert_eq!(usecase.repo().find_by_id(&KuniId(1)).unwrap().stats.tyu.value(), 60 + tyu);
}

#[test]
fn transport_with_rate_sends_a_share() {
    let mut usecase = domestic(&[create_test_kuni(1), create_test_kuni(2)]);
    usecase.transport_with_rate(&turn_of(1), KuniId(1), KuniId(2), 10).unwrap();
    let from = usecase.repo().find_by_id(&KuniId(1)).unwrap();
    let to = usecase.repo().find_by_id(&KuniId(2)).unwrap();
    assert_eq!(from.resource.kin.value(), 90000);
    assert_eq!(from.resource.hei.value(), 9000);
    assert_eq!(to.resource.kome.value(), 110000);
    assert_eq!(not_found(usecase.transport_with_rate(&turn_of(1), KuniId(7), KuniId(2), 10).unwrap_err()), "Source Kuni not found");
    assert!(matches!(usecase.transport_with_rate(&turn_of(1), KuniId(1), KuniId(2), 101), Err(DomainError::InsufficientResource(_))));
}

#[test]
fn war_rounds_against_the_computer_and_retreat() {
    let mut usecase = BattleUseCase::new(repo_with(&[create_test_kuni(1), create_test_kuni(2)]), adjacent(1, 2));
    let mut state = turn_of(1);
    usecase.start_war(&mut state, KuniId(1), KuniId(2), 1000).unwrap();
    let status = usecase.battle_status(&state).unwrap();
    assert_eq!((status.attacker_hei, status.defender_hei, status.attacker_morale, status.defender_morale), (10, 100, 60, 60));
    let (_drawn, result) = usecase.execute_attack_round(&mut state, Tactic::Normal);
    let result = result.unwrap();
    assert_eq!(result.winner, None);
    assert!(result.defender_kuni.resource.hei.value() < 10000);
    let (_drawn, result) = usecase.execute_defense_round(&mut state, Tactic::Inspire);
    assert!(result.is_ok());
    usecase.retreat(&mut state).unwrap();
    assert_eq!(state.phase, GamePhase::Domestic);
    assert_eq!(state.war, None);
    assert!(usecase.battle_status(&state).is_none());
    match usecase.retreat(&mut state).unwrap_err() {
        DomainError::InvalidState(m) => assert_eq!(m, "合戦中ではありません"),
        other => panic!("{:?}", other),
    }
}
