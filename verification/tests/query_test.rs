use sengoku::daimyo::Daimyo;
use sengoku::error::DomainError;
use sengoku::game_rules::{check_victory_and_defeat, GamePhase, VictoryCheck};
use sengoku::kuni::Kuni;
use sengoku::neighbor_repository::{InMemoryNeighborRepository, NeighborRepository};
use sengoku::query_usecase::{DaimyoQueryUseCase, KuniQueryUseCase};
use sengoku::repository::{DaimyoRepository, InMemoryDaimyoRepository, InMemoryKuniRepository, KuniRepository};
use sengoku::resource::{DevelopmentStats, Resource};
use sengoku::value_objects::{DaimyoId, KuniId};

fn kuni(id: u32, owner: u32) -> Kuni {
    Kuni::new(KuniId(id), DaimyoId(owner), Resource::new(1, 1, 1, 1), DevelopmentStats::new(1, 1, 50), false)
}

fn setup() -> KuniQueryUseCase<InMemoryKuniRepository, InMemoryNeighborRepository> {
    let mut kunis = InMemoryKuniRepository::new();
    for k in [kuni(1, 1), kuni(2, 1), kuni(3, 2), kuni(4, 3)] {
        kunis.save(&k);
    }
    let mut neighbors = InMemoryNeighborRepository::new();
    neighbors.add_neighbor(KuniId(1), KuniId(2));
    neighbors.add_neighbor(KuniId(1), KuniId(3));
    neighbors.add_neighbor(KuniId(1), KuniId(9));
    neighbors.add_neighbor(KuniId(3), KuniId(4));
    KuniQueryUseCase::new(kunis, neighbors)
}

#[test]
fn neighbors_are_symmetric_and_ordered() {
    let mut n = InMemoryNeighborRepository::new();
    n.add_neighbor(KuniId(1), KuniId(2));
    n.add_neighbor(KuniId(3), KuniId(1));
    assert_eq!(n.get_neighbors(&KuniId(1)), vec![KuniId(2), KuniId(3)]);
    assert_eq!(n.get_neighbors(&KuniId(2)), vec![KuniId(1)]);
    assert!(n.are_adjacent(&KuniId(2), &KuniId(1)));
    assert!(!n.are_adjacent(&KuniId(2), &KuniId(3)));
    assert!(n.get_neighbors(&KuniId(7)).is_empty());
}

#[test]
fn neighbor_queries() {
    let q = setup();
    assert_eq!(q.get_neighbor_ids(&KuniId(1)), vec![KuniId(2), KuniId(3), KuniId(9)]);
    let ks: Vec<KuniId> = q.get_neighbors(&KuniId(1)).iter().map(|k| k.id).collect();
    assert_eq!(ks, vec![KuniId(2), KuniId(3)]);
    assert_eq!(q.get_filtered_neighbor_ids(&KuniId(1), true).unwrap(), vec![KuniId(3)]);
    assert_eq!(q.get_filtered_neighbor_ids(&KuniId(1), false).unwrap(), vec![KuniId(2)]);
    assert_eq!(q.get_filtered_neighbor_ids(&KuniId(3), true).unwrap(), vec![KuniId(1), KuniId(4)]);
    match q.get_filtered_neighbor_ids(&KuniId(9), true) {
        Err(DomainError::NotFound(m)) => assert_eq!(m, "国が見つかりません"),
        other => panic!("{:?}", other),
    }
    let owned: Vec<KuniId> = q.get_kunis_by_daimyo(&DaimyoId(1)).iter().map(|k| k.id).collect();
    assert_eq!(owned, vec![KuniId(1), KuniId(2)]);
}

#[test]
fn daimyo_queries() {
    let mut repo = InMemoryDaimyoRepository::new();
    repo.save(&Daimyo::new(DaimyoId(1), "織田信長"));
    repo.save(&Daimyo::new(DaimyoId(2), "武田信玄"));
    repo.save(&Daimyo::new(DaimyoId(1), "織田信秀"));
    assert_eq!(repo.find_by_id(&DaimyoId(1)).unwrap().name, "織田信秀");
    let q = DaimyoQueryUseCase::new(repo);
    let list = q.list();
    assert_eq!(list.len(), 2);
    assert_eq!(list[0].id, 1);
    assert_eq!(list[0].name, "織田信秀");
    assert_eq!(list[1].name, "武田信玄");
    assert_eq!(q.find(DaimyoId(2)).unwrap().name, "武田信玄");
    assert!(q.find(DaimyoId(3)).is_none());
}

#[test]
fn victory_rules() {
    assert_eq!(check_victory_and_defeat(&vec![], Some(DaimyoId(1))), VictoryCheck::Undecided);
    let split = vec![kuni(1, 1), kuni(2, 2)];
    assert_eq!(check_victory_and_defeat(&split, Some(DaimyoId(1))), VictoryCheck::Undecided);
    assert_eq!(check_victory_and_defeat(&split, None), VictoryCheck::Undecided);
    assert_eq!(
        check_victory_and_defeat(&split, Some(DaimyoId(3))),
        VictoryCheck::Decided { winner: Some(DaimyoId(1)), phase: GamePhase::GameOver }
    );
    let unified = vec![kuni(1, 2), kuni(2, 2)];
    assert_eq!(
        check_victory_and_defeat(&unified, Some(DaimyoId(2))),
        VictoryCheck::Decided { winner: Some(DaimyoId(2)), phase: GamePhase::GameClear }
    );
    assert_eq!(
        check_victory_and_defeat(&unified, None),
        VictoryCheck::Decided { winner: Some(DaimyoId(2)), phase: GamePhase::GameOver }
    );
}
