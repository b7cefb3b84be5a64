use sengoku::error::DomainError;
use sengoku::kuni::Kuni;
use sengoku::resource::{DevelopmentStats, Resource};
use sengoku::value_objects::{Amount, DaimyoId, KuniId, Rate};

fn kuni(kin: u32, hei: u32, kome: u32, jinko: u32, tyu: u32) -> Kuni {
    Kuni::new(
        KuniId(7),
        DaimyoId(3),
        Resource::new(kin, hei, kome, jinko),
        DevelopmentStats::new(100, 200, tyu),
        false,
    )
}

fn insufficient(e: &DomainError) -> String {
    match e {
        DomainError::InsufficientResource(m) => m.clone(),
        other => panic!("unexpected error {:?}", other),
    }
}

#[test]
fn amount_arithmetic_saturates() {
    assert_eq!(Amount::new(u32::MAX).add(Amount::new(5)).value(), u32::MAX);
    assert_eq!(Amount::new(3).sub(Amount::new(5)).value(), 0);
    assert_eq!(Amount::new(30).add(Amount::new(12)).value(), 42);
    assert_eq!(Rate::new(80).value(), 80);
}

#[test]
fn resource_consume_and_add() {
    let mut r = Resource::new(10, 20, 30, 40);
    assert!(r.can_consume(10, 20, 30));
    assert!(!r.can_consume(11, 0, 0));
    assert_eq!(r.consume(11, 0, 0), Err("Insufficient resources"));
    assert_eq!(r, Resource::new(10, 20, 30, 40));
    assert_eq!(r.consume(4, 5, 6), Ok(()));
    assert_eq!(r, Resource::new(6, 15, 24, 40));
    r.add(4, 5, 6);
    assert_eq!(r, Resource::new(10, 20, 30, 40));
}

#[test]
fn consume_resource_reports_shortage() {
    let mut k = kuni(10, 10, 10, 10, 50);
    let before = k;
    let e = k.consume_resource(0, 11, 0).unwrap_err();
    assert_eq!(insufficient(&e), "Insufficient resources");
    assert_eq!(e.message(), "資源が不足しています: Insufficient resources");
    assert_eq!(k, before);
}

#[test]
fn modify_tyu_clamps_to_percent_range() {
    let mut k = kuni(0, 0, 0, 0, 50);
    k.modify_tyu(70);
    assert_eq!(k.stats.tyu.value(), 100);
    k.modify_tyu(-130);
    assert_eq!(k.stats.tyu.value(), 0);
    k.modify_tyu(15);
    assert_eq!(k.stats.tyu.value(), 15);
}

#[test]
fn modify_jinko_stops_at_zero_and_reads_as_i32() {
    let mut k = kuni(0, 0, 0, 100, 50);
    k.modify_jinko(-150);
    assert_eq!(k.resource.jinko.value(), 0);
    k.modify_jinko(42);
    assert_eq!(k.resource.jinko.value(), 42);
    // A population above i32::MAX reads as a negative i32, which clips to 0.
    let mut big = kuni(0, 0, 0, 3_000_000_000, 50);
    big.modify_jinko(0);
    assert_eq!(big.resource.jinko.value(), 0);
}

#[test]
fn sell_rice_at_fixed_price() {
    let mut k = kuni(100, 0, 50, 0, 50);
    k.sell_rice_at(20, 15).unwrap();
    assert_eq!(k.resource.kome.value(), 30);
    assert_eq!(k.resource.kin.value(), 130);
    let e = k.sell_rice_at(31, 15).unwrap_err();
    assert_eq!(insufficient(&e), "Insufficient resources");
    assert_eq!(k.resource.kome.value(), 30);
}

#[test]
fn sell_rice_price_is_between_one_and_two_gold() {
    for _ in 0..50 {
        let mut k = kuni(1000, 0, 1000, 0, 50);
        k.sell_rice(100).unwrap();
        assert_eq!(k.resource.kome.value(), 900);
        let kin = k.resource.kin.value();
        assert!((1100..=1200).contains(&kin), "kin {}", kin);
    }
}

#[test]
fn buy_rice_price_is_between_one_and_two_gold() {
    for _ in 0..50 {
        let mut k = kuni(1000, 0, 0, 0, 50);
        k.buy_rice(100).unwrap();
        assert_eq!(k.resource.kome.value(), 100);
        let kin = k.resource.kin.value();
        assert!((800..=900).contains(&kin), "kin {}", kin);
    }
    let mut poor = kuni(99, 0, 0, 0, 50);
    assert!(poor.buy_rice(100).is_err());
    assert_eq!(poor.resource.kin.value(), 99);
    assert_eq!(poor.resource.kome.value(), 0);
}

#[test]
fn buy_rice_at_fixed_price() {
    let mut k = kuni(100, 0, 0, 0, 50);
    k.buy_rice_at(40, 20).unwrap();
    assert_eq!(k.resource.kin.value(), 20);
    assert_eq!(k.resource.kome.value(), 40);
    assert!(k.buy_rice_at(11, 20).is_err());
}

#[test]
fn develop_land_and_build_town() {
    let mut k = kuni(100, 0, 0, 0, 50);
    k.develop_land_at(10, 50).unwrap();
    assert_eq!(k.resource.kin.value(), 90);
    assert_eq!(k.stats.kokudaka.value(), 100 + 500);
    k.build_town_at(10, 45).unwrap();
    assert_eq!(k.resource.kin.value(), 80);
    assert_eq!(k.stats.machi.value(), 200 + 450);
    assert!(k.develop_land_at(81, 45).is_err());
    for _ in 0..20 {
        let mut r = kuni(100, 0, 0, 0, 50);
        r.develop_land(10).unwrap();
        let gain = r.stats.kokudaka.value() - 100;
        assert!((450..=540).contains(&gain));
        r.build_town(10).unwrap();
        let gain = r.stats.machi.value() - 200;
        assert!((450..=540).contains(&gain));
        assert_eq!(r.resource.kin.value(), 80);
    }
}

#[test]
fn recruit_and_dismiss() {
    let mut k = kuni(100, 10, 0, 500, 50);
    k.recruit_troops(100).unwrap();
    assert_eq!(k.resource.kin.value(), 50);
    assert_eq!(k.resource.hei.value(), 110);
    assert_eq!(k.resource.jinko.value(), 400);
    assert_eq!(k.stats.tyu.value(), 0);
    k.dismiss_troops(100).unwrap();
    assert_eq!(k.resource.hei.value(), 10);
    assert_eq!(k.resource.jinko.value(), 500);
    assert_eq!(k.stats.tyu.value(), 50);
}

#[test]
fn recruit_errors() {
    let mut k = kuni(100, 0, 0, 50, 50);
    let e = k.recruit_troops(60).unwrap_err();
    assert_eq!(insufficient(&e), "人口不足");
    let mut k = kuni(10, 0, 0, 500, 50);
    let e = k.recruit_troops(60).unwrap_err();
    assert_eq!(insufficient(&e), "Insufficient resources");
    assert_eq!(k, kuni(10, 0, 0, 500, 50));
    let mut k = kuni(10, 5, 0, 500, 50);
    assert!(k.dismiss_troops(6).is_err());
}

#[test]
fn give_charity_raises_loyalty() {
    let mut k = kuni(0, 0, 100, 0, 20);
    k.give_charity_at(40, 5).unwrap();
    assert_eq!(k.resource.kome.value(), 60);
    assert_eq!(k.stats.tyu.value(), 40);
    for _ in 0..20 {
        let mut r = kuni(0, 0, 100, 0, 20);
        r.give_charity(40).unwrap();
        let tyu = r.stats.tyu.value();
        assert!((40..=60).contains(&tyu));
    }
    let mut r = kuni(0, 0, 10, 0, 20);
    assert!(r.give_charity(11).is_err());
    assert_eq!(r.stats.tyu.value(), 20);
}

#[test]
fn set_owner_and_delegation() {
    let mut k = kuni(0, 0, 0, 0, 0);
    k.set_daimyo_id(DaimyoId(9));
    k.set_inin(true);
    assert_eq!(k.daimyo_id, DaimyoId(9));
    assert!(k.inin);
    k.add_resource(1, 2, 3);
    assert_eq!(k.resource, Resource::new(1, 2, 3, 0));
}

#[test]
fn error_messages() {
    assert_eq!(DomainError::NotAdjacent.message(), "隣接していません");
    assert_eq!(DomainError::NotFound("Kuni not found".to_string()).message(), "Kuni not found");
}

#[test]
fn rice_prices_vary() {
    let mut seen = std::collections::BTreeSet::new();
    for _ in 0..200 {
        let mut k = kuni(0, 0, 1000, 0, 50);
        k.sell_rice(100).unwrap();
        seen.insert(k.resource.kin.value());
    }
    assert!(seen.len() > 1, "prices drawn: {:?}", seen);
    assert!(seen.iter().all(|kin| (100..=200).contains(kin)));
}
