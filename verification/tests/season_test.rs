use sengoku::kuni::Kuni;
use sengoku::resource::{DevelopmentStats, Resource};
use sengoku::turn_service::{SeasonDraws, TurnService};
use sengoku::value_objects::{DaimyoId, KuniId};

fn kuni() -> Kuni {
    Kuni::new(
        KuniId(1),
        DaimyoId(1),
        Resource::new(1000, 500, 1000, 10000),
        DevelopmentStats::new(2000, 1000, 50),
        false,
    )
}

fn calm() -> SeasonDraws {
    SeasonDraws {
        disaster: 5,
        severity: 5,
        growth: 10,
        kin_tyu: 4,
        kin_jinko: 10,
        kin_machi: 25,
        kome_tyu: 3,
        kome_jinko: 14,
        kome_kokudaka: 39,
    }
}

#[test]
fn harvest_in_turn_two() {
    let out = TurnService::process_season_with(2, vec![kuni()], &vec![calm()]);
    // gold: 50*4/100 + 10000*10/100 + 1000*25/100 = 2 + 1000 + 250
    assert_eq!(out[0].resource.kin.value(), 1000 + 1252);
    // rice: 50*3/100 + 10000*14/100 + 2000*39/100 = 1 + 1400 + 780
    assert_eq!(out[0].resource.kome.value(), 1000 + 2181);
    assert_eq!(out[0].resource.jinko.value(), 10000);
}

#[test]
fn growth_in_turn_four() {
    let out = TurnService::process_season_with(4, vec![kuni()], &vec![calm()]);
    assert_eq!(out[0].resource.jinko.value(), 11000);
    assert_eq!(out[0].resource.kin.value(), 1000);
}

#[test]
fn plague_and_famine() {
    let mut d = calm();
    d.disaster = 0;
    d.severity = 9;
    let out = TurnService::process_season_with(1, vec![kuni()], &vec![d]);
    assert_eq!(out[0].resource.jinko.value(), 9100);
    assert_eq!(out[0].stats.tyu.value(), 30);
    d.severity = 19;
    let out = TurnService::process_season_with(3, vec![kuni()], &vec![d]);
    assert_eq!(out[0].resource.jinko.value(), 8100);
    assert_eq!(out[0].stats.tyu.value(), 35);
}

#[test]
fn random_season_keeps_troops_and_owner() {
    for turn in 0..8 {
        let out = TurnService::process_season(turn, vec![kuni(), kuni()]);
        assert_eq!(out.len(), 2);
        for k in &out {
            assert_eq!(k.resource.hei.value(), 500);
            assert_eq!(k.daimyo_id, DaimyoId(1));
            if turn % 4 != 2 {
                assert_eq!(k.resource.kin.value(), 1000);
            } else {
                assert!(k.resource.kin.value() > 1000);
            }
        }
    }
}
