use vstd::prelude::*;
use crate::kuni::Kuni;
use crate::random::{Roll, random_in_range, rolled};

verus! {

/// The seasonal rules: disasters, population growth and harvests.
pub struct TurnService;

/// The random numbers that one province's season depends on.
#[derive(Debug, Clone, Copy)]
pub struct SeasonDraws {
    /// A disaster strikes when this is 0 (drawn from `0..40`).
    pub disaster: u32,
    /// Percent of the population lost to a disaster (plague `5..=9`,
    /// famine `5..=19`).
    pub severity: u32,
    /// Percent of population growth (`10..=12`).
    pub growth: u32,
    /// Gold income per loyalty, percent (`3..=4`).
    pub kin_tyu: u32,
    /// Gold income per population, percent (`10..=14`).
    pub kin_jinko: u32,
    /// Gold income per town size, percent (`25..=39`).
    pub kin_machi: u32,
    /// Rice income per loyalty, percent (`3..=4`).
    pub kome_tyu: u32,
    /// Rice income per population, percent (`10..=14`).
    pub kome_jinko: u32,
    /// Rice income per land yield, percent (`25..=39`).
    pub kome_kokudaka: u32,
}

/// A season with `turn % 4 == 1` brings plague rather than famine.
pub open spec fn is_plague_season(turn: u32) -> bool {
    turn % 4 == 1
}

/// The draws lie in the ranges that the rules draw them from.
pub open spec fn draws_in_range(d: SeasonDraws, turn: u32) -> bool {
    &&& d.disaster < 40
    &&& 5 <= d.severity <= (if is_plague_season(turn) { 9u32 } else { 19u32 })
    &&& 10 <= d.growth <= 12
    &&& 3 <= d.kin_tyu <= 4
    &&& 10 <= d.kin_jinko <= 14
    &&& 25 <= d.kin_machi <= 39
    &&& 3 <= d.kome_tyu <= 4
    &&& 10 <= d.kome_jinko <= 14
    &&& 25 <= d.kome_kokudaka <= 39
}

/// No arithmetic of the season `turn` overflows for this province, whatever
/// the random numbers: the population times the worst disaster's severity,
/// the loyalty loss of a disaster, and at harvest the income products.
pub open spec fn season_bounds(k: Kuni, turn: u32) -> bool {
    &&& k.resource.jinko.0 * (if is_plague_season(turn) { 9u32 } else { 19u32 }) <= u32::MAX
    &&& k.tyu_shift_ok(-20)
    &&& turn % 4 == 2 ==> {
        &&& k.stats.tyu.0 * 4 <= u32::MAX
        &&& k.stats.machi.0 * 39 <= u32::MAX
        &&& k.stats.kokudaka.0 * 39 <= u32::MAX
    }
}

/// The province after a disaster, if one strikes: plague costs `severity`%
/// of the population and 20 loyalty, famine `severity`% and 15 loyalty.
pub open spec fn after_disaster(k: Kuni, turn: u32, d: SeasonDraws) -> Kuni {
    if d.disaster == 0 {
        let loss = k.resource.jinko.0 * d.severity / 100;
        let tyu_loss: int = if is_plague_season(turn) { 20 } else { 15 };
        k.spec_modify_jinko(-loss).spec_modify_tyu(-tyu_loss)
    } else {
        k
    }
}

/// The province after population growth, which comes when `turn % 4 == 0`.
pub open spec fn after_growth(k: Kuni, turn: u32, d: SeasonDraws) -> Kuni {
    if turn % 4 == 0 {
        k.spec_modify_jinko(k.resource.jinko.0 * d.growth / 100)
    } else {
        k
    }
}

/// Gold income of a harvest.
pub open spec fn kin_income(k: Kuni, d: SeasonDraws) -> int {
    k.stats.tyu.0 * d.kin_tyu / 100 + k.resource.jinko.0 * d.kin_jinko / 100 + k.stats.machi.0
        * d.kin_machi / 100
}

/// Rice income of a harvest.
pub open spec fn kome_income(k: Kuni, d: SeasonDraws) -> int {
    k.stats.tyu.0 * d.kome_tyu / 100 + k.resource.jinko.0 * d.kome_jinko / 100
        + k.stats.kokudaka.0 * d.kome_kokudaka / 100
}

/// The province after the harvest, which comes when `turn % 4 == 2`.
pub open spec fn after_harvest(k: Kuni, turn: u32, d: SeasonDraws) -> Kuni {
    if turn % 4 == 2 {
        k.spec_add(kin_income(k, d) as u32, 0, kome_income(k, d) as u32)
    } else {
        k
    }
}

/// `after` is what the season `turn` can make of `before`, for some random
/// numbers in their ranges.
pub open spec fn is_season_outcome(before: Kuni, turn: u32, after: Kuni) -> bool {
    exists|d: SeasonDraws| draws_in_range(d, turn) && after == #[trigger] spec_season(before, turn, d)
}

/// One province's season: disaster, then growth, then harvest.
pub open spec fn spec_season(k: Kuni, turn: u32, d: SeasonDraws) -> Kuni {
    after_harvest(after_growth(after_disaster(k, turn, d), turn, d), turn, d)
}

/// A season changes neither a province's identifier nor its warlord.
pub proof fn lemma_season_keeps_owner(before: Kuni, turn: u32, after: Kuni)
    requires
        is_season_outcome(before, turn, after),
    ensures
        after.id == before.id,
        after.daimyo_id == before.daimyo_id,
{
    let d = choose|d: SeasonDraws| draws_in_range(d, turn) && after == #[trigger] spec_season(before, turn, d);
}

/// The rolls behind one province's season: the disaster roll, the
/// severity roll when a disaster strikes, the growth roll in a growth
/// season and the harvest rolls at harvest.
struct SeasonRolls {
    disaster: Roll,
    severity: Option<Roll>,
    growth: Option<Roll>,
    harvest: Option<HarvestRolls>,
}

/// The rolls behind the income rates of a harvest.
struct HarvestRolls {
    kin_tyu: Roll,
    kin_jinko: Roll,
    kin_machi: Roll,
    kome_tyu: Roll,
    kome_jinko: Roll,
    kome_kokudaka: Roll,
}

/// Every number of `d` is the value of its roll in `rolls`, drawn from the
/// range the rules give it (`0..40` for the disaster, which strikes on 0),
/// and a number that the season does not draw has its fixed low value.
spec fn drawn_by(d: SeasonDraws, rolls: SeasonRolls, turn: u32) -> bool {
    &&& rolled(rolls.disaster, 0, 39, d.disaster)
    &&& match rolls.severity {
        Some(r) => d.disaster == 0 && rolled(r, 5, if is_plague_season(turn) { 9u32 } else { 19u32 }, d.severity),
        None => d.disaster != 0 && d.severity == 5,
    }
    &&& match rolls.growth {
        Some(r) => turn % 4 == 0 && rolled(r, 10, 12, d.growth),
        None => turn % 4 != 0 && d.growth == 10,
    }
    &&& match rolls.harvest {
        Some(h) => {
            &&& turn % 4 == 2
            &&& rolled(h.kin_tyu, 3, 4, d.kin_tyu)
            &&& rolled(h.kin_jinko, 10, 14, d.kin_jinko)
            &&& rolled(h.kin_machi, 25, 39, d.kin_machi)
            &&& rolled(h.kome_tyu, 3, 4, d.kome_tyu)
            &&& rolled(h.kome_jinko, 10, 14, d.kome_jinko)
            &&& rolled(h.kome_kokudaka, 25, 39, d.kome_kokudaka)
        },
        None => turn % 4 != 2 && d.kin_tyu == 3 && d.kin_jinko == 10 && d.kin_machi == 25 && d.kome_tyu == 3
            && d.kome_jinko == 10 && d.kome_kokudaka == 25,
    }
}

impl TurnService {
    /// Whether the season `turn` can be played for `kuni` without any
    /// arithmetic overflowing.
    pub fn season_fits(kuni: &Kuni, turn: u32) -> (r: bool)
        ensures
            r == season_bounds(*kuni, turn),
    {
        let worst: u32 = if turn % 4 == 1 { 9 } else { 19 };
        let jinko = kuni.resource.jinko.value();
        let tyu = kuni.stats.tyu.value();
        if jinko > u32::MAX / worst {
            return false;
        }
        if tyu > 0x7fff_ffff && tyu < 0x8000_0014 {
            return false;
        }
        if turn % 4 == 2 {
            if tyu > u32::MAX / 4 || kuni.stats.machi.value() > u32::MAX / 39 || kuni.stats.kokudaka.value()
                > u32::MAX / 39 {
                return false;
            }
        }
        true
    }

    /// Plays one province's season with the given random numbers.
    pub fn season_for(kuni: Kuni, turn: u32, d: SeasonDraws) -> (r: Kuni)
        requires
            season_bounds(kuni, turn),
            draws_in_range(d, turn),
        ensures
            r == spec_season(kuni, turn, d),
    {
        let mut kuni = kuni;
        let ghost k0 = kuni;
        if d.disaster == 0 {
            let jinko = kuni.resource.jinko.value();
            proof {
                let worst: u32 = if is_plague_season(turn) { 9 } else { 19 };
                assert(jinko * d.severity <= jinko * worst) by (nonlinear_arith)
                    requires d.severity <= worst;
                assert(jinko * d.severity / 100 <= jinko) by (nonlinear_arith)
                    requires d.severity <= 19;
            }
            let jinko_loss = jinko * d.severity / 100;
            kuni.modify_jinko(-(jinko_loss as i32));
            if turn % 4 == 1 {
                kuni.modify_tyu(-20);
            } else {
                kuni.modify_tyu(-15);
            }
        }
        let ghost k1 = kuni;
        assert(k1 == after_disaster(k0, turn, d));
        assert(k1.resource.jinko.0 <= k0.resource.jinko.0);
        if turn % 4 == 0 {
            let jinko = kuni.resource.jinko.value();
            proof {
                assert(jinko * d.growth <= jinko * 12) by (nonlinear_arith)
                    requires d.growth <= 12;
                assert(jinko * d.growth / 100 <= jinko) by (nonlinear_arith)
                    requires d.growth <= 12;
            }
            let jinko_gain = jinko * d.growth / 100;
            kuni.modify_jinko(jinko_gain as i32);
        }
        let ghost k2 = kuni;
        assert(k2 == after_growth(k1, turn, d));
        if turn % 4 == 2 {
            let tyu = kuni.stats.tyu.value();
            let jinko = kuni.resource.jinko.value();
            let machi = kuni.stats.machi.value();
            let kokudaka = kuni.stats.kokudaka.value();
            proof {
                assert(tyu * d.kin_tyu <= tyu * 4 && tyu * d.kome_tyu <= tyu * 4) by (nonlinear_arith)
                    requires d.kin_tyu <= 4, d.kome_tyu <= 4;
                assert(jinko * d.kin_jinko <= jinko * 14 && jinko * d.kome_jinko <= jinko * 14)
                    by (nonlinear_arith)
                    requires d.kin_jinko <= 14, d.kome_jinko <= 14;
                assert(machi * d.kin_machi <= machi * 39) by (nonlinear_arith)
                    requires d.kin_machi <= 39;
                assert(kokudaka * d.kome_kokudaka <= kokudaka * 39) by (nonlinear_arith)
                    requires d.kome_kokudaka <= 39;
                assert(tyu * d.kin_tyu / 100 <= tyu && tyu * d.kome_tyu / 100 <= tyu)
                    by (nonlinear_arith)
                    requires d.kin_tyu <= 4, d.kome_tyu <= 4;
                assert(jinko * d.kin_jinko / 100 <= jinko && jinko * d.kome_jinko / 100 <= jinko)
                    by (nonlinear_arith)
                    requires d.kin_jinko <= 14, d.kome_jinko <= 14;
                assert(machi * d.kin_machi / 100 <= machi) by (nonlinear_arith)
                    requires d.kin_machi <= 39;
                assert(kokudaka * d.kome_kokudaka / 100 <= kokudaka) by (nonlinear_arith)
                    requires d.kome_kokudaka <= 39;
            }
            let kin_gain = tyu * d.kin_tyu / 100 + jinko * d.kin_jinko / 100 + machi * d.kin_machi
                / 100;
            let kome_gain = tyu * d.kome_tyu / 100 + jinko * d.kome_jinko / 100 + kokudaka
                * d.kome_kokudaka / 100;
            kuni.add_resource(kin_gain, 0, kome_gain);
        }
        kuni
    }

    /// Plays the season `turn` for every province, with `draws[i]` the
    /// random numbers of `kunis[i]`.
    pub fn process_season_with(turn: u32, kunis: Vec<Kuni>, draws: &Vec<SeasonDraws>) -> (r: Vec<Kuni>)
        requires
            draws.len() == kunis.len(),
            forall|i: int| 0 <= i < kunis.len() ==> #[trigger] season_bounds(kunis[i], turn),
            forall|i: int| 0 <= i < draws.len() ==> #[trigger] draws_in_range(draws[i], turn),
        ensures
            r.len() == kunis.len(),
            forall|i: int| 0 <= i < r.len() ==> r[i] == spec_season(kunis[i], turn, draws[i]),
    {
        let mut out: Vec<Kuni> = Vec::new();
        let n = kunis.len();
        for i in 0..n
            invariant
                n == kunis.len(),
                draws.len() == kunis.len(),
                forall|j: int| 0 <= j < kunis.len() ==> #[trigger] season_bounds(kunis[j], turn),
                forall|j: int| 0 <= j < draws.len() ==> #[trigger] draws_in_range(draws[j], turn),
                out.len() == i,
                forall|j: int| 0 <= j < i ==> out[j] == spec_season(kunis[j], turn, draws[j]),
        {
            let k = kunis[i];
            assert(season_bounds(kunis[i as int], turn));
            assert(draws_in_range(draws[i as int], turn));
            out.push(Self::season_for(k, turn, draws[i]));
        }
        out
    }

    /// Draws the random numbers of one province's season, as the rules draw
    /// them: the severity only when a disaster strikes, growth only in a
    /// growth season, the income rates only at harvest. Numbers that are not
    /// drawn are set to the low end of their range.
    fn draw_season(turn: u32) -> (r: (SeasonDraws, SeasonRolls))
        ensures
            draws_in_range(r.0, turn),
            drawn_by(r.0, r.1, turn),
    {
        let disaster_roll = random_in_range(0, 39);
        let disaster = disaster_roll.get();
        let severity_roll = if disaster == 0 {
            if turn % 4 == 1 { Some(random_in_range(5, 9)) } else { Some(random_in_range(5, 19)) }
        } else {
            None
        };
        let severity = match &severity_roll {
            Some(roll) => roll.get(),
            None => 5,
        };
        let growth_roll = if turn % 4 == 0 { Some(random_in_range(10, 12)) } else { None };
        let growth = match &growth_roll {
            Some(roll) => roll.get(),
            None => 10,
        };
        let mut d = SeasonDraws {
            disaster,
            severity,
            growth,
            kin_tyu: 3,
            kin_jinko: 10,
            kin_machi: 25,
            kome_tyu: 3,
            kome_jinko: 10,
            kome_kokudaka: 25,
        };
        let harvest_roll = if turn % 4 == 2 {
            let h = HarvestRolls {
                kin_tyu: random_in_range(3, 4),
                kin_jinko: random_in_range(10, 14),
                kin_machi: random_in_range(25, 39),
                kome_tyu: random_in_range(3, 4),
                kome_jinko: random_in_range(10, 14),
                kome_kokudaka: random_in_range(25, 39),
            };
            d.kin_tyu = h.kin_tyu.get();
            d.kin_jinko = h.kin_jinko.get();
            d.kin_machi = h.kin_machi.get();
            d.kome_tyu = h.kome_tyu.get();
            d.kome_jinko = h.kome_jinko.get();
            d.kome_kokudaka = h.kome_kokudaka.get();
            Some(h)
        } else {
            None
        };
        (d, SeasonRolls { disaster: disaster_roll, severity: severity_roll, growth: growth_roll, harvest: harvest_roll })
    }

    /// Plays the season `turn` for every province: each may suffer a
    /// disaster (1 in 40: plague when `turn % 4 == 1`, famine otherwise),
    /// grows its population when `turn % 4 == 0`, and harvests gold and
    /// rice when `turn % 4 == 2`.
    pub fn process_season(turn: u32, kunis: Vec<Kuni>) -> (r: Vec<Kuni>)
        requires
            forall|i: int| 0 <= i < kunis.len() ==> #[trigger] season_bounds(kunis[i], turn),
        ensures
            r.len() == kunis.len(),
            forall|i: int| 0 <= i < r.len() ==> #[trigger] is_season_outcome(kunis[i], turn, r[i]),
    {
        let mut out: Vec<Kuni> = Vec::new();
        let n = kunis.len();
        for i in 0..n
            invariant
                n == kunis.len(),
                forall|j: int| 0 <= j < kunis.len() ==> #[trigger] season_bounds(kunis[j], turn),
                out.len() == i,
                forall|j: int| 0 <= j < i ==> #[trigger] is_season_outcome(kunis[j], turn, out[j]),
        {
            let (d, _rolls) = Self::draw_season(turn);
            let k = kunis[i];
            assert(season_bounds(kunis[i as int], turn));
            let next = Self::season_for(k, turn, d);
            out.push(next);
            assert(is_season_outcome(kunis[i as int], turn, out[i as int]));
        }
        out
    }
}

} // verus!
