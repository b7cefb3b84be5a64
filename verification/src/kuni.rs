use vstd::prelude::*;
use crate::error::{DomainError, is_insufficient};
use crate::random::random_in_range;
use crate::resource::{DevelopmentStats, Resource};
use crate::value_objects::{Amount, DaimyoId, IninFlag, KuniId, Rate, saturating_sum};

verus! {

/// The value of `x as i32`: the bits of `x` read as a two's complement
/// number.
pub open spec fn as_i32(x: u32) -> int {
    if x <= 0x7fff_ffff { x as int } else { x - 0x1_0000_0000 }
}

/// `v` fits in an `i32`.
pub open spec fn in_i32(v: int) -> bool {
    i32::MIN <= v <= i32::MAX
}

/// The population after `Kuni::modify_jinko(delta)`: the current value read
/// as an `i32`, moved by `delta` and clipped at zero.
pub open spec fn shifted_jinko(jinko: u32, delta: int) -> u32 {
    let v = as_i32(jinko) + delta;
    if v < 0 { 0 } else { v as u32 }
}

/// The loyalty after `Kuni::modify_tyu(delta)`: the current value read as
/// an `i32`, moved by `delta` and clamped to `0..=100`.
pub open spec fn shifted_tyu(tyu: u32, delta: int) -> u32 {
    let v = as_i32(tyu) + delta;
    if v < 0 { 0 } else if v > 100 { 100 } else { v as u32 }
}

/// `x as i32` in executable code.
fn to_i32_wrapping(x: u32) -> (r: i32)
    ensures
        r as int == as_i32(x),
{
    if x <= 0x7fff_ffff {
        x as i32
    } else {
        let low: i32 = (x - 0x8000_0000) as i32;
        low - 0x7fff_ffff - 1
    }
}

/// A province.
#[derive(Debug, Clone, Copy, PartialEq, Eq, Structural)]
pub struct Kuni {
    /// Identifier of the province.
    pub id: KuniId,
    /// The warlord who rules it.
    pub daimyo_id: DaimyoId,
    /// Gold, troops, rice and population.
    pub resource: Resource,
    /// Land yield, town size and loyalty.
    pub stats: DevelopmentStats,
    /// Whether its government is delegated.
    pub inin: IninFlag,
}

impl Kuni {
    /// The province with its resource replaced.
    pub open spec fn with_resource(self, resource: Resource) -> Kuni {
        Kuni { resource, ..self }
    }

    /// The province with its development replaced.
    pub open spec fn with_stats(self, stats: DevelopmentStats) -> Kuni {
        Kuni { stats, ..self }
    }

    /// The province after taking gold, troops and rice (which it holds).
    pub open spec fn spec_consume(self, kin: u32, hei: u32, kome: u32) -> Kuni {
        self.with_resource(self.resource.spec_consumed(kin, hei, kome))
    }

    /// The province after adding gold, troops and rice.
    pub open spec fn spec_add(self, kin: u32, hei: u32, kome: u32) -> Kuni {
        self.with_resource(self.resource.spec_added(kin, hei, kome))
    }

    /// The province after `modify_jinko(delta)`.
    pub open spec fn spec_modify_jinko(self, delta: int) -> Kuni {
        self.with_resource(
            Resource { jinko: Amount(shifted_jinko(self.resource.jinko.0, delta)), ..self.resource },
        )
    }

    /// The province after `modify_tyu(delta)`.
    pub open spec fn spec_modify_tyu(self, delta: int) -> Kuni {
        self.with_stats(
            DevelopmentStats { tyu: Rate(shifted_tyu(self.stats.tyu.0, delta)), ..self.stats },
        )
    }

    /// `modify_jinko(delta)` does not overflow.
    pub open spec fn jinko_shift_ok(self, delta: int) -> bool {
        in_i32(as_i32(self.resource.jinko.0) + delta)
    }

    /// `modify_tyu(delta)` does not overflow.
    pub open spec fn tyu_shift_ok(self, delta: int) -> bool {
        in_i32(as_i32(self.stats.tyu.0) + delta)
    }

    /// Creates a province.
    pub fn new(
        id: KuniId,
        daimyo_id: DaimyoId,
        resource: Resource,
        stats: DevelopmentStats,
        inin: IninFlag,
    ) -> (r: Kuni)
        ensures
            r == (Kuni { id, daimyo_id, resource, stats, inin }),
    {
        Kuni { id, daimyo_id, resource, stats, inin }
    }

    /// Hands the province to another warlord.
    pub fn set_daimyo_id(&mut self, daimyo_id: DaimyoId)
        ensures
            *final(self) == (Kuni { daimyo_id, ..*old(self) }),
    {
        self.daimyo_id = daimyo_id;
    }

    /// Turns delegation on or off.
    pub fn set_inin(&mut self, inin: IninFlag)
        ensures
            *final(self) == (Kuni { inin, ..*old(self) }),
    {
        self.inin = inin;
    }

    /// Adds gold, troops and rice.
    pub fn add_resource(&mut self, kin: u32, hei: u32, kome: u32)
        ensures
            *final(self) == old(self).spec_add(kin, hei, kome),
    {
        self.resource.add(kin, hei, kome);
    }

    /// Takes gold, troops and rice; when any is short, nothing is taken and
    /// an `InsufficientResource` error is returned.
    pub fn consume_resource(&mut self, kin: u32, hei: u32, kome: u32) -> (r: Result<(), DomainError>)
        ensures
            r is Ok <==> old(self).resource.spec_can_consume(kin, hei, kome),
            r is Ok ==> *final(self) == old(self).spec_consume(kin, hei, kome),
            r matches Err(e) ==> *final(self) == *old(self) && is_insufficient(
                e,
                "Insufficient resources"@,
            ),
    {
        match self.resource.consume(kin, hei, kome) {
            Ok(()) => Ok(()),
            Err(e) => Err(DomainError::InsufficientResource(String::from_str(e))),
        }
    }

    /// Moves the population by `delta`, never below zero.
    pub fn modify_jinko(&mut self, delta: i32)
        requires
            old(self).jinko_shift_ok(delta as int),
        ensures
            *final(self) == old(self).spec_modify_jinko(delta as int),
    {
        let current = to_i32_wrapping(self.resource.jinko.value());
        let sum = current + delta;
        let next: u32 = if sum < 0 { 0 } else { sum as u32 };
        self.resource.jinko = Amount::new(next);
    }

    /// Whether `modify_tyu(delta)` can be called: the loyalty read as an
    /// `i32` and moved by `delta` fits in an `i32`.
    pub fn tyu_shift_fits(&self, delta: i32) -> (r: bool)
        ensures
            r == self.tyu_shift_ok(delta as int),
    {
        let current = to_i32_wrapping(self.stats.tyu.value()) as i64;
        let moved = current + delta as i64;
        moved >= -0x8000_0000i64 && moved <= 0x7fff_ffffi64
    }

    /// Moves the loyalty by `delta`, clamped to `0..=100`.
    pub fn modify_tyu(&mut self, delta: i32)
        requires
            old(self).tyu_shift_ok(delta as int),
        ensures
            *final(self) == old(self).spec_modify_tyu(delta as int),
    {
        let current = to_i32_wrapping(self.stats.tyu.value());
        let sum = current + delta;
        let next: u32 = if sum < 0 { 0 } else if sum > 100 { 100 } else { sum as u32 };
        self.stats.tyu = Rate::new(next);
    }
}


impl Kuni {
    /// The province after selling `amount` rice at `bias` tenths of gold
    /// per unit.
    pub open spec fn spec_sold_rice(self, amount: u32, bias: u32) -> Kuni {
        self.spec_consume(0, 0, amount).spec_add((amount * bias / 10) as u32, 0, 0)
    }

    /// The gold that buying `amount` rice at `bias` tenths costs.
    pub open spec fn rice_cost(amount: u32, bias: u32) -> u32 {
        (amount * bias / 10) as u32
    }

    /// The province after buying `amount` rice at `bias` tenths of gold per
    /// unit.
    pub open spec fn spec_bought_rice(self, amount: u32, bias: u32) -> Kuni {
        self.spec_consume(Self::rice_cost(amount, bias), 0, 0).spec_add(0, 0, amount)
    }

    /// The province after investing `investment` gold in land, raising the
    /// yield by `investment * multiplier`.
    pub open spec fn spec_developed_land(self, investment: u32, multiplier: u32) -> Kuni {
        let k = self.spec_consume(investment, 0, 0);
        k.with_stats(
            DevelopmentStats {
                kokudaka: Amount(saturating_sum(k.stats.kokudaka.0, (investment * multiplier) as u32)),
                ..k.stats
            },
        )
    }

    /// The province after investing `investment` gold in its town, raising
    /// the town size by `investment * multiplier`.
    pub open spec fn spec_built_town(self, investment: u32, multiplier: u32) -> Kuni {
        let k = self.spec_consume(investment, 0, 0);
        k.with_stats(
            DevelopmentStats {
                machi: Amount(saturating_sum(k.stats.machi.0, (investment * multiplier) as u32)),
                ..k.stats
            },
        )
    }

    /// The province after recruiting `amount` troops: half as much gold is
    /// spent, the population falls by `amount`, loyalty falls by half of
    /// `amount` and the troops rise by `amount`.
    pub open spec fn spec_recruited(self, amount: u32) -> Kuni {
        self.spec_consume(amount / 2, 0, 0).spec_modify_jinko(-as_i32(amount)).spec_modify_tyu(
            -((amount / 2) as int),
        ).spec_add(0, amount, 0)
    }

    /// Recruiting `amount` troops from this province does not overflow.
    pub open spec fn recruit_ok(self, amount: u32) -> bool {
        (self.resource.jinko.0 >= amount && self.resource.kin.0 >= amount / 2) ==> {
            &&& as_i32(amount) != i32::MIN
            &&& self.jinko_shift_ok(-as_i32(amount))
            &&& self.tyu_shift_ok(-((amount / 2) as int))
        }
    }

    /// The province after dismissing `amount` troops: they return to the
    /// population and loyalty rises by half of `amount`.
    pub open spec fn spec_dismissed(self, amount: u32) -> Kuni {
        self.spec_consume(0, amount, 0).spec_modify_jinko(as_i32(amount)).spec_modify_tyu(
            (amount / 2) as int,
        )
    }

    /// Dismissing `amount` troops from this province does not overflow.
    pub open spec fn dismiss_ok(self, amount: u32) -> bool {
        self.resource.hei.0 >= amount ==> {
            &&& self.jinko_shift_ok(as_i32(amount))
            &&& self.tyu_shift_ok((amount / 2) as int)
        }
    }

    /// The loyalty that `amount` rice of charity buys at `multiplier`
    /// tenths per unit.
    pub open spec fn charity_gain(amount: u32, multiplier: u32) -> u32 {
        (amount * multiplier / 10) as u32
    }

    /// The province after giving `amount` rice as charity.
    pub open spec fn spec_gave_charity(self, amount: u32, multiplier: u32) -> Kuni {
        self.spec_consume(0, 0, amount).spec_modify_tyu(Self::charity_gain(amount, multiplier) as int)
    }

    /// Sells rice for gold at a price of `bias` tenths of gold per unit:
    /// `amount` rice is taken and `amount * bias / 10` gold added. Fails,
    /// changing nothing, when the province holds less rice than `amount`.
    pub fn sell_rice_at(&mut self, amount: u32, bias: u32) -> (r: Result<u32, DomainError>)
        requires
            amount * bias <= u32::MAX,
        ensures
            r matches Ok(g) ==> g == Self::rice_cost(amount, bias),
            r is Ok <==> old(self).resource.kome.0 >= amount,
            r is Ok ==> *final(self) == old(self).spec_sold_rice(amount, bias),
            r matches Err(e) ==> *final(self) == *old(self) && is_insufficient(
                e,
                "Insufficient resources"@,
            ),
    {
        let gain = (amount * bias) / 10;
        self.consume_resource(0, 0, amount)?;
        self.add_resource(gain, 0, 0);
        Ok(gain)
    }

    /// Sells `amount` rice at a random price between 1.0 and 2.0 gold per
    /// unit.
    pub fn sell_rice(&mut self, amount: u32) -> (r: Result<u32, DomainError>)
        requires
            amount * 20 <= u32::MAX,
        ensures
            r matches Ok(g) ==> exists|bias: u32| 10 <= bias <= 20 && g == Self::rice_cost(amount, bias) && *final(self) == old(self).spec_sold_rice(amount, bias),
            r is Ok <==> old(self).resource.kome.0 >= amount,
            r matches Err(e) ==> *final(self) == *old(self) && is_insufficient(
                e,
                "Insufficient resources"@,
            ),
    {
        let bias = random_in_range(10, 20).get();
        proof {
            assert(amount * bias <= amount * 20) by (nonlinear_arith)
                requires bias <= 20;
        }
        self.sell_rice_at(amount, bias)
    }

    /// Buys `amount` rice at a price of `bias` tenths of gold per unit. Fails,
    /// changing nothing, when the province holds less gold than the price.
    pub fn buy_rice_at(&mut self, amount: u32, bias: u32) -> (r: Result<u32, DomainError>)
        requires
            amount * bias <= u32::MAX,
        ensures
            r matches Ok(g) ==> g == Self::rice_cost(amount, bias),
            r is Ok <==> old(self).resource.kin.0 >= Self::rice_cost(amount, bias),
            r is Ok ==> *final(self) == old(self).spec_bought_rice(amount, bias),
            r matches Err(e) ==> *final(self) == *old(self) && is_insufficient(
                e,
                "Insufficient resources"@,
            ),
    {
        let cost = (amount * bias) / 10;
        self.consume_resource(cost, 0, 0)?;
        self.add_resource(0, 0, amount);
        Ok(cost)
    }

    /// Buys `amount` rice at a random price between 1.0 and 2.0 gold per
    /// unit.
    pub fn buy_rice(&mut self, amount: u32) -> (r: Result<u32, DomainError>)
        requires
            amount * 20 <= u32::MAX,
        ensures
            r matches Ok(g) ==> exists|bias: u32| 10 <= bias <= 20 && g == Self::rice_cost(amount, bias) && old(self).resource.kin.0 >= Self::rice_cost(amount, bias) && *final(self) == old(self).spec_bought_rice(amount, bias),
            r matches Err(e) ==> *final(self) == *old(self) && is_insufficient(
                e,
                "Insufficient resources"@,
            ) && old(self).resource.kin.0 < amount * 2,
            old(self).resource.kin.0 >= amount * 2 ==> r is Ok,
            old(self).resource.kin.0 < amount ==> r is Err,
            r is Err ==> exists|bias: u32|
                10 <= bias <= 20 && old(self).resource.kin.0 < Self::rice_cost(amount, bias),
    {
        let bias = random_in_range(10, 20).get();
        proof {
            assert(amount * bias <= amount * 20) by (nonlinear_arith)
                requires bias <= 20;
            assert(amount * bias / 10 <= amount * 2) by (nonlinear_arith)
                requires bias <= 20;
            assert(amount * bias / 10 >= amount) by (nonlinear_arith)
                requires bias >= 10;
        }
        self.buy_rice_at(amount, bias)
    }

    /// Invests `investment` gold in land; the yield rises by
    /// `investment * multiplier`. Fails, changing nothing, when the province
    /// holds less gold than `investment`.
    pub fn develop_land_at(&mut self, investment: u32, multiplier: u32) -> (r: Result<u32, DomainError>)
        requires
            investment * multiplier <= u32::MAX,
        ensures
            r matches Ok(g) ==> g == investment * multiplier,
            r is Ok <==> old(self).resource.kin.0 >= investment,
            r is Ok ==> *final(self) == old(self).spec_developed_land(investment, multiplier),
            r matches Err(e) ==> *final(self) == *old(self) && is_insufficient(
                e,
                "Insufficient resources"@,
            ),
    {
        let gain = investment * multiplier;
        self.consume_resource(investment, 0, 0)?;
        self.stats.kokudaka = self.stats.kokudaka.add(Amount::new(gain));
        Ok(gain)
    }

    /// Invests `investment` gold in land with a random multiplier between 45
    /// and 54.
    pub fn develop_land(&mut self, investment: u32) -> (r: Result<u32, DomainError>)
        requires
            investment * 54 <= u32::MAX,
        ensures
            r matches Ok(g) ==> exists|m: u32| 45 <= m <= 54 && g == investment * m && *final(self) == old(self).spec_developed_land(investment, m),
            r is Ok <==> old(self).resource.kin.0 >= investment,
            r matches Err(e) ==> *final(self) == *old(self) && is_insufficient(
                e,
                "Insufficient resources"@,
            ),
    {
        let multiplier = random_in_range(45, 54).get();
        proof {
            assert(investment * multiplier <= investment * 54) by (nonlinear_arith)
                requires multiplier <= 54;
        }
        self.develop_land_at(investment, multiplier)
    }

    /// Invests `investment` gold in the town; the town size rises by
    /// `investment * multiplier`. Fails, changing nothing, when the province
    /// holds less gold than `investment`.
    pub fn build_town_at(&mut self, investment: u32, multiplier: u32) -> (r: Result<u32, DomainError>)
        requires
            investment * multiplier <= u32::MAX,
        ensures
            r matches Ok(g) ==> g == investment * multiplier,
            r is Ok <==> old(self).resource.kin.0 >= investment,
            r is Ok ==> *final(self) == old(self).spec_built_town(investment, multiplier),
            r matches Err(e) ==> *final(self) == *old(self) && is_insufficient(
                e,
                "Insufficient resources"@,
            ),
    {
        let gain = investment * multiplier;
        self.consume_resource(investment, 0, 0)?;
        self.stats.machi = self.stats.machi.add(Amount::new(gain));
        Ok(gain)
    }

    /// Invests `investment` gold in the town with a random multiplier between
    /// 45 and 54.
    pub fn build_town(&mut self, investment: u32) -> (r: Result<u32, DomainError>)
        requires
            investment * 54 <= u32::MAX,
        ensures
            r matches Ok(g) ==> exists|m: u32| 45 <= m <= 54 && g == investment * m && *final(self) == old(self).spec_built_town(investment, m),
            r is Ok <==> old(self).resource.kin.0 >= investment,
            r matches Err(e) ==> *final(self) == *old(self) && is_insufficient(
                e,
                "Insufficient resources"@,
            ),
    {
        let multiplier = random_in_range(45, 54).get();
        proof {
            assert(investment * multiplier <= investment * 54) by (nonlinear_arith)
                requires multiplier <= 54;
        }
        self.build_town_at(investment, multiplier)
    }

    /// Recruits `amount` troops. Fails, changing nothing, when the population
    /// is smaller than `amount` ("人口不足") or the gold is less than half of
    /// `amount`.
    pub fn recruit_troops(&mut self, amount: u32) -> (r: Result<(), DomainError>)
        requires
            old(self).recruit_ok(amount),
        ensures
            r is Ok <==> old(self).resource.jinko.0 >= amount && old(self).resource.kin.0 >= amount / 2,
            r is Ok ==> *final(self) == old(self).spec_recruited(amount),
            r is Err ==> *final(self) == *old(self),
            r matches Err(e) ==> (if old(self).resource.jinko.0 < amount {
                is_insufficient(e, "人口不足"@)
            } else {
                is_insufficient(e, "Insufficient resources"@)
            }),
    {
        let cost = amount / 2;
        let population_cost = amount;

        if self.resource.jinko.value() < population_cost {
            return Err(DomainError::InsufficientResource(String::from_str("人口不足")));
        }

        self.consume_resource(cost, 0, 0)?;
        let pop = to_i32_wrapping(population_cost);
        self.modify_jinko(-pop);
        let half: i32 = (amount / 2) as i32;
        self.modify_tyu(-half);
        self.add_resource(0, amount, 0);
        Ok(())
    }

    /// Dismisses `amount` troops back into the population. Fails, changing
    /// nothing, when the province has fewer troops than `amount`.
    pub fn dismiss_troops(&mut self, amount: u32) -> (r: Result<(), DomainError>)
        requires
            old(self).dismiss_ok(amount),
        ensures
            r is Ok <==> old(self).resource.hei.0 >= amount,
            r is Ok ==> *final(self) == old(self).spec_dismissed(amount),
            r matches Err(e) ==> *final(self) == *old(self) && is_insufficient(
                e,
                "Insufficient resources"@,
            ),
    {
        self.consume_resource(0, amount, 0)?;
        let pop = to_i32_wrapping(amount);
        self.modify_jinko(pop);
        let half: i32 = (amount / 2) as i32;
        self.modify_tyu(half);
        Ok(())
    }

    /// Gives `amount` rice as charity; loyalty rises by
    /// `amount * multiplier / 10`. Fails, changing nothing, when the province
    /// holds less rice than `amount`.
    pub fn give_charity_at(&mut self, amount: u32, multiplier: u32) -> (r: Result<u32, DomainError>)
        requires
            old(self).resource.kome.0 >= amount ==> amount * multiplier <= u32::MAX
                && old(self).tyu_shift_ok(Self::charity_gain(amount, multiplier) as int),
        ensures
            r matches Ok(g) ==> g == Self::charity_gain(amount, multiplier),
            r is Ok <==> old(self).resource.kome.0 >= amount,
            r is Ok ==> *final(self) == old(self).spec_gave_charity(amount, multiplier),
            r matches Err(e) ==> *final(self) == *old(self) && is_insufficient(
                e,
                "Insufficient resources"@,
            ),
    {
        self.consume_resource(0, 0, amount)?;
        let tyu_gain = (amount * multiplier) / 10;
        proof {
            assert(tyu_gain <= 0x7fff_ffff);
        }
        self.modify_tyu(tyu_gain as i32);
        Ok(tyu_gain)
    }

    /// Gives `amount` rice as charity with a random multiplier between 5 and
    /// 10 (loyalty rises by 0.5 to 1.0 per unit). The multiplier is drawn
    /// only when the rice suffices.
    pub fn give_charity(&mut self, amount: u32) -> (r: Result<u32, DomainError>)
        requires
            old(self).resource.kome.0 >= amount ==> amount * 10 <= u32::MAX
                && old(self).tyu_shift_ok(amount as int),
        ensures
            r matches Ok(g) ==> exists|m: u32| 5 <= m <= 10 && g == Self::charity_gain(amount, m) && *final(self) == old(self).spec_gave_charity(amount, m),
            r is Ok <==> old(self).resource.kome.0 >= amount,
            r matches Err(e) ==> *final(self) == *old(self) && is_insufficient(
                e,
                "Insufficient resources"@,
            ),
    {
        if !self.resource.can_consume(0, 0, amount) {
            return Err(DomainError::InsufficientResource(String::from_str("Insufficient resources")));
        }
        let multiplier = random_in_range(5, 10).get();
        proof {
            assert(amount * multiplier <= amount * 10) by (nonlinear_arith)
                requires multiplier <= 10;
            assert(amount * multiplier / 10 <= amount) by (nonlinear_arith)
                requires multiplier <= 10;
        }
        self.give_charity_at(amount, multiplier)
    }
}

} // verus!
