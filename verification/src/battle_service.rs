use vstd::prelude::*;
use crate::error::DomainError;
use crate::kuni::Kuni;
use crate::value_objects::saturating_diff;

verus! {

/// The tactic that a side chooses for a round of battle.
#[derive(Debug, Clone, Copy, PartialEq, Eq, Structural)]
pub enum Tactic {
    Normal,
    Surprise,
    Fire,
    Inspire,
}

/// The outcome of a round of battle: both provinces afterwards, and the
/// winner if the battle has ended.
#[derive(Debug)]
pub struct BattleResult {
    pub attacker_kuni: Kuni,
    pub defender_kuni: Kuni,
    /// `None` while the battle goes on.
    pub winner: Option<BattleSide>,
}

/// A side of a battle.
#[derive(Debug, Clone, Copy, PartialEq, Eq, Structural)]
pub enum BattleSide {
    Attacker,
    Defender,
}

/// The battle rules.
pub struct BattleService;

/// The effect of a pair of tactics, as the battle table gives it.
pub struct TacticEffect {
    /// Damage dealt to the defender's troops, in percent of the troops sent.
    pub damage_percent: u32,
    /// Change of the attacker's loyalty.
    pub attacker_tyu: int,
    /// Change of the defender's loyalty.
    pub defender_tyu: int,
    /// The attacker loses 30% of its troops (fire against fire).
    pub attacker_burnt: bool,
    /// The defender loses 50% of its rice (fire against anything else).
    pub defender_burnt: bool,
}

/// The battle table: what a pair of tactics does.
///
/// | attacker | defender | effect |
/// |---|---|---|
/// | Normal | Normal | 180% damage |
/// | Surprise | Normal | 40% damage, attacker loyalty +10, defender −10 |
/// | Surprise | Surprise | 300% damage, attacker loyalty −10 |
/// | Fire | Fire | 100% damage, attacker loses 30% of troops and 10 loyalty |
/// | Fire | other | 100% damage, defender loses 50% of rice and 10 loyalty, attacker +10 |
/// | other | Inspire | 100% damage, defender loyalty +15 |
/// | otherwise | | 60% damage |
pub open spec fn tactic_effect(at: Tactic, dt: Tactic) -> TacticEffect {
    let plain = TacticEffect {
        damage_percent: 100,
        attacker_tyu: 0,
        defender_tyu: 0,
        attacker_burnt: false,
        defender_burnt: false,
    };
    match (at, dt) {
        (Tactic::Normal, Tactic::Normal) => TacticEffect { damage_percent: 180, ..plain },
        (Tactic::Surprise, Tactic::Normal) => TacticEffect {
            damage_percent: 40,
            attacker_tyu: 10,
            defender_tyu: -10,
            ..plain
        },
        (Tactic::Surprise, Tactic::Surprise) => TacticEffect {
            damage_percent: 300,
            attacker_tyu: -10,
            ..plain
        },
        (Tactic::Fire, Tactic::Fire) => TacticEffect {
            attacker_tyu: -10,
            attacker_burnt: true,
            ..plain
        },
        (Tactic::Fire, _) => TacticEffect {
            attacker_tyu: 10,
            defender_tyu: -10,
            defender_burnt: true,
            ..plain
        },
        (_, Tactic::Inspire) => TacticEffect { defender_tyu: 15, ..plain },
        _ => TacticEffect { damage_percent: 60, ..plain },
    }
}

/// The province after losing `percent`% of its troops (rounded down).
pub open spec fn lose_troops(k: Kuni, percent: u32) -> Kuni {
    k.spec_consume(0, (k.resource.hei.0 * percent / 100) as u32, 0)
}

/// The province after losing `percent`% of its rice (rounded down).
pub open spec fn lose_rice(k: Kuni, percent: u32) -> Kuni {
    k.spec_consume(0, 0, (k.resource.kome.0 * percent / 100) as u32)
}

/// The province has been beaten: no troops, no rice or no loyalty left.
pub open spec fn is_defeated(k: Kuni) -> bool {
    k.resource.hei.0 == 0 || k.resource.kome.0 == 0 || k.stats.tyu.0 == 0
}

/// The attacker after the effects of the tactics.
pub open spec fn attacker_after_tactics(attacker: Kuni, at: Tactic, dt: Tactic) -> Kuni {
    let e = tactic_effect(at, dt);
    let a = if e.attacker_burnt { lose_troops(attacker, 30) } else { attacker };
    if e.attacker_tyu != 0 { a.spec_modify_tyu(e.attacker_tyu) } else { a }
}

/// The defender after the effects of the tactics and the damage dealt by
/// `troops` attacking troops; troops never fall below zero.
pub open spec fn defender_after_round(defender: Kuni, at: Tactic, dt: Tactic, troops: u32) -> Kuni {
    let e = tactic_effect(at, dt);
    let d = if e.defender_burnt { lose_rice(defender, 50) } else { defender };
    let d = if e.defender_tyu != 0 { d.spec_modify_tyu(e.defender_tyu) } else { d };
    let damage = (troops * e.damage_percent / 100) as u32;
    d.with_resource(
        crate::resource::Resource {
            hei: crate::value_objects::Amount(saturating_diff(d.resource.hei.0, damage)),
            ..d.resource
        },
    )
}

/// The attacker after feeding its troops: 30% of the troops sent in rice,
/// or, when the rice does not suffice, a loss of 40 loyalty.
pub open spec fn attacker_after_supply(a: Kuni, troops: u32) -> Kuni {
    let food = (troops * 30 / 100) as u32;
    if a.resource.kome.0 >= food { a.spec_consume(0, 0, food) } else { a.spec_modify_tyu(-40) }
}

/// The winner of a round: the attacker if the defender is beaten, else the
/// defender if the attacker is beaten, else nobody yet.
pub open spec fn spec_winner(a: Kuni, d: Kuni) -> Option<BattleSide> {
    if is_defeated(d) {
        Some(BattleSide::Attacker)
    } else if is_defeated(a) {
        Some(BattleSide::Defender)
    } else {
        None
    }
}

/// One round of battle as the rules define it: tactics take effect, the
/// defender takes damage, the attacker feeds its troops, a winner is
/// decided, and a victorious attacker takes the defender's troops and rice.
pub open spec fn spec_calculate_turn(
    attacker: Kuni,
    defender: Kuni,
    at: Tactic,
    dt: Tactic,
    troops: u32,
) -> BattleResult {
    let a = attacker_after_supply(attacker_after_tactics(attacker, at, dt), troops);
    let d = defender_after_round(defender, at, dt, troops);
    let winner = spec_winner(a, d);
    let a = if winner == Some(BattleSide::Attacker) {
        a.spec_add(0, d.resource.hei.0, d.resource.kome.0)
    } else {
        a
    };
    BattleResult { attacker_kuni: a, defender_kuni: d, winner }
}

/// A round with these inputs overflows no arithmetic.
pub open spec fn calculate_turn_ok(
    attacker: Kuni,
    defender: Kuni,
    at: Tactic,
    dt: Tactic,
    troops: u32,
) -> bool {
    let e = tactic_effect(at, dt);
    &&& attacker.tyu_shift_ok(e.attacker_tyu)
    &&& defender.tyu_shift_ok(e.defender_tyu)
    &&& attacker.resource.kome.0 < troops * 30 / 100 ==> attacker_after_tactics(
        attacker,
        at,
        dt,
    ).tyu_shift_ok(-40)
    &&& e.damage_percent != 100 ==> troops * e.damage_percent <= u32::MAX
    &&& troops * 30 <= u32::MAX
    &&& e.attacker_burnt ==> attacker.resource.hei.0 * 30 <= u32::MAX
    &&& e.defender_burnt ==> defender.resource.kome.0 * 50 <= u32::MAX
}

impl BattleService {
    /// Plays one round of battle between `attacker`, who sends
    /// `attacker_troops` troops, and `defender`. Always succeeds.
    pub fn calculate_turn(
        attacker: Kuni,
        defender: Kuni,
        attacker_tactic: Tactic,
        defender_tactic: Tactic,
        attacker_troops: u32,
    ) -> (r: Result<BattleResult, DomainError>)
        requires
            calculate_turn_ok(attacker, defender, attacker_tactic, defender_tactic, attacker_troops),
        ensures
            r == Ok::<BattleResult, DomainError>(
                spec_calculate_turn(attacker, defender, attacker_tactic, defender_tactic, attacker_troops),
            ),
    {
        let mut attacker = attacker;
        let mut defender = defender;
        let mut base_damage = attacker_troops;

        match (attacker_tactic, defender_tactic) {
            (Tactic::Normal, Tactic::Normal) => {
                base_damage = (base_damage * 180) / 100;
            },
            (Tactic::Surprise, Tactic::Normal) => {
                base_damage = (base_damage * 40) / 100;
                defender.modify_tyu(-10);
                attacker.modify_tyu(10);
            },
            (Tactic::Surprise, Tactic::Surprise) => {
                base_damage = (base_damage * 300) / 100;
                attacker.modify_tyu(-10);
            },
            (Tactic::Fire, Tactic::Fire) => {
                let loss = (attacker.resource.hei.value() * 30) / 100;
                let _ = attacker.resource.consume(0, loss, 0);
                attacker.modify_tyu(-10);
            },
            (Tactic::Fire, _) => {
                let loss = (defender.resource.kome.value() * 50) / 100;
                let _ = defender.resource.consume(0, 0, loss);
                defender.modify_tyu(-10);
                attacker.modify_tyu(10);
            },
            (_, Tactic::Inspire) => {
                defender.modify_tyu(15);
            },
            _ => {
                base_damage = (base_damage * 60) / 100;
            },
        }

        // Damage: the defender's troops fall by the damage, never below zero.
        defender.resource.hei = defender.resource.hei.sub(crate::value_objects::Amount::new(base_damage));

        // 30% of the troops sent in rice; starvation costs 40 loyalty.
        let food_cost = (attacker_troops * 30) / 100;
        if attacker.resource.consume(0, 0, food_cost).is_err() {
            attacker.modify_tyu(-40);
        }

        let defender_beaten = defender.resource.hei.value() == 0
            || defender.resource.kome.value() == 0
            || defender.stats.tyu.value() == 0;
        let attacker_beaten = attacker.resource.hei.value() == 0
            || attacker.resource.kome.value() == 0
            || attacker.stats.tyu.value() == 0;
        let winner = if defender_beaten {
            Some(BattleSide::Attacker)
        } else if attacker_beaten {
            Some(BattleSide::Defender)
        } else {
            None
        };

        // A victorious attacker takes the defender's remaining troops and rice.
        if defender_beaten {
            attacker.add_resource(0, defender.resource.hei.value(), defender.resource.kome.value());
        }

        Ok(BattleResult { attacker_kuni: attacker, defender_kuni: defender, winner })
    }
    /// Whether a round with these inputs can be played: see
    /// `calculate_turn_ok`.
    pub fn round_fits(attacker: &Kuni, defender: &Kuni, at: Tactic, dt: Tactic, troops: u32) -> (r: bool)
        ensures
            r == calculate_turn_ok(*attacker, *defender, at, dt, troops),
    {
        let (damage, a_tyu, d_tyu, a_burnt, d_burnt): (u32, i32, i32, bool, bool) = match (at, dt) {
            (Tactic::Normal, Tactic::Normal) => (180, 0, 0, false, false),
            (Tactic::Surprise, Tactic::Normal) => (40, 10, -10, false, false),
            (Tactic::Surprise, Tactic::Surprise) => (300, -10, 0, false, false),
            (Tactic::Fire, Tactic::Fire) => (100, -10, 0, true, false),
            (Tactic::Fire, _) => (100, 10, -10, false, true),
            (_, Tactic::Inspire) => (100, 0, 15, false, false),
            _ => (60, 0, 0, false, false),
        };
        let ghost e = tactic_effect(at, dt);
        assert(damage == e.damage_percent && a_tyu == e.attacker_tyu && d_tyu == e.defender_tyu
            && a_burnt == e.attacker_burnt && d_burnt == e.defender_burnt);
        if troops > u32::MAX / 30 {
            return false;
        }
        if damage != 100 && troops > u32::MAX / damage {
            assert(troops * damage > u32::MAX) by (nonlinear_arith)
                requires
                    troops > u32::MAX / damage,
                    damage > 0,
            ;
            return false;
        }
        if a_burnt && attacker.resource.hei.value() > u32::MAX / 30 {
            return false;
        }
        if d_burnt && defender.resource.kome.value() > u32::MAX / 50 {
            return false;
        }
        if !attacker.tyu_shift_fits(a_tyu) || !defender.tyu_shift_fits(d_tyu) {
            return false;
        }
        let starving = attacker.resource.kome.value() < troops * 30 / 100;
        if starving && a_tyu == 0 && !attacker.tyu_shift_fits(-40) {
            return false;
        }
        proof {
            if damage != 100 {
                assert(troops * damage <= u32::MAX) by (nonlinear_arith)
                    requires
                        troops <= u32::MAX / damage,
                        damage > 0,
                ;
            }
        }
        true
    }
}

} // verus!
