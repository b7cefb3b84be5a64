use vstd::prelude::*;
use crate::error::DomainError;
use crate::kuni::Kuni;

verus! {

/// A domestic action that a computer-run province takes, with the random
/// numbers that the action uses already drawn.
#[derive(Debug, Clone, Copy, PartialEq, Eq, Structural)]
pub enum CpuDecision {
    /// Sell `amount` rice at `bias` tenths of gold per unit.
    SellRice { amount: u32, bias: u32 },
    /// Buy `amount` rice at `bias` tenths of gold per unit.
    BuyRice { amount: u32, bias: u32 },
    /// Invest `amount` gold in land at `multiplier` tenths per unit.
    DevelopLand { amount: u32, multiplier: u32 },
    /// Invest `amount` gold in the town at `multiplier` tenths per unit.
    BuildTown { amount: u32, multiplier: u32 },
    /// Recruit `amount` troops.
    Recruit { amount: u32 },
    /// Dismiss `amount` troops.
    Dismiss { amount: u32 },
    /// Give `amount` rice as charity at `multiplier` tenths of loyalty per unit.
    GiveCharity { amount: u32, multiplier: u32 },
    /// Do nothing this turn.
    Rest,
}

/// The province can afford decision `d`.
pub open spec fn decision_applies(k: Kuni, d: CpuDecision) -> bool {
    match d {
        CpuDecision::SellRice { amount, bias } => k.resource.kome.0 >= amount,
        CpuDecision::BuyRice { amount, bias } => k.resource.kin.0 >= Kuni::rice_cost(amount, bias),
        CpuDecision::DevelopLand { amount, multiplier } => k.resource.kin.0 >= amount,
        CpuDecision::BuildTown { amount, multiplier } => k.resource.kin.0 >= amount,
        CpuDecision::Recruit { amount } => k.resource.jinko.0 >= amount && k.resource.kin.0 >= amount / 2,
        CpuDecision::Dismiss { amount } => k.resource.hei.0 >= amount,
        CpuDecision::GiveCharity { amount, multiplier } => k.resource.kome.0 >= amount,
        CpuDecision::Rest => true,
    }
}

/// Decision `d` overflows no arithmetic on the province.
pub open spec fn decision_ok(k: Kuni, d: CpuDecision) -> bool {
    match d {
        CpuDecision::SellRice { amount, bias } => amount * bias <= u32::MAX,
        CpuDecision::BuyRice { amount, bias } => amount * bias <= u32::MAX,
        CpuDecision::DevelopLand { amount, multiplier } => amount * multiplier <= u32::MAX,
        CpuDecision::BuildTown { amount, multiplier } => amount * multiplier <= u32::MAX,
        CpuDecision::Recruit { amount } => k.recruit_ok(amount),
        CpuDecision::Dismiss { amount } => k.dismiss_ok(amount),
        CpuDecision::GiveCharity { amount, multiplier } => k.resource.kome.0 >= amount ==> amount * multiplier
            <= u32::MAX && k.tyu_shift_ok(Kuni::charity_gain(amount, multiplier) as int),
        CpuDecision::Rest => true,
    }
}

/// The province after decision `d`; one that it cannot afford leaves it
/// as it was.
pub open spec fn spec_apply_decision(k: Kuni, d: CpuDecision) -> Kuni {
    if !decision_applies(k, d) {
        k
    } else {
        match d {
            CpuDecision::SellRice { amount, bias } => k.spec_sold_rice(amount, bias),
            CpuDecision::BuyRice { amount, bias } => k.spec_bought_rice(amount, bias),
            CpuDecision::DevelopLand { amount, multiplier } => k.spec_developed_land(amount, multiplier),
            CpuDecision::BuildTown { amount, multiplier } => k.spec_built_town(amount, multiplier),
            CpuDecision::Recruit { amount } => k.spec_recruited(amount),
            CpuDecision::Dismiss { amount } => k.spec_dismissed(amount),
            CpuDecision::GiveCharity { amount, multiplier } => k.spec_gave_charity(amount, multiplier),
            CpuDecision::Rest => k,
        }
    }
}

/// Applies a computer-run province's domestic decision to it. Fails,
/// changing nothing, when the province cannot afford it.
pub fn apply_cpu_decision(kuni: &mut Kuni, d: CpuDecision) -> (r: Result<(), DomainError>)
    requires
        decision_ok(*old(kuni), d),
    ensures
        r is Ok <==> decision_applies(*old(kuni), d),
        *final(kuni) == spec_apply_decision(*old(kuni), d),
{
    let outcome = match d {
        CpuDecision::SellRice { amount, bias } => kuni.sell_rice_at(amount, bias),
        CpuDecision::BuyRice { amount, bias } => kuni.buy_rice_at(amount, bias),
        CpuDecision::DevelopLand { amount, multiplier } => kuni.develop_land_at(amount, multiplier),
        CpuDecision::BuildTown { amount, multiplier } => kuni.build_town_at(amount, multiplier),
        CpuDecision::Recruit { amount } => kuni.recruit_troops(amount).map(|_u: ()| 0u32),
        CpuDecision::Dismiss { amount } => kuni.dismiss_troops(amount).map(|_u: ()| 0u32),
        CpuDecision::GiveCharity { amount, multiplier } => kuni.give_charity_at(amount, multiplier),
        CpuDecision::Rest => Ok(0u32),
    };
    match outcome {
        Ok(_) => Ok(()),
        Err(e) => Err(e),
    }
}

} // verus!
