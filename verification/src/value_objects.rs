use vstd::prelude::*;

verus! {

/// Identifier of a province (kuni).
#[derive(Debug, Clone, Copy, PartialEq, Eq, Hash, Structural)]
pub struct KuniId(pub u32);

/// Identifier of a warlord (daimyo).
#[derive(Debug, Clone, Copy, PartialEq, Eq, Hash, Structural)]
pub struct DaimyoId(pub u32);

/// Whether a province's government is delegated to the computer.
pub type IninFlag = bool;

/// A non-negative quantity of a resource (gold, troops, rice, population,
/// land yield, town size).
///
/// Arithmetic on amounts saturates at the bounds of `u32`: adding never
/// overflows and subtracting never goes below zero.
#[derive(Debug, Clone, Copy, PartialEq, Eq, Structural)]
pub struct Amount(pub u32);

/// The value `a + b` clipped to the range of `u32`.
pub open spec fn saturating_sum(a: u32, b: u32) -> u32 {
    if a + b > u32::MAX { u32::MAX } else { (a + b) as u32 }
}

/// The value `a - b` clipped at zero.
pub open spec fn saturating_diff(a: u32, b: u32) -> u32 {
    if a < b { 0 } else { (a - b) as u32 }
}

/// How many internal units make one unit shown to the player.
pub open spec fn display_scale() -> u32 {
    100
}

/// The internal amount for `v` units shown to the player, saturating at
/// `u32::MAX`.
pub open spec fn spec_from_display(v: u32) -> u32 {
    if v * display_scale() > u32::MAX { u32::MAX } else { (v * display_scale()) as u32 }
}

impl Amount {
    /// The amount for `v` units as the player types them (hundredths are
    /// kept internally), saturating at `u32::MAX`.
    pub fn from_display(v: u32) -> (r: Amount)
        ensures
            r.0 == spec_from_display(v),
    {
        if v > u32::MAX / 100 { Amount(u32::MAX) } else { Amount(v * 100) }
    }

    /// The amount as shown to the player: whole hundreds, rounded down.
    pub fn to_display(&self) -> (r: u32)
        ensures
            r == self.0 / display_scale(),
    {
        self.0 / 100
    }

    pub fn new(value: u32) -> (r: Amount)
        ensures
            r.0 == value,
    {
        Amount(value)
    }

    pub fn value(&self) -> (r: u32)
        ensures
            r == self.0,
    {
        self.0
    }

    /// The sum of two amounts, saturating at `u32::MAX`.
    pub fn add(self, other: Amount) -> (r: Amount)
        ensures
            r.0 == saturating_sum(self.0, other.0),
    {
        Amount(self.0.saturating_add(other.0))
    }

    /// The difference of two amounts, saturating at zero.
    pub fn sub(self, other: Amount) -> (r: Amount)
        ensures
            r.0 == saturating_diff(self.0, other.0),
    {
        Amount(self.0.saturating_sub(other.0))
    }
}

/// A rate in percent, such as the loyalty (tyu) of a province's people.
#[derive(Debug, Clone, Copy, PartialEq, Eq, Structural)]
pub struct Rate(pub u32);

impl Rate {
    pub fn new(value: u32) -> (r: Rate)
        ensures
            r.0 == value,
    {
        Rate(value)
    }

    pub fn value(&self) -> (r: u32)
        ensures
            r == self.0,
    {
        self.0
    }
}

} // verus!
