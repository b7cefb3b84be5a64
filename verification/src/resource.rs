use vstd::prelude::*;
use crate::value_objects::{Amount, Rate, saturating_sum};

verus! {

/// The stock of a province: gold (kin), troops (hei), rice (kome) and
/// population (jinko).
#[derive(Debug, Clone, Copy, PartialEq, Eq, Structural)]
pub struct Resource {
    pub kin: Amount,
    pub hei: Amount,
    pub kome: Amount,
    pub jinko: Amount,
}

impl Resource {
    pub fn new(kin: u32, hei: u32, kome: u32, jinko: u32) -> (r: Resource)
        ensures
            r.kin.0 == kin,
            r.hei.0 == hei,
            r.kome.0 == kome,
            r.jinko.0 == jinko,
    {
        Resource {
            kin: Amount::new(kin),
            hei: Amount::new(hei),
            kome: Amount::new(kome),
            jinko: Amount::new(jinko),
        }
    }

    /// The stock holds at least the given gold, troops and rice.
    pub open spec fn spec_can_consume(&self, kin: u32, hei: u32, kome: u32) -> bool {
        self.kin.0 >= kin && self.hei.0 >= hei && self.kome.0 >= kome
    }

    /// The stock after taking the given gold, troops and rice.
    pub open spec fn spec_consumed(self, kin: u32, hei: u32, kome: u32) -> Resource {
        Resource {
            kin: Amount((self.kin.0 - kin) as u32),
            hei: Amount((self.hei.0 - hei) as u32),
            kome: Amount((self.kome.0 - kome) as u32),
            jinko: self.jinko,
        }
    }

    /// The stock after adding the given gold, troops and rice (each
    /// saturating at `u32::MAX`).
    pub open spec fn spec_added(self, kin: u32, hei: u32, kome: u32) -> Resource {
        Resource {
            kin: Amount(saturating_sum(self.kin.0, kin)),
            hei: Amount(saturating_sum(self.hei.0, hei)),
            kome: Amount(saturating_sum(self.kome.0, kome)),
            jinko: self.jinko,
        }
    }

    pub fn can_consume(&self, kin: u32, hei: u32, kome: u32) -> (r: bool)
        ensures
            r == self.spec_can_consume(kin, hei, kome),
    {
        self.kin.value() >= kin && self.hei.value() >= hei && self.kome.value() >= kome
    }

    /// Takes gold, troops and rice from the stock. When any of them is short,
    /// nothing is taken and an error is returned.
    pub fn consume(&mut self, kin: u32, hei: u32, kome: u32) -> (r: Result<(), &'static str>)
        ensures
            r is Ok <==> old(self).spec_can_consume(kin, hei, kome),
            r is Ok ==> *final(self) == old(self).spec_consumed(kin, hei, kome),
            r is Err ==> *final(self) == *old(self),
            r matches Err(msg) ==> msg@ == "Insufficient resources"@,
    {
        if !self.can_consume(kin, hei, kome) {
            return Err("Insufficient resources");
        }
        self.kin = self.kin.sub(Amount::new(kin));
        self.hei = self.hei.sub(Amount::new(hei));
        self.kome = self.kome.sub(Amount::new(kome));
        Ok(())
    }

    /// Adds gold, troops and rice to the stock.
    pub fn add(&mut self, kin: u32, hei: u32, kome: u32)
        ensures
            *final(self) == old(self).spec_added(kin, hei, kome),
    {
        self.kin = self.kin.add(Amount::new(kin));
        self.hei = self.hei.add(Amount::new(hei));
        self.kome = self.kome.add(Amount::new(kome));
    }
}

/// The development of a province: land yield (kokudaka), town size (machi)
/// and the loyalty of its people (tyu).
#[derive(Debug, Clone, Copy, PartialEq, Eq, Structural)]
pub struct DevelopmentStats {
    pub kokudaka: Amount,
    pub machi: Amount,
    pub tyu: Rate,
}

impl DevelopmentStats {
    pub fn new(kokudaka: u32, machi: u32, tyu: u32) -> (r: DevelopmentStats)
        ensures
            r.kokudaka.0 == kokudaka,
            r.machi.0 == machi,
            r.tyu.0 == tyu,
    {
        DevelopmentStats {
            kokudaka: Amount::new(kokudaka),
            machi: Amount::new(machi),
            tyu: Rate::new(tyu),
        }
    }
}

} // verus!
