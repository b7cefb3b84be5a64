use vstd::prelude::*;
use crate::value_objects::DaimyoId;

verus! {

/// A warlord who rules provinces.
#[derive(Debug, Clone)]
pub struct Daimyo {
    pub id: DaimyoId,
    pub name: String,
}

impl Daimyo {
    pub fn new(id: DaimyoId, name: &str) -> (r: Daimyo)
        ensures
            r.id == id,
            r.name@ == name@,
    {
        Daimyo { id, name: String::from_str(name) }
    }

    /// An exact copy of the warlord.
    pub fn duplicate(&self) -> (r: Daimyo)
        ensures
            r == *self,
    {
        Daimyo { id: self.id, name: self.name.clone() }
    }
}

} // verus!
