use vstd::prelude::*;
use rand::Rng;
use rand::seq::SliceRandom;
use crate::value_objects::KuniId;

verus! {

/// A number drawn by `random_in_range` from `low..=high`. The fields are
/// private to this module, and `random_in_range` is the only function that
/// makes a roll: the value of every roll is a number that the random source
/// gave.
pub struct Roll {
    value: u32,
    low: u32,
    high: u32,
}

/// `r` is a roll from `low..=high` that came out as `v`.
pub open spec fn rolled(r: Roll, low: u32, high: u32, v: u32) -> bool {
    r.low() == low && r.high() == high && r.value() == v
}

impl Roll {
    /// The number drawn.
    pub closed spec fn value(&self) -> u32 {
        self.value
    }

    /// The low end of the range drawn from.
    pub closed spec fn low(&self) -> u32 {
        self.low
    }

    /// The high end of the range drawn from.
    pub closed spec fn high(&self) -> u32 {
        self.high
    }

    /// The number drawn.
    pub fn get(&self) -> (v: u32)
        ensures
            v == self.value(),
    {
        self.value
    }
}

/// Draws a number uniformly from `low..=high` with `rand::Rng::gen_range`
/// on the thread-local generator (`rand::thread_rng`) and returns it as a
/// roll of that range. The contract claims only that the number lies in the
/// range; `gen_range` panics on an empty range, which `requires` rules out.
/// Two calls may return different values.
#[verifier::external_body]
pub(crate) fn random_in_range(low: u32, high: u32) -> (r: Roll)
    requires
        low <= high,
    ensures
        r.low() == low,
        r.high() == high,
        low <= r.value() <= high,
{
    Roll { value: rand::thread_rng().gen_range(low..=high), low, high }
}

/// Identifiers in the order that `shuffle_ids` left them. The field is
/// private to this module, and `shuffle_ids` is the only function that
/// makes one: every such order came out of the shuffle.
pub struct Shuffled {
    ids: Vec<KuniId>,
}

impl Shuffled {
    /// The identifiers, in their shuffled order.
    pub closed spec fn ids(&self) -> Seq<KuniId> {
        self.ids@
    }

    /// The identifiers, in their shuffled order.
    pub fn into_vec(self) -> (r: Vec<KuniId>)
        ensures
            r@ == self.ids(),
    {
        self.ids
    }
}

/// Shuffles `ids` with `rand::seq::SliceRandom::shuffle` on the thread-local
/// generator, whose source swaps elements (a Fisher-Yates shuffle): the
/// result is a permutation of the input. The contract claims only that;
/// which permutation comes out rests on chance.
#[verifier::external_body]
pub(crate) fn shuffle_ids(ids: Vec<KuniId>) -> (r: Shuffled)
    ensures
        r.ids().to_multiset() == ids@.to_multiset(),
{
    let mut ids = ids;
    ids.shuffle(&mut rand::thread_rng());
    Shuffled { ids }
}

} // verus!
