use vstd::prelude::*;
use crate::value_objects::KuniId;

verus! {

/// The name recorded last for `id` in `entries`, if any.
pub open spec fn name_in(entries: Seq<(KuniId, Seq<char>)>, id: KuniId) -> Option<Seq<char>>
    decreases entries.len(),
{
    if entries.len() == 0 {
        None
    } else if entries.last().0 == id {
        Some(entries.last().1)
    } else {
        name_in(entries.drop_last(), id)
    }
}

/// A name as shown to the player: "不明" (unknown) where there is none.
pub open spec fn shown_name(n: Option<Seq<char>>) -> Seq<char> {
    match n {
        Some(name) => name,
        None => "不明"@,
    }
}

/// The names of the provinces.
#[derive(Debug, Clone)]
pub struct KuniNames {
    entries: Vec<(KuniId, String)>,
}

impl KuniNames {
    /// The name of province `id`, if one is recorded.
    pub closed spec fn name(&self, id: KuniId) -> Option<Seq<char>> {
        name_in(self.entries@.map_values(|e: (KuniId, String)| (e.0, e.1@)), id)
    }

    /// No province has a name.
    pub fn new() -> (r: KuniNames)
        ensures
            forall|id: KuniId| r.name(id) is None,
    {
        KuniNames { entries: Vec::new() }
    }

    /// The names of `entries`, a later entry for a province replacing an
    /// earlier one.
    pub fn from_entries(entries: Vec<(KuniId, String)>) -> (r: KuniNames)
        ensures
            forall|id: KuniId| #[trigger] r.name(id) == name_in(entries@.map_values(|e: (KuniId, String)| (e.0, e.1@)), id),
    {
        KuniNames { entries }
    }

    /// Names province `id`.
    pub fn set(&mut self, id: KuniId, name: &str)
        ensures
            final(self).name(id) == Some(name@),
            forall|other: KuniId| other != id ==> final(self).name(other) == old(self).name(other),
    {
        let ghost before = self.entries@.map_values(|e: (KuniId, String)| (e.0, e.1@));
        self.entries.push((id, String::from_str(name)));
        let ghost after = self.entries@.map_values(|e: (KuniId, String)| (e.0, e.1@));
        assert(after.drop_last() =~= before);
    }

    /// The name of province `id` as shown to the player.
    pub fn name_of(&self, id: KuniId) -> (r: String)
        ensures
            r@ == shown_name(self.name(id)),
    {
        let ghost all = self.entries@.map_values(|e: (KuniId, String)| (e.0, e.1@));
        let mut i: usize = self.entries.len();
        assert(all.subrange(0, i as int) == all);
        while i > 0
            invariant
                i <= self.entries.len(),
                all == self.entries@.map_values(|e: (KuniId, String)| (e.0, e.1@)),
                name_in(all, id) == name_in(all.subrange(0, i as int), id),
            decreases i,
        {
            let ghost pre = all.subrange(0, i as int);
            assert(pre.drop_last() == all.subrange(0, i - 1));
            assert(pre.last() == all[i - 1]);
            if self.entries[i - 1].0 == id {
                return self.entries[i - 1].1.clone();
            }
            i = i - 1;
        }
        String::from_str("不明")
    }
}

} // verus!
