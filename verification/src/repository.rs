use vstd::prelude::*;
use crate::daimyo::Daimyo;
use crate::kuni::Kuni;
use crate::value_objects::{DaimyoId, KuniId};

verus! {

/// The stored provinces, by identifier.
pub open spec fn kuni_map(v: Seq<Kuni>) -> Map<KuniId, Kuni> {
    Map::new(
        |id: KuniId| exists|i: int| 0 <= i < v.len() && v[i].id == id,
        |id: KuniId| v[choose|i: int| 0 <= i < v.len() && v[i].id == id],
    )
}

/// No two stored provinces share an identifier.
pub open spec fn unique_kuni_ids(v: Seq<Kuni>) -> bool {
    forall|i: int, j: int| 0 <= i < v.len() && 0 <= j < v.len() && i != j ==> v[i].id != v[j].id
}

/// `r` lists, once each, exactly the stored provinces that `pred` selects.
pub open spec fn lists_exactly(r: Seq<Kuni>, stored: Map<KuniId, Kuni>, pred: spec_fn(Kuni) -> bool) -> bool {
    &&& forall|i: int|
        0 <= i < r.len() ==> stored.contains_key(#[trigger] r[i].id) && stored[r[i].id] == r[i]
            && pred(r[i])
    &&& forall|id: KuniId|
        stored.contains_key(id) && pred(stored[id]) ==> exists|i: int| 0 <= i < r.len() && #[trigger] r[i].id == id
    &&& unique_kuni_ids(r)
}

/// Storage of provinces.
pub trait KuniRepository {
    /// The stored provinces, by identifier.
    spec fn kunis(&self) -> Map<KuniId, Kuni>;

    /// Every province is stored under its own identifier.
    proof fn lemma_stored_under_own_id(&self)
        ensures
            forall|id: KuniId| #[trigger] self.kunis().contains_key(id) ==> self.kunis()[id].id == id,
    ;

    /// The province with identifier `id`, if stored.
    fn find_by_id(&self, id: &KuniId) -> (r: Option<Kuni>)
        ensures
            r == (if self.kunis().contains_key(*id) { Some(self.kunis()[*id]) } else { None }),
    ;

    /// The provinces that warlord `daimyo_id` rules.
    fn find_by_daimyo_id(&self, daimyo_id: &DaimyoId) -> (r: Vec<Kuni>)
        ensures
            lists_exactly(r@, self.kunis(), |k: Kuni| k.daimyo_id == *daimyo_id),
    ;

    /// Stores `kuni`, replacing any province with its identifier.
    fn save(&mut self, kuni: &Kuni)
        ensures
            final(self).kunis() == old(self).kunis().insert(kuni.id, *kuni),
    ;

    /// All stored provinces.
    fn find_all(&self) -> (r: Vec<Kuni>)
        ensures
            lists_exactly(r@, self.kunis(), |k: Kuni| true),
    ;

    /// Removes every province.
    fn clear(&mut self)
        ensures
            final(self).kunis() == Map::<KuniId, Kuni>::empty(),
    ;
}

/// Provinces kept in memory, in the order in which they were first saved.
pub struct InMemoryKuniRepository {
    kunis: Vec<Kuni>,
}

impl InMemoryKuniRepository {
    #[verifier::type_invariant]
    spec fn inv(self) -> bool {
        unique_kuni_ids(self.kunis@)
    }

    /// The stored provinces in order.
    pub closed spec fn stored(&self) -> Seq<Kuni> {
        self.kunis@
    }

    /// An empty repository.
    pub fn new() -> (r: InMemoryKuniRepository)
        ensures
            r.kunis() == Map::<KuniId, Kuni>::empty(),
    {
        let r = InMemoryKuniRepository { kunis: Vec::new() };
        assert(r.kunis() =~= Map::<KuniId, Kuni>::empty());
        r
    }

    /// The index of the province with identifier `id`, if stored.
    fn position(&self, id: &KuniId) -> (r: Option<usize>)
        ensures
            r matches Some(i) ==> i < self.kunis@.len() && self.kunis@[i as int].id == *id,
            r is None ==> forall|i: int| 0 <= i < self.kunis@.len() ==> self.kunis@[i].id != *id,
    {
        let mut i: usize = 0;
        while i < self.kunis.len()
            invariant
                i <= self.kunis@.len(),
                forall|j: int| 0 <= j < i ==> self.kunis@[j].id != *id,
            decreases self.kunis@.len() - i,
        {
            if self.kunis[i].id == *id {
                return Some(i);
            }
            i = i + 1;
        }
        None
    }

    /// The stored provinces that `pred` selects, in storage order.
    fn select(&self, Ghost(pred): Ghost<spec_fn(Kuni) -> bool>, daimyo_id: Option<DaimyoId>) -> (r: Vec<Kuni>)
        requires
            forall|k: Kuni| #[trigger] pred(k) == (daimyo_id matches Some(d) ==> k.daimyo_id == d),
        ensures
            lists_exactly(r@, self.kunis(), pred),
    {
        proof {
            use_type_invariant(self);
        }
        let mut out: Vec<Kuni> = Vec::new();
        let mut i: usize = 0;
        let ghost v = self.kunis@;
        while i < self.kunis.len()
            invariant
                v == self.kunis@,
                unique_kuni_ids(v),
                forall|k: Kuni| #[trigger] pred(k) == (daimyo_id matches Some(d) ==> k.daimyo_id == d),
                i <= v.len(),
                forall|j: int|
                    0 <= j < out@.len() ==> exists|m: int| 0 <= m < i && v[m] == #[trigger] out@[j],
                forall|j: int| 0 <= j < out@.len() ==> pred(#[trigger] out@[j]),
                forall|m: int|
                    0 <= m < i && pred(v[m]) ==> exists|j: int| 0 <= j < out@.len() && #[trigger] out@[j] == v[m],
                unique_kuni_ids(out@),
            decreases v.len() - i,
        {
            let k = self.kunis[i];
            let keep = match daimyo_id {
                Some(d) => k.daimyo_id == d,
                None => true,
            };
            let ghost old_out = out@;
            if keep {
                proof {
                    assert forall|j: int| 0 <= j < out@.len() implies out@[j].id != k.id by {
                        let m = choose|m: int| 0 <= m < i && v[m] == #[trigger] out@[j];
                        assert(m != i);
                    }
                }
                out.push(k);
                proof {
                    assert(out@[out@.len() - 1] == v[i as int]);
                }
            }
            proof {
                assert forall|m: int| 0 <= m < i + 1 && pred(v[m]) implies exists|j: int|
                    0 <= j < out@.len() && #[trigger] out@[j] == v[m] by {
                    if m < i {
                        let j = choose|j: int| 0 <= j < old_out.len() && #[trigger] old_out[j] == v[m];
                        assert(out@[j] == old_out[j]);
                    } else {
                        assert(out@[out@.len() - 1] == v[m]);
                    }
                }
                assert forall|j: int| 0 <= j < out@.len() implies exists|m: int|
                    0 <= m < i + 1 && v[m] == #[trigger] out@[j] by {
                    if j < old_out.len() {
                        assert(out@[j] == old_out[j]);
                        let m = choose|m: int| 0 <= m < i && v[m] == #[trigger] old_out[j];
                        assert(v[m] == out@[j]);
                    } else {
                        assert(v[i as int] == out@[j]);
                    }
                }
            }
            i = i + 1;
        }
        proof {
            let stored = self.kunis();
            assert forall|j: int| 0 <= j < out@.len() implies stored.contains_key(#[trigger] out@[j].id)
                && stored[out@[j].id] == out@[j] && pred(out@[j]) by {
                let m = choose|m: int| 0 <= m < v.len() && v[m] == #[trigger] out@[j];
                assert(stored.contains_key(out@[j].id));
                let c = choose|c: int| 0 <= c < v.len() && v[c].id == out@[j].id;
                assert(c == m);
            }
            assert forall|id: KuniId| stored.contains_key(id) && pred(stored[id]) implies exists|j: int|
                0 <= j < out@.len() && #[trigger] out@[j].id == id by {
                let c = choose|c: int| 0 <= c < v.len() && v[c].id == id;
                let j = choose|j: int| 0 <= j < out@.len() && #[trigger] out@[j] == v[c];
                assert(out@[j].id == id);
            }
        }
        out
    }
}

impl KuniRepository for InMemoryKuniRepository {
    closed spec fn kunis(&self) -> Map<KuniId, Kuni> {
        kuni_map(self.kunis@)
    }

    proof fn lemma_stored_under_own_id(&self) {
        assert forall|id: KuniId| #[trigger] self.kunis().contains_key(id) implies self.kunis()[id].id == id by {
            let v = self.kunis@;
            let c = choose|c: int| 0 <= c < v.len() && v[c].id == id;
        }
    }

    fn find_by_id(&self, id: &KuniId) -> (r: Option<Kuni>) {
        proof {
            use_type_invariant(self);
        }
        match self.position(id) {
            Some(i) => {
                proof {
                    let v = self.kunis@;
                    let c = choose|c: int| 0 <= c < v.len() && v[c].id == *id;
                    assert(c == i as int);
                }
                Some(self.kunis[i])
            },
            None => None,
        }
    }

    fn find_by_daimyo_id(&self, daimyo_id: &DaimyoId) -> (r: Vec<Kuni>) {
        let ghost pred = |k: Kuni| k.daimyo_id == *daimyo_id;
        let r = self.select(Ghost(pred), Some(*daimyo_id));
        r
    }

    fn save(&mut self, kuni: &Kuni) {
        proof {
            use_type_invariant(&*self);
        }
        let ghost old_v = self.kunis@;
        match self.position(&kuni.id) {
            Some(i) => {
                let mut stored: Vec<Kuni> = Vec::new();
                std::mem::swap(&mut stored, &mut self.kunis);
                stored.set(i, *kuni);
                let ghost v = stored@;
                proof {
                    assert(v == old_v.update(i as int, *kuni));
                    assert(unique_kuni_ids(v)) by {
                        assert forall|a: int, b: int|
                            0 <= a < v.len() && 0 <= b < v.len() && a != b implies v[a].id != v[b].id by {
                            if a != i as int && b != i as int {
                                assert(old_v[a].id != old_v[b].id);
                            } else if a == i as int {
                                assert(old_v[i as int].id != old_v[b].id);
                            } else {
                                assert(old_v[i as int].id != old_v[a].id);
                            }
                        }
                    }
                    assert(kuni_map(v) =~= kuni_map(old_v).insert(kuni.id, *kuni)) by {
                        assert forall|id: KuniId| #[trigger] kuni_map(v).contains_key(id) ==
                            kuni_map(old_v).insert(kuni.id, *kuni).contains_key(id) by {
                            if exists|c: int| 0 <= c < v.len() && v[c].id == id {
                                let c = choose|c: int| 0 <= c < v.len() && v[c].id == id;
                                if c != i as int {
                                    assert(old_v[c].id == id);
                                }
                            }
                            if exists|c: int| 0 <= c < old_v.len() && old_v[c].id == id {
                                let c = choose|c: int| 0 <= c < old_v.len() && old_v[c].id == id;
                                assert(v[c].id == id);
                            }
                        }
                        assert forall|id: KuniId| #[trigger] kuni_map(v).contains_key(id) implies kuni_map(
                            v,
                        )[id] == kuni_map(old_v).insert(kuni.id, *kuni)[id] by {
                            let c = choose|c: int| 0 <= c < v.len() && v[c].id == id;
                            if id == kuni.id {
                                assert(c == i as int);
                            } else {
                                assert(c != i as int);
                                assert(old_v[c].id == id);
                                let c2 = choose|c2: int| 0 <= c2 < old_v.len() && old_v[c2].id == id;
                                assert(c2 == c);
                            }
                        }
                    }
                }
                self.kunis = stored;
            },
            None => {
                let mut stored: Vec<Kuni> = Vec::new();
                std::mem::swap(&mut stored, &mut self.kunis);
                stored.push(*kuni);
                let ghost v = stored@;
                proof {
                    assert(v == old_v.push(*kuni));
                    assert(unique_kuni_ids(v)) by {
                        assert forall|a: int, b: int|
                            0 <= a < v.len() && 0 <= b < v.len() && a != b implies v[a].id != v[b].id by {
                            if a < old_v.len() && b < old_v.len() {
                                assert(old_v[a].id != old_v[b].id);
                            }
                        }
                    }
                    assert(kuni_map(v) =~= kuni_map(old_v).insert(kuni.id, *kuni)) by {
                        let n = old_v.len() as int;
                        assert forall|id: KuniId| #[trigger] kuni_map(v).contains_key(id) ==
                            kuni_map(old_v).insert(kuni.id, *kuni).contains_key(id) by {
                            if id == kuni.id {
                                assert(v[n].id == id);
                            }
                            if exists|c: int| 0 <= c < v.len() && v[c].id == id {
                                let c = choose|c: int| 0 <= c < v.len() && v[c].id == id;
                                if c != n {
                                    assert(old_v[c].id == id);
                                }
                            }
                            if exists|c: int| 0 <= c < old_v.len() && old_v[c].id == id {
                                let c = choose|c: int| 0 <= c < old_v.len() && old_v[c].id == id;
                                assert(v[c].id == id);
                            }
                        }
                        assert forall|id: KuniId| #[trigger] kuni_map(v).contains_key(id) implies kuni_map(
                            v,
                        )[id] == kuni_map(old_v).insert(kuni.id, *kuni)[id] by {
                            let c = choose|c: int| 0 <= c < v.len() && v[c].id == id;
                            if id == kuni.id {
                                assert(c == n);
                            } else {
                                assert(c != n);
                                assert(old_v[c].id == id);
                                let c2 = choose|c2: int| 0 <= c2 < old_v.len() && old_v[c2].id == id;
                                assert(c2 == c);
                            }
                        }
                    }
                }
                self.kunis = stored;
            },
        }
    }

    fn find_all(&self) -> (r: Vec<Kuni>) {
        let ghost pred = |k: Kuni| true;
        self.select(Ghost(pred), None)
    }

    fn clear(&mut self) {
        *self = InMemoryKuniRepository::new();
    }
}


/// The stored warlords, by identifier.
pub open spec fn daimyo_map(v: Seq<Daimyo>) -> Map<DaimyoId, Daimyo> {
    Map::new(
        |id: DaimyoId| exists|i: int| 0 <= i < v.len() && v[i].id == id,
        |id: DaimyoId| v[choose|i: int| 0 <= i < v.len() && v[i].id == id],
    )
}

/// No two stored warlords share an identifier.
pub open spec fn unique_daimyo_ids(v: Seq<Daimyo>) -> bool {
    forall|i: int, j: int| 0 <= i < v.len() && 0 <= j < v.len() && i != j ==> v[i].id != v[j].id
}

/// `r` lists, once each, exactly the stored warlords.
pub open spec fn lists_all_daimyos(r: Seq<Daimyo>, stored: Map<DaimyoId, Daimyo>) -> bool {
    &&& forall|i: int|
        0 <= i < r.len() ==> stored.contains_key(#[trigger] r[i].id) && stored[r[i].id] == r[i]
    &&& forall|id: DaimyoId| stored.contains_key(id) ==> exists|i: int| 0 <= i < r.len() && #[trigger] r[i].id == id
    &&& unique_daimyo_ids(r)
}

/// Storage of warlords.
pub trait DaimyoRepository {
    /// The stored warlords, by identifier.
    spec fn daimyos(&self) -> Map<DaimyoId, Daimyo>;

    /// Every warlord is stored under its own identifier.
    proof fn lemma_stored_under_own_id(&self)
        ensures
            forall|id: DaimyoId| #[trigger] self.daimyos().contains_key(id) ==> self.daimyos()[id].id == id,
    ;

    /// The warlord with identifier `id`, if stored.
    fn find_by_id(&self, id: &DaimyoId) -> (r: Option<Daimyo>)
        ensures
            r == (if self.daimyos().contains_key(*id) { Some(self.daimyos()[*id]) } else { None }),
    ;

    /// Stores `daimyo`, replacing any warlord with its identifier.
    fn save(&mut self, daimyo: &Daimyo)
        ensures
            final(self).daimyos() == old(self).daimyos().insert(daimyo.id, *daimyo),
    ;

    /// All stored warlords.
    fn find_all(&self) -> (r: Vec<Daimyo>)
        ensures
            lists_all_daimyos(r@, self.daimyos()),
    ;

    /// Removes every warlord.
    fn clear(&mut self)
        ensures
            final(self).daimyos() == Map::<DaimyoId, Daimyo>::empty(),
    ;
}

/// Warlords kept in memory, in the order in which they were first saved.
pub struct InMemoryDaimyoRepository {
    daimyos: Vec<Daimyo>,
}

impl InMemoryDaimyoRepository {
    #[verifier::type_invariant]
    spec fn inv(self) -> bool {
        unique_daimyo_ids(self.daimyos@)
    }

    /// An empty repository.
    pub fn new() -> (r: InMemoryDaimyoRepository)
        ensures
            r.daimyos() == Map::<DaimyoId, Daimyo>::empty(),
    {
        let r = InMemoryDaimyoRepository { daimyos: Vec::new() };
        assert(r.daimyos() =~= Map::<DaimyoId, Daimyo>::empty());
        r
    }

    fn position(&self, id: &DaimyoId) -> (r: Option<usize>)
        ensures
            r matches Some(i) ==> i < self.daimyos@.len() && self.daimyos@[i as int].id == *id,
            r is None ==> forall|i: int| 0 <= i < self.daimyos@.len() ==> self.daimyos@[i].id != *id,
    {
        let mut i: usize = 0;
        while i < self.daimyos.len()
            invariant
                i <= self.daimyos@.len(),
                forall|j: int| 0 <= j < i ==> self.daimyos@[j].id != *id,
            decreases self.daimyos@.len() - i,
        {
            if self.daimyos[i].id == *id {
                return Some(i);
            }
            i = i + 1;
        }
        None
    }
}

impl DaimyoRepository for InMemoryDaimyoRepository {
    closed spec fn daimyos(&self) -> Map<DaimyoId, Daimyo> {
        daimyo_map(self.daimyos@)
    }

    proof fn lemma_stored_under_own_id(&self) {
        assert forall|id: DaimyoId| #[trigger] self.daimyos().contains_key(id) implies self.daimyos()[id].id
            == id by {
            let v = self.daimyos@;
            let c = choose|c: int| 0 <= c < v.len() && v[c].id == id;
        }
    }

    fn find_by_id(&self, id: &DaimyoId) -> (r: Option<Daimyo>) {
        proof {
            use_type_invariant(self);
        }
        match self.position(id) {
            Some(i) => {
                proof {
                    let v = self.daimyos@;
                    let c = choose|c: int| 0 <= c < v.len() && v[c].id == *id;
                    assert(c == i as int);
                }
                Some(self.daimyos[i].duplicate())
            },
            None => None,
        }
    }

    fn save(&mut self, daimyo: &Daimyo) {
        proof {
            use_type_invariant(&*self);
        }
        let ghost old_v = self.daimyos@;
        let mut stored: Vec<Daimyo> = Vec::new();
        std::mem::swap(&mut stored, &mut self.daimyos);
        let ghost n = old_v.len() as int;
        let ghost slot: int;
        match self.position_in(&stored, &daimyo.id) {
            Some(i) => {
                stored.set(i, daimyo.duplicate());
                proof { slot = i as int; }
            },
            None => {
                stored.push(daimyo.duplicate());
                proof { slot = n; }
            },
        }
        let ghost v = stored@;
        proof {
            assert(0 <= slot < v.len());
            assert(v[slot] == *daimyo);
            assert(forall|a: int| 0 <= a < v.len() && a != slot ==> a < n && v[a] == old_v[a]);
            assert(forall|a: int| 0 <= a < n && a != slot ==> v[a] == old_v[a]);
            assert(slot < n ==> old_v[slot].id == daimyo.id);
            assert(slot == n ==> forall|a: int| 0 <= a < n ==> old_v[a].id != daimyo.id);
            assert(unique_daimyo_ids(v)) by {
                assert forall|a: int, b: int|
                    0 <= a < v.len() && 0 <= b < v.len() && a != b implies v[a].id != v[b].id by {
                    if a != slot && b != slot {
                        assert(old_v[a].id != old_v[b].id);
                    } else if a == slot {
                        if slot < n {
                            assert(old_v[slot].id != old_v[b].id);
                        }
                    } else {
                        if slot < n {
                            assert(old_v[slot].id != old_v[a].id);
                        }
                    }
                }
            }
            assert(daimyo_map(v) =~= daimyo_map(old_v).insert(daimyo.id, *daimyo)) by {
                assert forall|id: DaimyoId| #[trigger] daimyo_map(v).contains_key(id) == daimyo_map(
                    old_v,
                ).insert(daimyo.id, *daimyo).contains_key(id) by {
                    if id == daimyo.id {
                        assert(v[slot].id == id);
                    }
                    if exists|c: int| 0 <= c < v.len() && v[c].id == id {
                        let c = choose|c: int| 0 <= c < v.len() && v[c].id == id;
                        if c != slot {
                            assert(old_v[c].id == id);
                        }
                    }
                    if exists|c: int| 0 <= c < old_v.len() && old_v[c].id == id {
                        let c = choose|c: int| 0 <= c < old_v.len() && old_v[c].id == id;
                        if c != slot {
                            assert(v[c].id == id);
                        } else {
                            assert(v[slot].id == id);
                        }
                    }
                }
                assert forall|id: DaimyoId| #[trigger] daimyo_map(v).contains_key(id) implies daimyo_map(
                    v,
                )[id] == daimyo_map(old_v).insert(daimyo.id, *daimyo)[id] by {
                    let c = choose|c: int| 0 <= c < v.len() && v[c].id == id;
                    if id == daimyo.id {
                        assert(c == slot);
                    } else {
                        assert(c != slot);
                        assert(old_v[c].id == id);
                        let c2 = choose|c2: int| 0 <= c2 < old_v.len() && old_v[c2].id == id;
                        assert(c2 == c);
                    }
                }
            }
        }
        self.daimyos = stored;
    }

    fn find_all(&self) -> (r: Vec<Daimyo>) {
        proof {
            use_type_invariant(self);
        }
        let mut out: Vec<Daimyo> = Vec::new();
        let mut i: usize = 0;
        let ghost v = self.daimyos@;
        while i < self.daimyos.len()
            invariant
                v == self.daimyos@,
                unique_daimyo_ids(v),
                i <= v.len(),
                out@ == v.subrange(0, i as int),
            decreases v.len() - i,
        {
            out.push(self.daimyos[i].duplicate());
            proof {
                assert(out@ =~= v.subrange(0, i + 1));
            }
            i = i + 1;
        }
        proof {
            assert(out@ =~= v);
            let stored = self.daimyos();
            assert forall|j: int| 0 <= j < out@.len() implies stored.contains_key(#[trigger] out@[j].id)
                && stored[out@[j].id] == out@[j] by {
                assert(v[j].id == out@[j].id);
                let c = choose|c: int| 0 <= c < v.len() && v[c].id == out@[j].id;
                assert(c == j);
            }
            assert forall|id: DaimyoId| stored.contains_key(id) implies exists|j: int|
                0 <= j < out@.len() && #[trigger] out@[j].id == id by {
                let c = choose|c: int| 0 <= c < v.len() && v[c].id == id;
                assert(out@[c].id == id);
            }
        }
        out
    }

    fn clear(&mut self) {
        *self = InMemoryDaimyoRepository::new();
    }
}

impl InMemoryDaimyoRepository {
    fn position_in(&self, v: &Vec<Daimyo>, id: &DaimyoId) -> (r: Option<usize>)
        ensures
            r matches Some(i) ==> i < v@.len() && v@[i as int].id == *id,
            r is None ==> forall|i: int| 0 <= i < v@.len() ==> v@[i].id != *id,
    {
        let mut i: usize = 0;
        while i < v.len()
            invariant
                i <= v@.len(),
                forall|j: int| 0 <= j < i ==> v@[j].id != *id,
            decreases v@.len() - i,
        {
            if v[i].id == *id {
                return Some(i);
            }
            i = i + 1;
        }
        None
    }
}

} // verus!
