use vstd::prelude::*;
use crate::error::{DomainError, is_insufficient, is_not_found};
use crate::kuni::Kuni;
use crate::repository::KuniRepository;
use crate::neighbor_repository::NeighborRepository;
use crate::game_state::{GameState, GameStateView};
use crate::value_objects::KuniId;

verus! {

/// What a transport of `kin`, `hei` and `kome` from `from` to `to` returns
/// and leaves in the store (`before` → `after`), given whether `to` is a
/// neighbour of `from` and whether only a province of the same warlord may
/// receive: the checks come in the order turn, source, target, adjacency,
/// ownership, stock, and a refused transport changes nothing.
pub open spec fn transport_outcome(
    state: GameStateView,
    before: Map<KuniId, Kuni>,
    after: Map<KuniId, Kuni>,
    adjacent: bool,
    own_only: bool,
    from: KuniId,
    to: KuniId,
    kin: u32,
    hei: u32,
    kome: u32,
    r: Result<(), DomainError>,
) -> bool {
    &&& r is Err ==> after == before
    &&& if !state.allows(from) {
        r matches Err(e) && state.refuses_with(from, e)
    } else if !before.contains_key(from) {
        r matches Err(e) && is_not_found(e, "Source Kuni not found"@)
    } else if !before.contains_key(to) {
        r matches Err(e) && is_not_found(e, "Target Kuni not found"@)
    } else if !adjacent {
        r matches Err(e) && e is NotAdjacent
    } else if own_only && before[from].daimyo_id != before[to].daimyo_id {
        r matches Err(e) && e is NotOwnProvince
    } else if !before[from].resource.spec_can_consume(kin, hei, kome) {
        r matches Err(e) && is_insufficient(e, "Insufficient resources"@)
    } else {
        r is Ok && after == before.insert(from, before[from].spec_consume(kin, hei, kome)).insert(
            to,
            before[to].spec_add(kin, hei, kome),
        )
    }
}

/// `rate_percent` percent of `v`, rounded down (at most `u32::MAX`).
pub open spec fn share(v: u32, rate_percent: u32) -> u32 {
    let s = v * rate_percent / 100;
    if s > u32::MAX { u32::MAX } else { s as u32 }
}

/// `rate_percent` percent of `v`, rounded down (at most `u32::MAX`).
fn share_of(v: u32, rate_percent: u32) -> (r: u32)
    ensures
        r == share(v, rate_percent),
{
    assert((v as u64) * (rate_percent as u64) <= u64::MAX) by (nonlinear_arith)
        requires
            v <= u32::MAX,
            rate_percent <= u32::MAX,
    ;
    let s: u64 = (v as u64) * (rate_percent as u64) / 100;
    if s > 0xffff_ffff { u32::MAX } else { s as u32 }
}

/// Domestic commands on the provinces that a repository stores: each checks
/// that the province is the one to act, loads it, applies the command and
/// saves the province back.
pub struct DomesticUseCase<R: KuniRepository, N: NeighborRepository> {
    kuni_repo: R,
    neighbor_repo: N,
}

impl<R: KuniRepository, N: NeighborRepository> DomesticUseCase<R, N> {
    pub fn new(kuni_repo: R, neighbor_repo: N) -> (r: Self)
        ensures
            r.repository().kunis() == kuni_repo.kunis(),
            r.adjacency() == neighbor_repo,
    {
        DomesticUseCase { kuni_repo, neighbor_repo }
    }

    /// The adjacency of provinces that transports follow.
    pub closed spec fn adjacency(&self) -> N {
        self.neighbor_repo
    }

    /// The repository that the commands work on.
    pub closed spec fn repository(&self) -> R {
        self.kuni_repo
    }

    /// Gives the repository back.
    pub fn into_repo(self) -> (r: R)
        ensures
            r == self.repository(),
    {
        self.kuni_repo
    }

    /// The repository that the commands work on.
    pub fn repo(&self) -> (r: &R)
        ensures
            *r == self.repository(),
    {
        &self.kuni_repo
    }

    /// Loads a province or fails with `NotFound("Kuni not found")`.
    fn load(&self, kuni_id: &KuniId) -> (r: Result<Kuni, DomainError>)
        ensures
            r matches Ok(k) ==> self.repository().kunis().contains_key(*kuni_id)
                && k == self.repository().kunis()[*kuni_id] && k.id == *kuni_id,
            r matches Err(e) ==> !self.repository().kunis().contains_key(*kuni_id) && is_not_found(
                e,
                "Kuni not found"@,
            ),
    {
        proof {
            self.kuni_repo.lemma_stored_under_own_id();
        }
        match self.kuni_repo.find_by_id(kuni_id) {
            Some(k) => Ok(k),
            None => Err(DomainError::NotFound(String::from_str("Kuni not found"))),
        }
    }

    /// Sells `amount` rice of a province at a random price of 1.0 to 2.0
    /// gold per unit; fails, changing nothing, when the province has less
    /// rice than `amount`.
    pub fn sell_rice(&mut self, state: &GameState, kuni_id: KuniId, amount: u32) -> (r: Result<u32, DomainError>)
        requires
            amount * 20 <= u32::MAX,
        ensures
            final(self).adjacency() == old(self).adjacency(),
            !state@.allows(kuni_id) ==> (r matches Err(e) && state@.refuses_with(kuni_id, e)),
            state@.allows(kuni_id) && !old(self).repository().kunis().contains_key(kuni_id) ==> (r matches Err(e) && is_not_found(e, "Kuni not found"@)),
            r is Err ==> final(self).repository().kunis() == old(self).repository().kunis(),
            state@.allows(kuni_id) && old(self).repository().kunis().contains_key(kuni_id) ==> ({
                let k = old(self).repository().kunis()[kuni_id];
                &&& r is Ok <==> k.resource.kome.0 >= amount
                &&& r matches Err(e) ==> is_insufficient(e, "Insufficient resources"@)
                &&& r matches Ok(g) ==> exists|bias: u32|
                    10 <= bias <= 20 && g == Kuni::rice_cost(amount, bias) && final(self).repository().kunis()
                    == old(self).repository().kunis().insert(kuni_id, k.spec_sold_rice(amount, bias))
            }),
    {
        state.check_turn(kuni_id)?;
        let mut kuni = self.load(&kuni_id)?;
        let gain = kuni.sell_rice(amount)?;
        self.kuni_repo.save(&kuni);
        Ok(gain)
    }

    /// Buys `amount` rice for a province at a random price of 1.0 to 2.0
    /// gold per unit; fails, changing nothing, when the province cannot pay
    /// the price drawn.
    pub fn buy_rice(&mut self, state: &GameState, kuni_id: KuniId, amount: u32) -> (r: Result<u32, DomainError>)
        requires
            amount * 20 <= u32::MAX,
        ensures
            final(self).adjacency() == old(self).adjacency(),
            !state@.allows(kuni_id) ==> (r matches Err(e) && state@.refuses_with(kuni_id, e)),
            state@.allows(kuni_id) && !old(self).repository().kunis().contains_key(kuni_id) ==> (r matches Err(e) && is_not_found(e, "Kuni not found"@)),
            r is Err ==> final(self).repository().kunis() == old(self).repository().kunis(),
            state@.allows(kuni_id) && old(self).repository().kunis().contains_key(kuni_id) ==> ({
                let k = old(self).repository().kunis()[kuni_id];
                &&& k.resource.kin.0 >= amount * 2 ==> r is Ok
                &&& k.resource.kin.0 < amount ==> r is Err
                &&& r is Err ==> exists|bias: u32|
                    10 <= bias <= 20 && k.resource.kin.0 < Kuni::rice_cost(amount, bias)
                &&& r matches Ok(g) ==> exists|bias: u32|
                    10 <= bias <= 20 && k.resource.kin.0 >= Kuni::rice_cost(amount, bias) && g == Kuni::rice_cost(amount, bias)
                    && final(self).repository().kunis()
                    == old(self).repository().kunis().insert(kuni_id, k.spec_bought_rice(amount, bias))
            }),
    {
        state.check_turn(kuni_id)?;
        let mut kuni = self.load(&kuni_id)?;
        let gain = kuni.buy_rice(amount)?;
        self.kuni_repo.save(&kuni);
        Ok(gain)
    }
    /// Invests `amount` gold of a province in land; the yield rises by
    /// `amount` times a random multiplier between 45 and 54.
    pub fn develop_land(&mut self, state: &GameState, kuni_id: KuniId, amount: u32) -> (r: Result<u32, DomainError>)
        requires
            amount * 54 <= u32::MAX,
        ensures
            final(self).adjacency() == old(self).adjacency(),
            !state@.allows(kuni_id) ==> (r matches Err(e) && state@.refuses_with(kuni_id, e)),
            state@.allows(kuni_id) && !old(self).repository().kunis().contains_key(kuni_id) ==> (r matches Err(e) && is_not_found(e, "Kuni not found"@)),
            r is Err ==> final(self).repository().kunis() == old(self).repository().kunis(),
            state@.allows(kuni_id) && old(self).repository().kunis().contains_key(kuni_id) ==> ({
                let k = old(self).repository().kunis()[kuni_id];
                &&& r is Ok <==> k.resource.kin.0 >= amount
                &&& r matches Err(e) ==> is_insufficient(e, "Insufficient resources"@)
                &&& r matches Ok(g) ==> exists|m: u32|
                    45 <= m <= 54 && g == amount * m && final(self).repository().kunis()
                    == old(self).repository().kunis().insert(kuni_id, k.spec_developed_land(amount, m))
            }),
    {
        state.check_turn(kuni_id)?;
        let mut kuni = self.load(&kuni_id)?;
        let gain = kuni.develop_land(amount)?;
        self.kuni_repo.save(&kuni);
        Ok(gain)
    }

    /// Invests `amount` gold of a province in its town; the town size rises
    /// by `amount` times a random multiplier between 45 and 54.
    pub fn build_town(&mut self, state: &GameState, kuni_id: KuniId, amount: u32) -> (r: Result<u32, DomainError>)
        requires
            amount * 54 <= u32::MAX,
        ensures
            final(self).adjacency() == old(self).adjacency(),
            !state@.allows(kuni_id) ==> (r matches Err(e) && state@.refuses_with(kuni_id, e)),
            state@.allows(kuni_id) && !old(self).repository().kunis().contains_key(kuni_id) ==> (r matches Err(e) && is_not_found(e, "Kuni not found"@)),
            r is Err ==> final(self).repository().kunis() == old(self).repository().kunis(),
            state@.allows(kuni_id) && old(self).repository().kunis().contains_key(kuni_id) ==> ({
                let k = old(self).repository().kunis()[kuni_id];
                &&& r is Ok <==> k.resource.kin.0 >= amount
                &&& r matches Err(e) ==> is_insufficient(e, "Insufficient resources"@)
                &&& r matches Ok(g) ==> exists|m: u32|
                    45 <= m <= 54 && g == amount * m && final(self).repository().kunis()
                    == old(self).repository().kunis().insert(kuni_id, k.spec_built_town(amount, m))
            }),
    {
        state.check_turn(kuni_id)?;
        let mut kuni = self.load(&kuni_id)?;
        let gain = kuni.build_town(amount)?;
        self.kuni_repo.save(&kuni);
        Ok(gain)
    }

    /// Recruits `amount` troops in a province; fails, changing nothing, when
    /// its population is smaller than `amount` ("Insufficient population")
    /// or its gold is less than half of `amount`.
    pub fn recruit(&mut self, state: &GameState, kuni_id: KuniId, amount: u32) -> (r: Result<(), DomainError>)
        requires
            state@.allows(kuni_id) && old(self).repository().kunis().contains_key(kuni_id) ==> old(self).repository().kunis()[kuni_id].recruit_ok(amount),
        ensures
            final(self).adjacency() == old(self).adjacency(),
            !state@.allows(kuni_id) ==> (r matches Err(e) && state@.refuses_with(kuni_id, e)),
            state@.allows(kuni_id) && !old(self).repository().kunis().contains_key(kuni_id) ==> (r matches Err(e) && is_not_found(e, "Kuni not found"@)),
            r is Err ==> final(self).repository().kunis() == old(self).repository().kunis(),
            state@.allows(kuni_id) && old(self).repository().kunis().contains_key(kuni_id) ==> ({
                let k = old(self).repository().kunis()[kuni_id];
                &&& r is Ok <==> k.resource.jinko.0 >= amount && k.resource.kin.0 >= amount / 2
                &&& r matches Err(e) ==> (if k.resource.jinko.0 < amount { is_insufficient(e, "Insufficient population"@) } else { is_insufficient(e, "Insufficient resources"@) })
                &&& r is Ok ==> final(self).repository().kunis() == old(self).repository().kunis().insert(kuni_id, k.spec_recruited(amount))
            }),
    {
        state.check_turn(kuni_id)?;
        let mut kuni = self.load(&kuni_id)?;
        if kuni.resource.jinko.value() < amount {
            return Err(DomainError::InsufficientResource(String::from_str("Insufficient population")));
        }
        let res = kuni.recruit_troops(amount);
        if res.is_err() {
            return res;
        }
        self.kuni_repo.save(&kuni);
        Ok(())
    }

    /// Dismisses `amount` troops of a province back into its population;
    /// fails, changing nothing, when it has fewer troops than `amount`.
    pub fn dismiss(&mut self, state: &GameState, kuni_id: KuniId, amount: u32) -> (r: Result<(), DomainError>)
        requires
            state@.allows(kuni_id) && old(self).repository().kunis().contains_key(kuni_id) ==> old(self).repository().kunis()[kuni_id].dismiss_ok(amount),
        ensures
            final(self).adjacency() == old(self).adjacency(),
            !state@.allows(kuni_id) ==> (r matches Err(e) && state@.refuses_with(kuni_id, e)),
            state@.allows(kuni_id) && !old(self).repository().kunis().contains_key(kuni_id) ==> (r matches Err(e) && is_not_found(e, "Kuni not found"@)),
            r is Err ==> final(self).repository().kunis() == old(self).repository().kunis(),
            state@.allows(kuni_id) && old(self).repository().kunis().contains_key(kuni_id) ==> ({
                let k = old(self).repository().kunis()[kuni_id];
                &&& r is Ok <==> k.resource.hei.0 >= amount
                &&& r matches Err(e) ==> is_insufficient(e, "Insufficient resources"@)
                &&& r is Ok ==> final(self).repository().kunis() == old(self).repository().kunis().insert(kuni_id, k.spec_dismissed(amount))
            }),
    {
        state.check_turn(kuni_id)?;
        let mut kuni = self.load(&kuni_id)?;
        let res = kuni.dismiss_troops(amount);
        if res.is_err() {
            return res;
        }
        self.kuni_repo.save(&kuni);
        Ok(())
    }

    /// Gives `amount` rice of a province as charity; loyalty rises by
    /// `amount` times a random multiplier between 0.5 and 1.0.
    pub fn give_charity(&mut self, state: &GameState, kuni_id: KuniId, amount: u32) -> (r: Result<u32, DomainError>)
        requires
            state@.allows(kuni_id) && old(self).repository().kunis().contains_key(kuni_id) && old(self).repository().kunis()[kuni_id].resource.kome.0 >= amount
                ==> amount * 10 <= u32::MAX && old(self).repository().kunis()[kuni_id].tyu_shift_ok(amount as int),
        ensures
            final(self).adjacency() == old(self).adjacency(),
            !state@.allows(kuni_id) ==> (r matches Err(e) && state@.refuses_with(kuni_id, e)),
            state@.allows(kuni_id) && !old(self).repository().kunis().contains_key(kuni_id) ==> (r matches Err(e) && is_not_found(e, "Kuni not found"@)),
            r is Err ==> final(self).repository().kunis() == old(self).repository().kunis(),
            state@.allows(kuni_id) && old(self).repository().kunis().contains_key(kuni_id) ==> ({
                let k = old(self).repository().kunis()[kuni_id];
                &&& r is Ok <==> k.resource.kome.0 >= amount
                &&& r matches Err(e) ==> is_insufficient(e, "Insufficient resources"@)
                &&& r matches Ok(g) ==> exists|m: u32|
                    5 <= m <= 10 && g == Kuni::charity_gain(amount, m) && final(self).repository().kunis()
                    == old(self).repository().kunis().insert(kuni_id, k.spec_gave_charity(amount, m))
            }),
    {
        state.check_turn(kuni_id)?;
        let mut kuni = self.load(&kuni_id)?;
        let gain = kuni.give_charity(amount)?;
        self.kuni_repo.save(&kuni);
        Ok(gain)
    }

    /// Moves gold, troops and rice from province `from_kuni_id`, which must
    /// be the one to act, to an adjacent province, whichever warlord rules
    /// it: this transport does not look at ownership (`transport_to_own`
    /// also requires the target to be the sender's). Fails, changing nothing,
    /// when either province is missing ("Source Kuni not found",
    /// "Target Kuni not found"), when they are not adjacent (`NotAdjacent`)
    /// or when the source holds too little. Both provinces are loaded before
    /// the source is charged, so a province that the adjacency records as its
    /// own neighbour gains the goods sent to itself.
    pub fn transport(
        &mut self,
        state: &GameState,
        from_kuni_id: KuniId,
        to_kuni_id: KuniId,
        kin: u32,
        hei: u32,
        kome: u32,
    ) -> (r: Result<(), DomainError>)
        ensures
            transport_outcome(
                state@,
                old(self).repository().kunis(),
                final(self).repository().kunis(),
                old(self).adjacency().neighbors(from_kuni_id).contains(to_kuni_id),
                false,
                from_kuni_id,
                to_kuni_id,
                kin,
                hei,
                kome,
                r,
            ),
            final(self).adjacency() == old(self).adjacency(),
    {
        self.move_goods(state, from_kuni_id, to_kuni_id, kin, hei, kome, false)
    }

    /// Moves gold, troops and rice from province `from_kuni_id`, which must
    /// be the one to act, to an adjacent province of the same warlord: as
    /// `transport`, and fails with `NotOwnProvince`, changing nothing, when
    /// another warlord rules the target.
    pub fn transport_to_own(
        &mut self,
        state: &GameState,
        from_kuni_id: KuniId,
        to_kuni_id: KuniId,
        kin: u32,
        hei: u32,
        kome: u32,
    ) -> (r: Result<(), DomainError>)
        ensures
            transport_outcome(
                state@,
                old(self).repository().kunis(),
                final(self).repository().kunis(),
                old(self).adjacency().neighbors(from_kuni_id).contains(to_kuni_id),
                true,
                from_kuni_id,
                to_kuni_id,
                kin,
                hei,
                kome,
                r,
            ),
            final(self).adjacency() == old(self).adjacency(),
    {
        self.move_goods(state, from_kuni_id, to_kuni_id, kin, hei, kome, true)
    }

    /// Sends `rate_percent` percent (rounded down) of the gold, troops and
    /// rice of province `from_kuni_id` to an adjacent province: as
    /// `transport` with those amounts. Fails, changing nothing, when the
    /// source is missing ("Source Kuni not found").
    pub fn transport_with_rate(
        &mut self,
        state: &GameState,
        from_kuni_id: KuniId,
        to_kuni_id: KuniId,
        rate_percent: u32,
    ) -> (r: Result<(), DomainError>)
        ensures
            final(self).adjacency() == old(self).adjacency(),
            !old(self).repository().kunis().contains_key(from_kuni_id) ==> (r matches Err(e) && is_not_found(
                e,
                "Source Kuni not found"@,
            ) && final(self).repository().kunis() == old(self).repository().kunis()),
            old(self).repository().kunis().contains_key(from_kuni_id) ==> ({
                let k = old(self).repository().kunis()[from_kuni_id];
                transport_outcome(
                    state@,
                    old(self).repository().kunis(),
                    final(self).repository().kunis(),
                    old(self).adjacency().neighbors(from_kuni_id).contains(to_kuni_id),
                    false,
                    from_kuni_id,
                    to_kuni_id,
                    share(k.resource.kin.0, rate_percent),
                    share(k.resource.hei.0, rate_percent),
                    share(k.resource.kome.0, rate_percent),
                    r,
                )
            }),
    {
        let from = match self.kuni_repo.find_by_id(&from_kuni_id) {
            Some(k) => k,
            None => {
                return Err(DomainError::NotFound(String::from_str("Source Kuni not found")));
            },
        };
        let kin = share_of(from.resource.kin.value(), rate_percent);
        let hei = share_of(from.resource.hei.value(), rate_percent);
        let kome = share_of(from.resource.kome.value(), rate_percent);
        self.move_goods(state, from_kuni_id, to_kuni_id, kin, hei, kome, false)
    }

    fn move_goods(
        &mut self,
        state: &GameState,
        from_kuni_id: KuniId,
        to_kuni_id: KuniId,
        kin: u32,
        hei: u32,
        kome: u32,
        own_only: bool,
    ) -> (r: Result<(), DomainError>)
        ensures
            transport_outcome(
                state@,
                old(self).repository().kunis(),
                final(self).repository().kunis(),
                old(self).adjacency().neighbors(from_kuni_id).contains(to_kuni_id),
                own_only,
                from_kuni_id,
                to_kuni_id,
                kin,
                hei,
                kome,
                r,
            ),
            final(self).adjacency() == old(self).adjacency(),
    {
        proof {
            self.kuni_repo.lemma_stored_under_own_id();
        }
        state.check_turn(from_kuni_id)?;
        let mut from_kuni = match self.kuni_repo.find_by_id(&from_kuni_id) {
            Some(k) => k,
            None => {
                return Err(DomainError::NotFound(String::from_str("Source Kuni not found")));
            },
        };
        let mut to_kuni = match self.kuni_repo.find_by_id(&to_kuni_id) {
            Some(k) => k,
            None => {
                return Err(DomainError::NotFound(String::from_str("Target Kuni not found")));
            },
        };
        if !self.neighbor_repo.are_adjacent(&from_kuni_id, &to_kuni_id) {
            return Err(DomainError::NotAdjacent);
        }
        if own_only && from_kuni.daimyo_id != to_kuni.daimyo_id {
            return Err(DomainError::NotOwnProvince);
        }
        from_kuni.consume_resource(kin, hei, kome)?;
        to_kuni.add_resource(kin, hei, kome);
        self.kuni_repo.save(&from_kuni);
        self.kuni_repo.save(&to_kuni);
        Ok(())
    }

    /// Turns delegation of a province on or off.
    pub fn set_delegation(&mut self, kuni_id: KuniId, delegate: bool) -> (r: Result<(), DomainError>)
        ensures
            final(self).adjacency() == old(self).adjacency(),
            !old(self).repository().kunis().contains_key(kuni_id) ==> (r matches Err(e) && is_not_found(e, "Kuni not found"@)) && final(self).repository().kunis() == old(self).repository().kunis(),
            old(self).repository().kunis().contains_key(kuni_id) ==> r is Ok && final(self).repository().kunis() == old(self).repository().kunis().insert(
                kuni_id,
                Kuni { inin: delegate, ..old(self).repository().kunis()[kuni_id] },
            ),
    {
        let mut kuni = self.load(&kuni_id)?;
        kuni.set_inin(delegate);
        self.kuni_repo.save(&kuni);
        Ok(())
    }

}

} // verus!
