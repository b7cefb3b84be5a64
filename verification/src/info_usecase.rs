use vstd::prelude::*;
use crate::error::{DomainError, is_invalid_state};
use crate::game_state::GameState;
use crate::action_log::{decimal, decimal_string};
use crate::daimyo::Daimyo;
use crate::kuni::Kuni;
use crate::kuni_names::{KuniNames, shown_name};
use crate::repository::{DaimyoRepository, KuniRepository, lists_exactly, unique_kuni_ids};
use crate::turn_progression::{TurnProgressionUseCase, action_completed};
use crate::value_objects::{DaimyoId, KuniId, display_scale};

verus! {

/// The provinces of `all`, a listing of `stored`, that another warlord
/// than `daimyo_id` rules.
fn others_of(all: &Vec<Kuni>, Ghost(stored): Ghost<Map<KuniId, Kuni>>, daimyo_id: DaimyoId) -> (r: Vec<Kuni>)
    requires
        lists_exactly(all@, stored, |k: Kuni| true),
    ensures
        lists_exactly(r@, stored, |k: Kuni| k.daimyo_id != daimyo_id),
{
    let ghost v = all@;
    let mut out: Vec<Kuni> = Vec::new();
    let mut i: usize = 0;
    while i < all.len()
        invariant
            v == all@,
            lists_exactly(v, stored, |k: Kuni| true),
            i <= v.len(),
            forall|j: int| 0 <= j < out@.len() ==> exists|m: int| 0 <= m < i && v[m] == #[trigger] out@[j],
            forall|j: int| 0 <= j < out@.len() ==> (#[trigger] out@[j]).daimyo_id != daimyo_id,
            forall|m: int|
                0 <= m < i && v[m].daimyo_id != daimyo_id ==> exists|j: int| 0 <= j < out@.len() && #[trigger] out@[j] == v[m],
            unique_kuni_ids(out@),
        decreases v.len() - i,
    {
        let k = all[i];
        let ghost old_out = out@;
        if k.daimyo_id != daimyo_id {
            proof {
                assert forall|j: int| 0 <= j < out@.len() implies out@[j].id != k.id by {
                    let m = choose|m: int| 0 <= m < i && v[m] == #[trigger] out@[j];
                    assert(m != i);
                }
            }
            out.push(k);
        }
        proof {
            assert forall|m: int| 0 <= m < i + 1 && v[m].daimyo_id != daimyo_id implies exists|j: int|
                0 <= j < out@.len() && #[trigger] out@[j] == v[m] by {
                if m < i {
                    let j = choose|j: int| 0 <= j < old_out.len() && #[trigger] old_out[j] == v[m];
                    assert(out@[j] == old_out[j]);
                } else {
                    assert(out@[out@.len() - 1] == v[m]);
                }
            }
            assert forall|j: int| 0 <= j < out@.len() implies exists|m: int| 0 <= m < i + 1 && v[m] == #[trigger] out@[j] by {
                if j < old_out.len() {
                    assert(out@[j] == old_out[j]);
                    let m = choose|m: int| 0 <= m < i && v[m] == #[trigger] old_out[j];
                    assert(v[m] == out@[j]);
                } else {
                    assert(v[i as int] == out@[j]);
                }
            }
        }
        i = i + 1;
    }
    proof {
        assert forall|j: int| 0 <= j < out@.len() implies stored.contains_key(#[trigger] out@[j].id)
            && stored[out@[j].id] == out@[j] && out@[j].daimyo_id != daimyo_id by {
            let m = choose|m: int| 0 <= m < i && v[m] == #[trigger] out@[j];
            assert(stored.contains_key(v[m].id));
        }
        assert forall|id: KuniId| stored.contains_key(id) && stored[id].daimyo_id != daimyo_id implies exists|j: int|
            0 <= j < out@.len() && #[trigger] out@[j].id == id by {
            let m = choose|m: int| 0 <= m < v.len() && #[trigger] v[m].id == id;
            assert(stored.contains_key(v[m].id));
            let j = choose|j: int| 0 <= j < out@.len() && #[trigger] out@[j] == v[m];
            assert(out@[j].id == id);
        }
    }
    out
}

/// What spying shows of another warlord's province, the amounts in the
/// units shown to the player.
#[derive(Debug, Clone)]
pub struct CountryInfo {
    pub kuni_id: u32,
    pub kuni_name: String,
    pub daimyo_name: String,
    pub kome: u32,
    pub kin: u32,
    pub hei: u32,
    pub kokudaka: u32,
    pub towns: u32,
    pub tyu: u32,
}

/// `c` describes province `k`, with the names that `names` and `daimyos`
/// record.
pub open spec fn describes(c: CountryInfo, k: Kuni, names: KuniNames, daimyos: Map<DaimyoId, Daimyo>) -> bool {
    &&& c.kuni_id == k.id.0
    &&& c.kuni_name@ == shown_name(names.name(k.id))
    &&& c.daimyo_name@ == daimyos[k.daimyo_id].name@
    &&& c.kome == k.resource.kome.0 / display_scale()
    &&& c.kin == k.resource.kin.0 / display_scale()
    &&& c.hei == k.resource.hei.0 / display_scale()
    &&& c.kokudaka == k.stats.kokudaka.0 / display_scale()
    &&& c.towns == k.stats.machi.0 / display_scale()
    &&& c.tyu == k.stats.tyu.0
}

/// The text of the error for a warlord `d` that is not stored.
pub open spec fn missing_daimyo_message(d: DaimyoId) -> Seq<char> {
    "大名が見つかりません: DaimyoId("@ + decimal(d.0 as nat) + ")"@
}

/// Some stored province of a warlord other than `daimyo_id` has a warlord
/// that is not stored.
pub open spec fn some_warlord_missing(ks: Map<KuniId, Kuni>, daimyos: Map<DaimyoId, Daimyo>, daimyo_id: DaimyoId) -> bool {
    exists|id: KuniId|
        #[trigger] ks.contains_key(id) && ks[id].daimyo_id != daimyo_id && !daimyos.contains_key(ks[id].daimyo_id)
}

/// `list` describes, in the order of `others`, the provinces that `others`
/// lists: exactly the stored provinces of warlords other than `daimyo_id`.
pub open spec fn describes_others(
    list: Seq<CountryInfo>,
    ks: Map<KuniId, Kuni>,
    names: KuniNames,
    daimyos: Map<DaimyoId, Daimyo>,
    daimyo_id: DaimyoId,
) -> bool {
    exists|others: Seq<Kuni>|
        #[trigger] lists_others(others, ks, daimyo_id) && list.len() == others.len() && forall|i: int|
            0 <= i < others.len() ==> describes(#[trigger] list[i], others[i], names, daimyos)
}

/// `others` lists, once each, exactly the stored provinces of warlords
/// other than `daimyo_id`.
pub open spec fn lists_others(others: Seq<Kuni>, ks: Map<KuniId, Kuni>, daimyo_id: DaimyoId) -> bool {
    lists_exactly(others, ks, |k: Kuni| k.daimyo_id != daimyo_id)
}

/// The spying command.
pub struct InfoUseCase;

impl InfoUseCase {
    /// Warlord `daimyo_id`, whose province is to act, spies on every other
    /// warlord's provinces; this spends the province's action, which is then
    /// completed. Fails, changing nothing, when no province is left to act
    /// this turn ("現在の手番の国が見つかりません"), when the game is not in
    /// the domestic phase, when the province to act is not one of
    /// `daimyo_id`'s (`NotYourTurn`), or when the warlord of a province
    /// spied on is not stored ("大名が見つかりません: ..."); the completion
    /// itself may fail as `complete_current_action` does.
    pub fn get_other_countries_info<R: KuniRepository, D: DaimyoRepository>(
        state: &mut GameState,
        kunis: &mut R,
        daimyos: &D,
        names: &KuniNames,
        daimyo_id: DaimyoId,
        player: Option<DaimyoId>,
    ) -> (r: Result<Vec<CountryInfo>, DomainError>)
        ensures
            r is Err && !(old(state)@.current() matches Some(c) && old(state)@.allows(c) && old(kunis).kunis().contains_key(c)
                && old(kunis).kunis()[c].daimyo_id == daimyo_id && !some_warlord_missing(
                old(kunis).kunis(),
                daimyos.daimyos(),
                daimyo_id,
            )) ==> final(state)@ == old(state)@ && final(kunis).kunis() == old(kunis).kunis(),
            old(state)@.current() is None ==> (r matches Err(e) && is_invalid_state(e, "現在の手番の国が見つかりません"@)),
            old(state)@.current() matches Some(c) ==> {
                let ks = old(kunis).kunis();
                if !old(state)@.allows(c) {
                    r matches Err(e) && old(state)@.refuses_with(c, e)
                } else if !(ks.contains_key(c) && ks[c].daimyo_id == daimyo_id) {
                    r matches Err(e) && e is NotYourTurn
                } else if some_warlord_missing(ks, daimyos.daimyos(), daimyo_id) {
                    r matches Err(e) && exists|d: DaimyoId|
                        #[trigger] missing_daimyo_message(d) == e->NotFound_0@ && !daimyos.daimyos().contains_key(d)
                } else {
                    exists|done: Result<(), DomainError>| #[trigger] action_completed(
                        old(state)@,
                        ks,
                        player,
                        done,
                        final(state)@,
                        final(kunis).kunis(),
                    ) && (done matches Err(e) ==> r == Err::<Vec<CountryInfo>, DomainError>(e)) && (done is Ok ==> (r matches Ok(
                        list,
                    ) && describes_others(list@, ks, *names, daimyos.daimyos(), daimyo_id)))
                }
            },
    {
        let current = match state.current_kuni_id() {
            Some(c) => c,
            None => {
                return Err(DomainError::InvalidState(String::from_str("現在の手番の国が見つかりません")));
            },
        };
        state.check_turn(current)?;
        proof {
            kunis.lemma_stored_under_own_id();
            daimyos.lemma_stored_under_own_id();
        }
        match kunis.find_by_id(&current) {
            Some(k) => {
                if k.daimyo_id != daimyo_id {
                    return Err(DomainError::NotYourTurn);
                }
            },
            None => {
                return Err(DomainError::NotYourTurn);
            },
        }
        let all = kunis.find_all();
        let ghost ks = kunis.kunis();
        let others = others_of(&all, Ghost(kunis.kunis()), daimyo_id);
        let mut list: Vec<CountryInfo> = Vec::new();
        let mut i: usize = 0;
        while i < others.len()
            invariant
                i <= others.len(),
                ks == kunis.kunis(),
                ks == old(kunis).kunis(),
                state@ == old(state)@,
                old(state)@.current() == Some(current),
                old(state)@.allows(current),
                ks.contains_key(current) && ks[current].daimyo_id == daimyo_id,
                lists_others(others@, ks, daimyo_id),
                list@.len() == i,
                forall|j: int| 0 <= j < i ==> daimyos.daimyos().contains_key(#[trigger] others@[j].daimyo_id),
                forall|j: int| 0 <= j < i ==> describes(#[trigger] list@[j], others@[j], *names, daimyos.daimyos()),
            decreases others.len() - i,
        {
            let k = others[i];
            let daimyo = match daimyos.find_by_id(&k.daimyo_id) {
                Some(d) => d,
                None => {
                    proof {
                        assert(ks.contains_key(others@[i as int].id));
                        assert(ks[others@[i as int].id] == others@[i as int]);
                    }
                    let message = String::from_str("大名が見つかりません: DaimyoId(").concat(
                        decimal_string(k.daimyo_id.0).as_str(),
                    ).concat(")");
                    proof {
                        assert(message@ == missing_daimyo_message(k.daimyo_id));
                        assert(some_warlord_missing(ks, daimyos.daimyos(), daimyo_id));
                    }
                    return Err(DomainError::NotFound(message));
                },
            };
            list.push(CountryInfo {
                kuni_id: k.id.0,
                kuni_name: names.name_of(k.id),
                daimyo_name: daimyo.name,
                kome: k.resource.kome.to_display(),
                kin: k.resource.kin.to_display(),
                hei: k.resource.hei.to_display(),
                kokudaka: k.stats.kokudaka.to_display(),
                towns: k.stats.machi.to_display(),
                tyu: k.stats.tyu.value(),
            });
            i = i + 1;
        }
        proof {
            assert forall|id: KuniId| #[trigger] ks.contains_key(id) && ks[id].daimyo_id != daimyo_id implies daimyos.daimyos().contains_key(
                ks[id].daimyo_id,
            ) by {
                let j = choose|j: int| 0 <= j < others@.len() && #[trigger] others@[j].id == id;
                assert(others@[j] == ks[id]);
            }
            assert(lists_others(others@, ks, daimyo_id));
        }
        let done = TurnProgressionUseCase::complete_current_action(state, kunis, player);
        match done {
            Ok(()) => Ok(list),
            Err(e) => Err(e),
        }
    }
}

} // verus!
