use vstd::prelude::*;
use crate::daimyo::Daimyo;
use crate::error::{DomainError, is_not_found};
use crate::game_state::{GameState, GameStateView, WarStatus};
use crate::kuni_names::{KuniNames, shown_name};
use crate::kuni::Kuni;
use crate::neighbor_repository::NeighborRepository;
use crate::repository::{DaimyoRepository, KuniRepository};
use crate::value_objects::{Amount, DaimyoId, KuniId, display_scale};

verus! {

/// A warlord as listed for the player to choose.
#[derive(Debug, Clone)]
pub struct DaimyoSummaryDto {
    pub id: u32,
    pub name: String,
}

/// The summary of a warlord: its identifier and name.
pub open spec fn summary_of(d: Daimyo) -> DaimyoSummaryDto {
    DaimyoSummaryDto { id: d.id.0, name: d.name }
}

/// Queries on warlords.
pub struct DaimyoQueryUseCase<D: DaimyoRepository> {
    daimyo_repo: D,
}

impl<D: DaimyoRepository> DaimyoQueryUseCase<D> {
    pub fn new(daimyo_repo: D) -> (r: Self)
        ensures
            r.repository().daimyos() == daimyo_repo.daimyos(),
    {
        DaimyoQueryUseCase { daimyo_repo }
    }

    /// The repository that the queries read.
    pub closed spec fn repository(&self) -> D {
        self.daimyo_repo
    }

    /// The repository that the queries read.
    pub fn repo(&self) -> (r: &D)
        ensures
            *r == self.repository(),
    {
        &self.daimyo_repo
    }

    fn summarize(d: &Daimyo) -> (r: DaimyoSummaryDto)
        ensures
            r == summary_of(*d),
    {
        DaimyoSummaryDto { id: d.id.0, name: d.name.clone() }
    }

    /// Summaries of all warlords, once each.
    pub fn list(&self) -> (r: Vec<DaimyoSummaryDto>)
        ensures
            exists|all: Seq<Daimyo>|
                #[trigger] crate::repository::lists_all_daimyos(all, self.repository().daimyos()) && r@
                    == all.map_values(|d: Daimyo| summary_of(d)),
    {
        let daimyos = self.daimyo_repo.find_all();
        let mut out: Vec<DaimyoSummaryDto> = Vec::new();
        let mut i: usize = 0;
        while i < daimyos.len()
            invariant
                i <= daimyos@.len(),
                out@ == daimyos@.subrange(0, i as int).map_values(|d: Daimyo| summary_of(d)),
            decreases daimyos@.len() - i,
        {
            out.push(Self::summarize(&daimyos[i]));
            proof {
                assert(out@ =~= daimyos@.subrange(0, i + 1).map_values(|d: Daimyo| summary_of(d)));
            }
            i = i + 1;
        }
        proof {
            assert(daimyos@.subrange(0, daimyos@.len() as int) == daimyos@);
            assert(crate::repository::lists_all_daimyos(daimyos@, self.repository().daimyos()));
        }
        out
    }

    /// The summary of warlord `id`, if it exists.
    pub fn find(&self, id: DaimyoId) -> (r: Option<DaimyoSummaryDto>)
        ensures
            r == (if self.repository().daimyos().contains_key(id) {
                Some(summary_of(self.repository().daimyos()[id]))
            } else {
                None
            }),
    {
        match self.daimyo_repo.find_by_id(&id) {
            Some(d) => Some(Self::summarize(&d)),
            None => None,
        }
    }
}

/// The stored provinces among `ids`, in the order of `ids`; identifiers of
/// missing provinces are skipped.
pub open spec fn stored_among(ids: Seq<KuniId>, kunis: Map<KuniId, Kuni>) -> Seq<Kuni>
    decreases ids.len(),
{
    if ids.len() == 0 {
        Seq::empty()
    } else {
        let rest = stored_among(ids.drop_last(), kunis);
        if kunis.contains_key(ids.last()) { rest.push(kunis[ids.last()]) } else { rest }
    }
}

/// The identifiers of the provinces in `ks` that are targets: for an attack
/// those ruled by someone other than `owner`, for a transport those ruled by
/// `owner`.
pub open spec fn target_ids(ks: Seq<Kuni>, owner: DaimyoId, is_attack: bool) -> Seq<KuniId>
    decreases ks.len(),
{
    if ks.len() == 0 {
        Seq::empty()
    } else {
        let rest = target_ids(ks.drop_last(), owner, is_attack);
        if (ks.last().daimyo_id != owner) == is_attack { rest.push(ks.last().id) } else { rest }
    }
}

/// Queries on provinces and their neighbours.
/// One of the player's provinces as the status shows it, the amounts in
/// the units shown to the player.
#[derive(Debug, Clone)]
pub struct KuniStatus {
    pub id: KuniId,
    pub name: String,
    pub kin: u32,
    pub kome: u32,
    pub hei: u32,
    pub jinko: u32,
    pub kokudaka: u32,
    pub machi: u32,
    pub tyu: u32,
}

/// An invasion of one of the player's provinces: the names of the attacking
/// and the defending province, and the attacking army's troops (in the
/// units shown to the player).
#[derive(Debug, Clone)]
pub struct DefenseAlert {
    pub attacker_kuni_name: String,
    pub defender_kuni_name: String,
    pub enemy_hei: u32,
}

/// What the player sees of the game: the turn, the name of the warlord to
/// act ("不明" once every province has acted), the player's provinces and
/// the invasions of them.
#[derive(Debug, Clone)]
pub struct PlayerStatus {
    pub current_turn: u32,
    pub current_daimyo_name: String,
    pub kunis: Vec<KuniStatus>,
    pub defense_alerts: Vec<DefenseAlert>,
}

/// `mine` lists, once each, exactly the stored provinces that `player`
/// rules.
pub open spec fn lists_provinces_of(mine: Seq<Kuni>, stored: Map<KuniId, Kuni>, player: DaimyoId) -> bool {
    crate::repository::lists_exactly(mine, stored, |k: Kuni| k.daimyo_id == player)
}

/// `s` shows province `k` under the name `name`.
pub open spec fn shows_kuni(s: KuniStatus, k: Kuni, name: Seq<char>) -> bool {
    &&& s.id == k.id
    &&& s.name@ == name
    &&& s.kin == k.resource.kin.0 / display_scale()
    &&& s.kome == k.resource.kome.0 / display_scale()
    &&& s.hei == k.resource.hei.0 / display_scale()
    &&& s.jinko == k.resource.jinko.0 / display_scale()
    &&& s.kokudaka == k.stats.kokudaka.0 / display_scale()
    &&& s.machi == k.stats.machi.0 / display_scale()
    &&& s.tyu == k.stats.tyu.0
}

/// The wars under way against a province of `player` (there is at most
/// one war at a time).
pub open spec fn wars_against(state: GameStateView, ks: Map<KuniId, Kuni>, player: DaimyoId) -> Seq<WarStatus> {
    match state.war {
        Some(w) => if ks.contains_key(w.defender) && ks[w.defender].daimyo_id == player {
            seq![w]
        } else {
            Seq::empty()
        },
        None => Seq::empty(),
    }
}

/// `a` is the alert for war `w`, with the names that `names` records.
pub open spec fn alerts_war(a: DefenseAlert, w: WarStatus, names: KuniNames) -> bool {
    &&& a.attacker_kuni_name@ == shown_name(names.name(w.attacker))
    &&& a.defender_kuni_name@ == shown_name(names.name(w.defender))
    &&& a.enemy_hei == w.troops / display_scale()
}

/// Queries on provinces and their neighbours.
pub struct KuniQueryUseCase<K: KuniRepository, N: NeighborRepository> {
    kuni_repo: K,
    neighbor_repo: N,
}

impl<K: KuniRepository, N: NeighborRepository> KuniQueryUseCase<K, N> {
    pub fn new(kuni_repo: K, neighbor_repo: N) -> (r: Self)
        ensures
            r.kunis() == kuni_repo.kunis(),
            forall|id: KuniId| r.neighbors(id) == neighbor_repo.neighbors(id),
    {
        KuniQueryUseCase { kuni_repo, neighbor_repo }
    }

    /// The stored provinces.
    pub closed spec fn kunis(&self) -> Map<KuniId, Kuni> {
        self.kuni_repo.kunis()
    }

    /// The recorded neighbours of a province.
    pub closed spec fn neighbors(&self, id: KuniId) -> Seq<KuniId> {
        self.neighbor_repo.neighbors(id)
    }

    /// The provinces that warlord `daimyo_id` rules.
    pub fn get_kunis_by_daimyo(&self, daimyo_id: &DaimyoId) -> (r: Vec<Kuni>)
        ensures
            crate::repository::lists_exactly(r@, self.kunis(), |k: Kuni| k.daimyo_id == *daimyo_id),
    {
        self.kuni_repo.find_by_daimyo_id(daimyo_id)
    }

    /// The identifiers of the neighbours of a province.
    pub fn get_neighbor_ids(&self, kuni_id: &KuniId) -> (r: Vec<KuniId>)
        ensures
            r@ == self.neighbors(*kuni_id),
    {
        self.neighbor_repo.get_neighbors(kuni_id)
    }

    /// The stored neighbours of a province.
    pub fn get_neighbors(&self, kuni_id: &KuniId) -> (r: Vec<Kuni>)
        ensures
            r@ == stored_among(self.neighbors(*kuni_id), self.kunis()),
    {
        let ids = self.neighbor_repo.get_neighbors(kuni_id);
        let mut out: Vec<Kuni> = Vec::new();
        let mut i: usize = 0;
        while i < ids.len()
            invariant
                i <= ids@.len(),
                out@ == stored_among(ids@.subrange(0, i as int), self.kunis()),
            decreases ids@.len() - i,
        {
            proof {
                assert(ids@.subrange(0, i + 1).drop_last() == ids@.subrange(0, i as int));
            }
            match self.kuni_repo.find_by_id(&ids[i]) {
                Some(k) => out.push(k),
                None => {},
            }
            i = i + 1;
        }
        proof {
            assert(ids@.subrange(0, ids@.len() as int) == ids@);
        }
        out
    }

    /// The neighbours of a province that it can attack (`is_attack`: those
    /// ruled by another warlord) or send goods to (those ruled by its own
    /// warlord). Fails with `NotFound("国が見つかりません")` when the province
    /// is missing.
    pub fn get_filtered_neighbor_ids(&self, kuni_id: &KuniId, is_attack: bool) -> (r: Result<
        Vec<KuniId>,
        DomainError,
    >)
        ensures
            !self.kunis().contains_key(*kuni_id) ==> (r matches Err(e) && is_not_found(e, "国が見つかりません"@)),
            self.kunis().contains_key(*kuni_id) ==> (r matches Ok(ids) && ids@ == target_ids(
                stored_among(self.neighbors(*kuni_id), self.kunis()),
                self.kunis()[*kuni_id].daimyo_id,
                is_attack,
            )),
    {
        let current = match self.kuni_repo.find_by_id(kuni_id) {
            Some(k) => k,
            None => {
                return Err(DomainError::NotFound(String::from_str("国が見つかりません")));
            },
        };
        let neighbors = self.get_neighbors(kuni_id);
        let mut out: Vec<KuniId> = Vec::new();
        let mut i: usize = 0;
        while i < neighbors.len()
            invariant
                i <= neighbors@.len(),
                out@ == target_ids(neighbors@.subrange(0, i as int), current.daimyo_id, is_attack),
            decreases neighbors@.len() - i,
        {
            proof {
                assert(neighbors@.subrange(0, i + 1).drop_last() == neighbors@.subrange(0, i as int));
            }
            let k = neighbors[i];
            let keep = if is_attack {
                k.daimyo_id != current.daimyo_id
            } else {
                k.daimyo_id == current.daimyo_id
            };
            if keep {
                out.push(k.id);
            }
            i = i + 1;
        }
        proof {
            assert(neighbors@.subrange(0, neighbors@.len() as int) == neighbors@);
        }
        Ok(out)
    }
    /// The player's view of the game, with the names that `names` and
    /// `daimyos` record. Fails with "手番の国が見つかりません" when the
    /// province to act is not stored, and with "手番の大名が見つかりません"
    /// when its warlord is not.
    pub fn get_player_status<D: DaimyoRepository>(
        &self,
        state: &GameState,
        player: &DaimyoId,
        names: &KuniNames,
        daimyos: &D,
    ) -> (r: Result<PlayerStatus, DomainError>)
        ensures
            state@.current() matches Some(c) && !self.kunis().contains_key(c) ==> (r matches Err(e) && is_not_found(
                e,
                "手番の国が見つかりません"@,
            )),
            state@.current() matches Some(c) && self.kunis().contains_key(c) && !daimyos.daimyos().contains_key(
                self.kunis()[c].daimyo_id,
            ) ==> (r matches Err(e) && is_not_found(e, "手番の大名が見つかりません"@)),
            r is Ok <==> (state@.current() matches Some(c) ==> self.kunis().contains_key(c)
                && daimyos.daimyos().contains_key(self.kunis()[c].daimyo_id)),
            r matches Ok(s) ==> {
                &&& s.current_turn == state.turn
                &&& s.current_daimyo_name@ == match state@.current() {
                    Some(c) => daimyos.daimyos()[self.kunis()[c].daimyo_id].name@,
                    None => "不明"@,
                }
                &&& exists|mine: Seq<Kuni>|
                    #[trigger] lists_provinces_of(mine, self.kunis(), *player)
                        && s.kunis@.len() == mine.len() && forall|i: int|
                        0 <= i < mine.len() ==> shows_kuni(
                            #[trigger] s.kunis@[i],
                            mine[i],
                            shown_name(names.name(mine[i].id)),
                        )
                &&& s.defense_alerts@.len() == wars_against(state@, self.kunis(), *player).len()
                &&& forall|i: int|
                    0 <= i < s.defense_alerts@.len() ==> alerts_war(
                        #[trigger] s.defense_alerts@[i],
                        wars_against(state@, self.kunis(), *player)[i],
                        *names,
                    )
            },
    {
        proof {
            self.kuni_repo.lemma_stored_under_own_id();
        }
        let current_daimyo_name = match state.current_kuni_id() {
            Some(c) => match self.kuni_repo.find_by_id(&c) {
                Some(k) => match daimyos.find_by_id(&k.daimyo_id) {
                    Some(d) => d.name,
                    None => {
                        return Err(DomainError::NotFound(String::from_str("手番の大名が見つかりません")));
                    },
                },
                None => {
                    return Err(DomainError::NotFound(String::from_str("手番の国が見つかりません")));
                },
            },
            None => String::from_str("不明"),
        };
        let mine = self.kuni_repo.find_by_daimyo_id(player);
        let mut kunis: Vec<KuniStatus> = Vec::new();
        let mut i: usize = 0;
        while i < mine.len()
            invariant
                i <= mine.len(),
                kunis@.len() == i,
                forall|j: int| 0 <= j < i ==> shows_kuni(#[trigger] kunis@[j], mine@[j], shown_name(names.name(mine@[j].id))),
            decreases mine.len() - i,
        {
            let k = mine[i];
            kunis.push(KuniStatus {
                id: k.id,
                name: names.name_of(k.id),
                kin: k.resource.kin.to_display(),
                kome: k.resource.kome.to_display(),
                hei: k.resource.hei.to_display(),
                jinko: k.resource.jinko.to_display(),
                kokudaka: k.stats.kokudaka.to_display(),
                machi: k.stats.machi.to_display(),
                tyu: k.stats.tyu.value(),
            });
            i = i + 1;
        }
        let mut defense_alerts: Vec<DefenseAlert> = Vec::new();
        if let Some(w) = state.war {
            if let Some(d) = self.kuni_repo.find_by_id(&w.defender) {
                if d.daimyo_id == *player {
                    defense_alerts.push(DefenseAlert {
                        attacker_kuni_name: names.name_of(w.attacker),
                        defender_kuni_name: names.name_of(w.defender),
                        enemy_hei: Amount::new(w.troops).to_display(),
                    });
                }
            }
        }
        assert(lists_provinces_of(mine@, self.kunis(), *player));
        Ok(PlayerStatus { current_turn: state.turn, current_daimyo_name, kunis, defense_alerts })
    }
}

} // verus!
