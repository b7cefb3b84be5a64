use vstd::prelude::*;
use crate::daimyo::Daimyo;
use crate::game_rules::GamePhase;
use crate::game_state::{GameState, GameStateView};
use crate::kuni::Kuni;
use crate::kuni_names::{KuniNames, name_in};
use crate::neighbor_repository::{NeighborRepository, neighbors_of};
use crate::repository::{DaimyoRepository, KuniRepository};
use crate::value_objects::{DaimyoId, KuniId};

verus! {

/// The data that a game starts from: provinces, their names, warlords and
/// the directed pairs of neighbouring provinces.
pub struct MasterData {
    pub kunis: Vec<Kuni>,
    pub names: Vec<(KuniId, String)>,
    pub daimyos: Vec<Daimyo>,
    pub adjacency: Vec<(KuniId, KuniId)>,
}

/// The store after saving `ks` in order into an empty one: each province
/// under its identifier, a later one replacing an earlier one.
pub open spec fn saved_kunis(ks: Seq<Kuni>) -> Map<KuniId, Kuni>
    decreases ks.len(),
{
    if ks.len() == 0 {
        Map::empty()
    } else {
        saved_kunis(ks.drop_last()).insert(ks.last().id, ks.last())
    }
}

/// The store after saving `ds` in order into an empty one.
pub open spec fn saved_daimyos(ds: Seq<Daimyo>) -> Map<DaimyoId, Daimyo>
    decreases ds.len(),
{
    if ds.len() == 0 {
        Map::empty()
    } else {
        saved_daimyos(ds.drop_last()).insert(ds.last().id, ds.last())
    }
}

/// The state of a game that has not started: turn 1, nobody to act.
pub open spec fn initial_state() -> GameStateView {
    GameStateView {
        turn: 1,
        order: Seq::empty(),
        index: 0,
        action_performed: false,
        phase: GamePhase::Domestic,
        winner: None,
        war: None,
    }
}

/// Starting and restarting games.
pub struct GameLifecycleUseCase;

impl GameLifecycleUseCase {
    /// Resets the game: the state goes back to turn 1 with nobody to act (no
    /// war under way), every store is emptied, and the master data is
    /// stored afresh.
    pub fn reset_game<K: KuniRepository, D: DaimyoRepository, N: NeighborRepository>(
        state: &mut GameState,
        kunis: &mut K,
        daimyos: &mut D,
        neighbors: &mut N,
        names: &mut KuniNames,
        master: MasterData,
    )
        ensures
            forall|id: KuniId| #[trigger] final(names).name(id) == name_in(
                master.names@.map_values(|e: (KuniId, String)| (e.0, e.1@)),
                id,
            ),
            final(state)@ == initial_state(),
            final(kunis).kunis() == saved_kunis(master.kunis@),
            final(daimyos).daimyos() == saved_daimyos(master.daimyos@),
            forall|id: KuniId| #[trigger] final(neighbors).neighbors(id) == neighbors_of(master.adjacency@, id),
    {
        *state = GameState {
            turn: 1,
            order: Vec::new(),
            index: 0,
            action_performed: false,
            phase: GamePhase::Domestic,
            winner: None,
            war: None,
        };
        kunis.clear();
        daimyos.clear();
        let MasterData { kunis: master_kunis, names: master_names, daimyos: master_daimyos, adjacency } = master;
        *names = KuniNames::from_entries(master_names);
        let mut i: usize = 0;
        while i < master_kunis.len()
            invariant
                i <= master_kunis@.len(),
                kunis.kunis() == saved_kunis(master_kunis@.subrange(0, i as int)),
            decreases master_kunis@.len() - i,
        {
            kunis.save(&master_kunis[i]);
            proof {
                let next = master_kunis@.subrange(0, i + 1);
                assert(next.drop_last() == master_kunis@.subrange(0, i as int));
            }
            i = i + 1;
        }
        assert(master_kunis@.subrange(0, master_kunis@.len() as int) == master_kunis@);
        let mut j: usize = 0;
        while j < master_daimyos.len()
            invariant
                j <= master_daimyos@.len(),
                daimyos.daimyos() == saved_daimyos(master_daimyos@.subrange(0, j as int)),
            decreases master_daimyos@.len() - j,
        {
            daimyos.save(&master_daimyos[j]);
            proof {
                let next = master_daimyos@.subrange(0, j + 1);
                assert(next.drop_last() == master_daimyos@.subrange(0, j as int));
            }
            j = j + 1;
        }
        assert(master_daimyos@.subrange(0, master_daimyos@.len() as int) == master_daimyos@);
        neighbors.reset(adjacency);
    }
}

} // verus!
