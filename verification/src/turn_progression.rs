use vstd::prelude::*;
use crate::game_rules::{VictoryCheck, check_victory_and_defeat, spec_victory};
use crate::game_state::{GameState, GameStateView, WarStatus};
use crate::error::{DomainError, is_invalid_state};
use crate::battle_service::{BattleService, Tactic, calculate_turn_ok};
use crate::battle_usecase::{fight_out, own_target_message, round_limit, spec_fight_out};
use crate::cpu_decision::{CpuDecision, apply_cpu_decision, decision_ok, spec_apply_decision};
use crate::error::{is_insufficient, is_not_found};
use crate::game_rules::GamePhase;
use crate::kuni::Kuni;
use crate::neighbor_repository::NeighborRepository;
use crate::turn_service::{TurnService, is_season_outcome, lemma_season_keeps_owner, season_bounds};
use crate::random::{Roll, random_in_range, rolled, shuffle_ids};
use crate::repository::{KuniRepository, lists_exactly};
use crate::value_objects::{DaimyoId, KuniId};

verus! {

/// The identifiers of `ks`, in their order.
pub open spec fn ids_of(ks: Seq<Kuni>) -> Seq<KuniId> {
    ks.map_values(|k: Kuni| k.id)
}

/// The state after the victory check's verdict `v`: a decided game takes
/// the verdict's phase and, where one is named, its winner.
pub open spec fn with_verdict(s: GameStateView, v: VictoryCheck) -> GameStateView {
    match v {
        VictoryCheck::Undecided => s,
        VictoryCheck::Decided { winner, phase } => GameStateView {
            phase,
            winner: if winner is Some { winner } else { s.winner },
            ..s
        },
    }
}

/// `after` is `before` with the verdict of the victory rules on some
/// listing of the provinces `ks`.
pub open spec fn judged(before: GameStateView, ks: Map<KuniId, Kuni>, player: Option<DaimyoId>, after: GameStateView) -> bool {
    exists|all: Seq<Kuni>|
        lists_exactly(all, ks, |k: Kuni| true) && after == with_verdict(before, #[trigger] spec_victory(all, player))
}

/// The message of a step refused because a number would overflow.
pub open spec fn overflow_message() -> Seq<char> {
    "季節の処理で値が上限を超えます"@
}

/// The next turn can start: its number fits, and every stored province can
/// play its season without overflow.
pub open spec fn season_playable(s: GameStateView, ks: Map<KuniId, Kuni>) -> bool {
    s.turn < u32::MAX && forall|id: KuniId| #[trigger] ks.contains_key(id) ==> season_bounds(ks[id], (s.turn + 1) as u32)
}

/// What ending a turn makes of the state `s0` and the stored provinces
/// `k0`: the turn number rises by one, the new order lists each stored
/// province once, nobody has acted yet, each province has played the new
/// turn's season, and the victory rules have judged the result.
pub open spec fn turn_finished(
    s0: GameStateView,
    k0: Map<KuniId, Kuni>,
    player: Option<DaimyoId>,
    s1: GameStateView,
    k1: Map<KuniId, Kuni>,
) -> bool {
    let turn = (s0.turn + 1) as u32;
    &&& k1.dom() == k0.dom()
    &&& forall|id: KuniId| #[trigger] k0.contains_key(id) ==> is_season_outcome(k0[id], turn, k1[id])
    &&& exists|all: Seq<Kuni>|
        lists_exactly(all, k0, |k: Kuni| true) && s1.order.to_multiset() == #[trigger] ids_of(all).to_multiset()
    &&& judged(
        GameStateView { turn, order: s1.order, index: 0, action_performed: false, ..s0 },
        k1,
        player,
        s1,
    )
}

/// What completing the current action makes of the state `s0` and the
/// stored provinces `k0`: the next province is to act and the victory rules
/// judge; once every province has acted the turn ends as well, unless a
/// number would overflow, which fails with the turn left unfinished.
pub open spec fn action_completed(
    s0: GameStateView,
    k0: Map<KuniId, Kuni>,
    player: Option<DaimyoId>,
    r: Result<(), DomainError>,
    s1: GameStateView,
    k1: Map<KuniId, Kuni>,
) -> bool {
    let advanced = s0.advanced();
    if !advanced.completed() {
        r is Ok && k1 == k0 && judged(advanced, k0, player, s1)
    } else {
        exists|mid: GameStateView| #[trigger] judged(advanced, k0, player, mid) && {
            &&& r is Ok <==> season_playable(mid, k0)
            &&& r matches Err(e) ==> is_invalid_state(e, overflow_message()) && s1 == mid && k1 == k0
            &&& r is Ok ==> turn_finished(mid, k0, player, s1, k1)
        }
    }
}

/// What a computer-run province does with its action.
#[derive(Debug, Clone, Copy, PartialEq, Eq, Structural)]
pub enum CpuPlan {
    /// Invade the neighbouring province `target` with `troops` troops.
    Invade { target: KuniId, troops: u32 },
    /// Take a domestic action.
    Domestic(CpuDecision),
}

/// The plan overflows no arithmetic on the stored provinces `ks` (an
/// invasion checks each round itself).
pub open spec fn cpu_plan_ok(ks: Map<KuniId, Kuni>, kuni_id: KuniId, plan: CpuPlan) -> bool {
    match plan {
        CpuPlan::Invade { target, troops } => true,
        CpuPlan::Domestic(d) => ks.contains_key(kuni_id) ==> decision_ok(ks[kuni_id], d),
    }
}

/// What the action of computer-run province `kuni_id` under `plan` makes of
/// the state `s0` and the stored provinces `k0` (`adjacent`: the target of
/// an invasion borders the province). An action already taken is not taken
/// again. A domestic decision is applied (or, when the province cannot
/// afford it, nothing happens) and the victory rules judge. An invasion of
/// the player's province starts a war that the player fights, in the battle
/// phase; one of another computer-run province is fought out at once,
/// round after round of plain attack against plain defence
/// (`spec_fight_out`), and a beaten defender's province changes hands. A
/// refused action changes nothing.
pub open spec fn cpu_step(
    s0: GameStateView,
    k0: Map<KuniId, Kuni>,
    adjacent: bool,
    kuni_id: KuniId,
    plan: CpuPlan,
    player: Option<DaimyoId>,
    r: Result<(), DomainError>,
    s1: GameStateView,
    k1: Map<KuniId, Kuni>,
) -> bool {
    &&& r is Err ==> s1 == s0 && k1 == k0
    &&& if s0.action_performed {
        r is Ok && s1 == s0 && k1 == k0
    } else if !k0.contains_key(kuni_id) {
        r matches Err(e) && is_not_found(e, "国が見つかりません"@)
    } else {
        let k = k0[kuni_id];
        let acted = GameStateView { action_performed: true, ..s0 };
        match plan {
            CpuPlan::Domestic(d) => r is Ok && k1 == k0.insert(kuni_id, spec_apply_decision(k, d)) && judged(
                acted,
                k1,
                player,
                s1,
            ),
            CpuPlan::Invade { target, troops } => if !k0.contains_key(target) {
                r matches Err(e) && is_not_found(e, "攻撃対象の国が見つかりません"@)
            } else if !adjacent {
                r matches Err(e) && e is NotAdjacent
            } else if k0[target].daimyo_id == k.daimyo_id {
                r matches Err(e) && is_invalid_state(e, own_target_message())
            } else if troops > k.resource.hei.0 {
                r matches Err(e) && is_insufficient(e, "Attacker does not have enough troops"@)
            } else if player == Some(k0[target].daimyo_id) {
                r is Ok && k1 == k0 && s1 == GameStateView {
                    phase: GamePhase::Battle,
                    war: Some(WarStatus { attacker: kuni_id, defender: target, troops }),
                    ..acted
                }
            } else {
                let f = spec_fight_out(k, k0[target], troops, round_limit(k0[target]));
                r is Ok && s1 == acted && k1 == k0.insert(kuni_id, f.0).insert(target, f.1)
            },
        }
    }
}

/// A step of progress from `s` uses the plan of the province to act: the
/// game is in the domestic phase, a stored province of a warlord other
/// than the player is to act, and it has not acted yet.
pub open spec fn plan_used(s: GameStateView, ks: Map<KuniId, Kuni>, player: Option<DaimyoId>) -> bool {
    &&& s.phase == GamePhase::Domestic
    &&& s.current() matches Some(id) && ks.contains_key(id) && player != Some(ks[id].daimyo_id)
    &&& !s.action_performed
}

/// Progress stops at `s`: the game has left the domestic phase, or the
/// player's province is to act.
pub open spec fn stops_for(s: GameStateView, ks: Map<KuniId, Kuni>, player: DaimyoId) -> bool {
    s.phase != GamePhase::Domestic || (s.current() matches Some(c) && ks.contains_key(c) && ks[c].daimyo_id == player)
}

/// `(s1, k1)` follows `(s0, k0)` by one step of progress that succeeded,
/// under some plan.
pub open spec fn one_step(
    s0: GameStateView,
    k0: Map<KuniId, Kuni>,
    s1: GameStateView,
    k1: Map<KuniId, Kuni>,
    player: DaimyoId,
) -> bool {
    exists|adjacent: bool, plan: CpuPlan, step: ProgressStep|
        #[trigger] progress_step(s0, k0, adjacent, plan, Some(player), Ok(step), s1, k1)
}

/// Entry `i` of `trace` does not stop progress, and one step that
/// succeeded leads from it to entry `i + 1`.
pub open spec fn link(trace: Seq<(GameStateView, Map<KuniId, Kuni>)>, i: int, player: DaimyoId) -> bool {
    !stops_for(trace[i].0, trace[i].1, player) && one_step(trace[i].0, trace[i].1, trace[i + 1].0, trace[i + 1].1, player)
}

/// `trace` runs from its first entry to its last by steps of progress that
/// succeeded, none taken where progress stops.
pub open spec fn runs(trace: Seq<(GameStateView, Map<KuniId, Kuni>)>, player: DaimyoId) -> bool {
    &&& trace.len() >= 1
    &&& forall|i: int| 0 <= i < trace.len() - 1 ==> #[trigger] link(trace, i, player)
}

/// A run that does not stop at its last entry extends by one more step.
pub proof fn lemma_extend_run(
    trace: Seq<(GameStateView, Map<KuniId, Kuni>)>,
    next: (GameStateView, Map<KuniId, Kuni>),
    player: DaimyoId,
)
    requires
        runs(trace, player),
        !stops_for(trace.last().0, trace.last().1, player),
        one_step(trace.last().0, trace.last().1, next.0, next.1, player),
    ensures
        runs(trace.push(next), player),
        trace.push(next)[0] == trace[0],
        trace.push(next).last() == next,
{
    let t = trace.push(next);
    assert forall|i: int| 0 <= i < t.len() - 1 implies #[trigger] link(t, i, player) by {
        if i < trace.len() - 1 {
            assert(t[i] == trace[i] && t[i + 1] == trace[i + 1]);
            assert(link(trace, i, player));
        } else {
            assert(t[i] == trace.last());
            assert(t[i + 1] == next);
        }
    }
}

/// What progressing until the player's turn, with at most `max_steps`
/// steps, makes of `(s0, k0)`: a run of at most `max_steps` steps, after
/// which either progress stops (`Ok`), or the steps are used up without
/// stopping ("プレイヤーの手番に到達できませんでした"), or one more step
/// fails with its error.
pub open spec fn progress_run(
    s0: GameStateView,
    k0: Map<KuniId, Kuni>,
    player: DaimyoId,
    max_steps: usize,
    r: Result<(), DomainError>,
    s1: GameStateView,
    k1: Map<KuniId, Kuni>,
) -> bool {
    exists|trace: Seq<(GameStateView, Map<KuniId, Kuni>)>|
        #[trigger] runs(trace, player) && trace[0] == (s0, k0) && trace.len() <= max_steps + 1 && {
            let last = trace.last();
            ||| (r is Ok && last == (s1, k1) && stops_for(s1, k1, player))
            ||| (r matches Err(e) && is_invalid_state(e, "プレイヤーの手番に到達できませんでした"@) && last == (s1, k1)
                && !stops_for(s1, k1, player) && trace.len() == max_steps + 1)
            ||| (r matches Err(e) && !stops_for(last.0, last.1, player) && exists|adjacent: bool, plan: CpuPlan|
                #[trigger] progress_step(last.0, last.1, adjacent, plan, Some(player), Err(e), s1, k1))
        }
}

/// The random numbers behind a computer-run province's plan.
#[derive(Debug, Clone, Copy, PartialEq, Eq, Structural)]
pub struct PlanDraws {
    /// An invasion goes ahead when this is 0 (drawn from `0..=3`).
    pub invade_roll: u32,
    /// Chooses the domestic action (drawn from `0..=3`).
    pub roll: u32,
    /// Yield or town gain per unit of gold invested (drawn from `45..=54`).
    pub multiplier: u32,
    /// Loyalty per ten units of rice given (drawn from `5..=10`).
    pub charity: u32,
}

/// The rolls behind a plan's random numbers.
struct PlanRolls {
    invade_roll: Roll,
    roll: Roll,
    multiplier: Roll,
    charity: Roll,
}

/// The draws lie in the ranges that they are drawn from.
pub open spec fn draws_ok(d: PlanDraws) -> bool {
    d.invade_roll <= 3 && d.roll <= 3 && 45 <= d.multiplier <= 54 && 5 <= d.charity <= 10
}

/// `n` is a province that `kuni` may invade: another warlord's, with fewer
/// troops than half of `kuni`'s, against which a round with half of
/// `kuni`'s troops can be played.
pub open spec fn invasion_candidate(kuni: Kuni, n: Kuni) -> bool {
    &&& n.daimyo_id != kuni.daimyo_id
    &&& n.resource.hei.0 < kuni.resource.hei.0 / 2
    &&& calculate_turn_ok(kuni, n, Tactic::Normal, Tactic::Normal, kuni.resource.hei.0 / 2)
}

/// The first of `ns` that `kuni` may invade.
pub open spec fn first_candidate(kuni: Kuni, ns: Seq<Kuni>) -> Option<Kuni>
    decreases ns.len(),
{
    if ns.len() == 0 {
        None
    } else if invasion_candidate(kuni, ns[0]) {
        Some(ns[0])
    } else {
        first_candidate(kuni, ns.drop_first())
    }
}

/// The first candidate is one of `ns` and may be invaded.
pub proof fn lemma_first_candidate(kuni: Kuni, ns: Seq<Kuni>)
    ensures
        first_candidate(kuni, ns) matches Some(n) ==> ns.contains(n) && invasion_candidate(kuni, n),
    decreases ns.len(),
{
    if ns.len() > 0 && !invasion_candidate(kuni, ns[0]) {
        lemma_first_candidate(kuni, ns.drop_first());
        match first_candidate(kuni, ns) {
            Some(n) => {
                let j = choose|j: int| 0 <= j < ns.drop_first().len() && ns.drop_first()[j] == n;
                assert(ns[j + 1] == n);
            },
            None => {},
        }
    } else if ns.len() > 0 {
        assert(ns[0] == ns[0]);
    }
}

/// The plan of a computer-run province with neighbours `ns` and draws `d`:
/// where some neighbour may be invaded, the first such is invaded with half
/// the troops when `d.invade_roll` is 0. Otherwise `d.roll` chooses: 0
/// develops land and 1 builds the town, with a tenth of the gold (at most
/// `u32::MAX / 54`) at `d.multiplier`; 2 gives a tenth of the rice (at most
/// 1000) as charity at `d.charity` where loyalty is at most 100; anything
/// else rests.
pub open spec fn spec_plan(kuni: Kuni, ns: Seq<Kuni>, d: PlanDraws) -> CpuPlan {
    match first_candidate(kuni, ns) {
        Some(n) if d.invade_roll == 0 => CpuPlan::Invade { target: n.id, troops: kuni.resource.hei.0 / 2 },
        _ => if d.roll == 0 {
            CpuPlan::Domestic(CpuDecision::DevelopLand { amount: invest_share(kuni), multiplier: d.multiplier })
        } else if d.roll == 1 {
            CpuPlan::Domestic(CpuDecision::BuildTown { amount: invest_share(kuni), multiplier: d.multiplier })
        } else if d.roll == 2 && kuni.stats.tyu.0 <= 100 {
            CpuPlan::Domestic(
                CpuDecision::GiveCharity {
                    amount: if kuni.resource.kome.0 / 10 <= 1000 { kuni.resource.kome.0 / 10 } else { 1000 },
                    multiplier: d.charity,
                },
            )
        } else {
            CpuPlan::Domestic(CpuDecision::Rest)
        },
    }
}

/// Plan `p` can be carried out by `kuni` among neighbours `ns` without
/// overflow: a domestic decision fits, and an invasion targets one of `ns`
/// that may be invaded.
pub open spec fn plan_playable(kuni: Kuni, ns: Seq<Kuni>, p: CpuPlan) -> bool {
    match p {
        CpuPlan::Domestic(d) => decision_ok(kuni, d),
        CpuPlan::Invade { target, troops } => troops == kuni.resource.hei.0 / 2 && exists|i: int|
            0 <= i < ns.len() && (#[trigger] ns[i]).id == target && invasion_candidate(kuni, ns[i]),
    }
}

/// The target of plan `plan` borders province `kuni_id` (never so for a
/// domestic plan).
pub open spec fn plan_adjacent<N: NeighborRepository>(neighbors: N, kuni_id: KuniId, plan: CpuPlan) -> bool {
    match plan {
        CpuPlan::Invade { target, troops } => neighbors.neighbors(kuni_id).contains(target),
        CpuPlan::Domestic(d) => false,
    }
}

/// What one step of progress did.
#[derive(Debug, Clone, Copy, PartialEq, Eq, Structural)]
pub enum ProgressStep {
    /// Nothing: the game is not in the domestic phase.
    Stopped,
    /// Every province had acted: the turn ended.
    TurnFinished,
    /// Nothing: the province to act is the player's.
    PlayerTurn,
    /// A computer-run province took its action.
    CpuActed,
}

/// What one step of progress makes of the state `s0` and the stored
/// provinces `k0`, with `plan` as the action of the province to act if it is
/// computer-run (`adjacent`: the target of an invasion borders it). Outside
/// the domestic phase nothing happens; after the last province the turn
/// ends; the player's province is left to the player; a computer-run
/// province acts and, unless its action started a battle, its action is
/// completed.
pub open spec fn progress_step(
    s0: GameStateView,
    k0: Map<KuniId, Kuni>,
    adjacent: bool,
    plan: CpuPlan,
    player: Option<DaimyoId>,
    r: Result<ProgressStep, DomainError>,
    s1: GameStateView,
    k1: Map<KuniId, Kuni>,
) -> bool {
    if s0.phase != GamePhase::Domestic {
        r == Ok::<ProgressStep, DomainError>(ProgressStep::Stopped) && s1 == s0 && k1 == k0
    } else if s0.completed() {
        &&& r is Ok <==> season_playable(s0, k0)
        &&& r matches Err(e) ==> is_invalid_state(e, overflow_message()) && s1 == s0 && k1 == k0
        &&& r is Ok ==> r == Ok::<ProgressStep, DomainError>(ProgressStep::TurnFinished) && turn_finished(s0, k0, player, s1, k1)
    } else {
        let id = s0.order[s0.index];
        if !k0.contains_key(id) {
            r matches Err(e) && is_not_found(e, "国が見つかりません"@) && s1 == s0 && k1 == k0
        } else if player == Some(k0[id].daimyo_id) {
            r == Ok::<ProgressStep, DomainError>(ProgressStep::PlayerTurn) && s1 == s0 && k1 == k0
        } else {
            exists|rc: Result<(), DomainError>, sm: GameStateView, km: Map<KuniId, Kuni>|
                #[trigger] cpu_step(s0, k0, adjacent, id, plan, player, rc, sm, km) && {
                    &&& rc matches Err(e) ==> r == Err::<ProgressStep, DomainError>(e) && s1 == s0 && k1 == k0
                    &&& rc is Ok && sm.phase == GamePhase::Battle ==> r == Ok::<ProgressStep, DomainError>(ProgressStep::CpuActed)
                        && s1 == sm && k1 == km
                    &&& rc is Ok && sm.phase != GamePhase::Battle ==> exists|rr: Result<(), DomainError>|
                        #[trigger] action_completed(sm, km, player, rr, s1, k1) && (rr is Ok ==> r
                            == Ok::<ProgressStep, DomainError>(ProgressStep::CpuActed)) && (rr matches Err(e) ==> r
                            == Err::<ProgressStep, DomainError>(e))
                }
        }
    }
}

/// The gold that a computer-run province invests in land or town: a tenth
/// of its gold, at most `u32::MAX / 54`.
pub open spec fn invest_share(k: Kuni) -> u32 {
    if k.resource.kin.0 / 10 <= u32::MAX / 54 { k.resource.kin.0 / 10 } else { u32::MAX / 54 }
}

/// The stored provinces among the neighbours of `id`.
fn neighbor_kunis<R: KuniRepository, N: NeighborRepository>(kunis: &R, neighbors: &N, id: &KuniId) -> (r: Vec<Kuni>)
    ensures
        forall|j: int| 0 <= j < r.len() ==> kunis.kunis().contains_key((#[trigger] r[j]).id) && kunis.kunis()[r[j].id]
            == r[j],
{
    proof {
        kunis.lemma_stored_under_own_id();
    }
    let ids = neighbors.get_neighbors(id);
    let mut out: Vec<Kuni> = Vec::new();
    let mut i: usize = 0;
    while i < ids.len()
        invariant
            i <= ids.len(),
            forall|id: KuniId| #[trigger] kunis.kunis().contains_key(id) ==> kunis.kunis()[id].id == id,
            forall|j: int| 0 <= j < out.len() ==> kunis.kunis().contains_key((#[trigger] out[j]).id) && kunis.kunis()[out[j].id]
                == out[j],
        decreases ids.len() - i,
    {
        if let Some(k) = kunis.find_by_id(&ids[i]) {
            out.push(k);
        }
        i = i + 1;
    }
    out
}

/// The turn machine: who acts next, the end of a turn with its seasonal
/// events and new order of action, and the victory check after each step.
pub struct TurnProgressionUseCase;

impl TurnProgressionUseCase {
    /// The identifiers of `kunis` in a random order: each appears as often
    /// as in `kunis`.
    pub fn determine_action_order(kunis: &Vec<Kuni>) -> (r: Vec<KuniId>)
        ensures
            r@.to_multiset() == ids_of(kunis@).to_multiset(),
    {
        let mut ids: Vec<KuniId> = Vec::new();
        for i in 0..kunis.len()
            invariant
                ids@ == ids_of(kunis@).subrange(0, i as int),
        {
            ids.push(kunis[i].id);
            assert(ids@ == ids_of(kunis@).subrange(0, i + 1));
        }
        assert(ids@ == ids_of(kunis@));
        shuffle_ids(ids).into_vec()
    }

    /// The state of a new game: turn 1, in the domestic phase, with the
    /// stored provinces in a random order of action and the first of them
    /// to act.
    pub fn start_game<R: KuniRepository>(kunis: &R) -> (r: GameState)
        ensures
            r@.turn == 1,
            r@.index == 0,
            !r@.action_performed,
            r@.phase == GamePhase::Domestic,
            r@.winner is None,
            r@.war is None,
            exists|all: Seq<Kuni>|
                lists_exactly(all, kunis.kunis(), |k: Kuni| true) && r@.order.to_multiset() == #[trigger] ids_of(all).to_multiset(),
    {
        let all = kunis.find_all();
        let order = Self::determine_action_order(&all);
        GameState {
            turn: 1,
            order,
            index: 0,
            action_performed: false,
            phase: GamePhase::Domestic,
            winner: None,
            war: None,
        }
    }

    /// Applies the victory check on every stored province to `state`.
    pub fn check_victory<R: KuniRepository>(state: &mut GameState, kunis: &R, player: Option<DaimyoId>)
        ensures
            judged(old(state)@, kunis.kunis(), player, final(state)@),
            final(state)@.action_performed == old(state)@.action_performed,
    {
        let all = kunis.find_all();
        let verdict = check_victory_and_defeat(&all, player);
        match verdict {
            VictoryCheck::Undecided => {},
            VictoryCheck::Decided { winner, phase } => {
                if let Some(w) = winner {
                    state.set_winner(w);
                }
                state.set_phase(phase);
            },
        }
        assert(with_verdict(old(state)@, spec_victory(all@, player)) == final(state)@);
    }
    /// Ends the turn. The next turn starts with the stored provinces in a
    /// random order of action; every stored province plays the season of the
    /// new turn; then the victory check runs on the provinces as they stand.
    /// Fails, changing nothing, when the turn number or a province's season
    /// would overflow.
    pub fn finish_turn<R: KuniRepository>(state: &mut GameState, kunis: &mut R, player: Option<DaimyoId>) -> (r: Result<(), DomainError>)
        ensures
            r is Ok <==> season_playable(old(state)@, old(kunis).kunis()),
            r matches Err(e) ==> is_invalid_state(e, overflow_message()) && final(state)@ == old(state)@
                && final(kunis).kunis() == old(kunis).kunis(),
            r is Ok ==> turn_finished(old(state)@, old(kunis).kunis(), player, final(state)@, final(kunis).kunis()),
    {
        proof {
            kunis.lemma_stored_under_own_id();
        }
        let ghost before = kunis.kunis();
        let all = kunis.find_all();
        let ghost listed = all@;
        if state.turn == u32::MAX {
            return Err(DomainError::InvalidState(String::from_str("季節の処理で値が上限を超えます")));
        }
        let turn = state.turn + 1;
        let mut k: usize = 0;
        while k < all.len()
            invariant
                all@ == listed,
                turn == old(state).turn + 1,
                before == old(kunis).kunis(),
                lists_exactly(listed, before, |x: Kuni| true),
                0 <= k <= all.len(),
                forall|j: int| 0 <= j < k ==> #[trigger] season_bounds(listed[j], turn),
            decreases all.len() - k,
        {
            if !TurnService::season_fits(&all[k], turn) {
                proof {
                    assert(before.contains_key(listed[k as int].id));
                    assert(before[listed[k as int].id] == listed[k as int]);
                    assert(!season_bounds(before[listed[k as int].id], turn));
                    assert(!season_playable(old(state)@, before));
                }
                return Err(DomainError::InvalidState(String::from_str("季節の処理で値が上限を超えます")));
            }
            k = k + 1;
        }
        proof {
            assert forall|id: KuniId| #[trigger] before.contains_key(id) implies season_bounds(before[id], turn) by {
                let j = choose|j: int| 0 <= j < listed.len() && #[trigger] listed[j].id == id;
                assert(listed[j] == before[id]);
            }
        }
        let order = Self::determine_action_order(&all);
        state.start_new_turn(order);
        let next = TurnService::process_season(turn, all);
        proof {
            assert forall|j: int| 0 <= j < next.len() implies #[trigger] next@[j].id == listed[j].id by {
                lemma_season_keeps_owner(listed[j], turn, next@[j]);
            }
        }
        let mut i: usize = 0;
        while i < next.len()
            invariant
                next.len() == listed.len(),
                lists_exactly(listed, before, |x: Kuni| true),
                forall|j: int| 0 <= j < next.len() ==> #[trigger] is_season_outcome(listed[j], turn, next@[j]),
                forall|j: int| 0 <= j < next.len() ==> #[trigger] next@[j].id == listed[j].id,
                kunis.kunis().dom() == before.dom(),
                forall|j: int| 0 <= j < i ==> kunis.kunis()[#[trigger] listed[j].id] == next@[j],
                forall|j: int| i <= j < next.len() ==> kunis.kunis()[#[trigger] listed[j].id] == before[listed[j].id],
                0 <= i <= next.len(),
            decreases next.len() - i,
        {
            kunis.save(&next[i]);
            proof {
                assert(before.contains_key(listed[i as int].id));
                assert forall|j: int| 0 <= j < next.len() && j != i implies listed[j].id != listed[i as int].id by {}
            }
            i = i + 1;
        }
        proof {
            assert forall|id: KuniId| #[trigger] before.contains_key(id) implies is_season_outcome(before[id], turn, kunis.kunis()[id]) by {
                let j = choose|j: int| 0 <= j < listed.len() && #[trigger] listed[j].id == id;
                assert(listed[j] == before[id]);
                assert(kunis.kunis()[listed[j].id] == next@[j]);
            }
            assert(ids_of(listed).to_multiset() == state.order@.to_multiset());
        }
        Self::check_victory(state, kunis, player);
        Ok(())
    }
    /// Ends the current province's action: the next province is to act and
    /// the victory check runs; once every province has acted, the turn ends.
    pub fn complete_current_action<R: KuniRepository>(state: &mut GameState, kunis: &mut R, player: Option<DaimyoId>) -> (r: Result<(), DomainError>)
        ensures
            action_completed(old(state)@, old(kunis).kunis(), player, r, final(state)@, final(kunis).kunis()),
    {
        state.advance_action();
        Self::check_victory(state, kunis, player);
        let ghost mid = state@;
        if state.is_turn_completed() {
            let r = Self::finish_turn(state, kunis, player);
            assert(judged(old(state)@.advanced(), old(kunis).kunis(), player, mid));
            r
        } else {
            Ok(())
        }
    }
    /// Takes the action of computer-run province `kuni_id` under `plan`,
    /// chosen by the caller (the choice rests on chance); see `cpu_step`.
    pub fn execute_cpu_action<R: KuniRepository, N: NeighborRepository>(
        state: &mut GameState,
        kunis: &mut R,
        neighbors: &N,
        kuni_id: KuniId,
        plan: CpuPlan,
        player: Option<DaimyoId>,
    ) -> (r: Result<(), DomainError>)
        requires
            !old(state).action_performed ==> cpu_plan_ok(old(kunis).kunis(), kuni_id, plan),
        ensures
            cpu_step(
                old(state)@,
                old(kunis).kunis(),
                match plan {
                    CpuPlan::Invade { target, troops } => neighbors.neighbors(kuni_id).contains(target),
                    CpuPlan::Domestic(d) => false,
                },
                kuni_id,
                plan,
                player,
                r,
                final(state)@,
                final(kunis).kunis(),
            ),
            r is Ok ==> final(state).action_performed,
    {
        if state.is_action_performed() {
            return Ok(());
        }
        proof {
            kunis.lemma_stored_under_own_id();
        }
        let mut kuni = match kunis.find_by_id(&kuni_id) {
            Some(k) => k,
            None => {
                return Err(DomainError::NotFound(String::from_str("国が見つかりません")));
            },
        };
        match plan {
            CpuPlan::Domestic(d) => {
                let _ = apply_cpu_decision(&mut kuni, d);
                kunis.save(&kuni);
                state.mark_action_performed();
                Self::check_victory(state, kunis, player);
                Ok(())
            },
            CpuPlan::Invade { target, troops } => {
                let enemy = match kunis.find_by_id(&target) {
                    Some(k) => k,
                    None => {
                        return Err(DomainError::NotFound(String::from_str("攻撃対象の国が見つかりません")));
                    },
                };
                if !neighbors.are_adjacent(&kuni_id, &target) {
                    return Err(DomainError::NotAdjacent);
                }
                if enemy.daimyo_id == kuni.daimyo_id {
                    return Err(DomainError::InvalidState(String::from_str("自領には攻め込めません")));
                }
                if troops > kuni.resource.hei.value() {
                    return Err(DomainError::InsufficientResource(String::from_str("Attacker does not have enough troops")));
                }
                let target_is_player = match player {
                    Some(p) => p == enemy.daimyo_id,
                    None => false,
                };
                if target_is_player {
                    state.set_phase(GamePhase::Battle);
                    state.war = Some(WarStatus { attacker: kuni_id, defender: target, troops });
                    state.mark_action_performed();
                    return Ok(());
                }
                fight_out(kunis, kuni_id, target, troops);
                state.mark_action_performed();
                Ok(())
            },
        }
    }
    /// Takes one step of the game: see `progress_step`. `plan` is the action
    /// that the province to act takes if it is computer-run.
    pub fn progress<R: KuniRepository, N: NeighborRepository>(
        state: &mut GameState,
        kunis: &mut R,
        neighbors: &N,
        plan: CpuPlan,
        player: Option<DaimyoId>,
    ) -> (r: Result<ProgressStep, DomainError>)
        requires
            plan_used(old(state)@, old(kunis).kunis(), player) ==> cpu_plan_ok(
                old(kunis).kunis(),
                old(state)@.current().unwrap(),
                plan,
            ),
        ensures
            progress_step(
                old(state)@,
                old(kunis).kunis(),
                match plan {
                    CpuPlan::Invade { target, troops } => old(state)@.current() matches Some(id)
                        && neighbors.neighbors(id).contains(target),
                    CpuPlan::Domestic(d) => false,
                },
                plan,
                player,
                r,
                final(state)@,
                final(kunis).kunis(),
            ),
    {
        if state.phase != GamePhase::Domestic {
            return Ok(ProgressStep::Stopped);
        }
        if state.is_turn_completed() {
            Self::finish_turn(state, kunis, player)?;
            return Ok(ProgressStep::TurnFinished);
        }
        let kuni_id = state.order[state.index];
        proof {
            kunis.lemma_stored_under_own_id();
        }
        let kuni = match kunis.find_by_id(&kuni_id) {
            Some(k) => k,
            None => {
                return Err(DomainError::NotFound(String::from_str("国が見つかりません")));
            },
        };
        let is_player = match player {
            Some(p) => p == kuni.daimyo_id,
            None => false,
        };
        if is_player {
            return Ok(ProgressStep::PlayerTurn);
        }
        let ghost s0 = state@;
        let ghost k0 = kunis.kunis();
        let rc = Self::execute_cpu_action(state, kunis, neighbors, kuni_id, plan, player);
        let ghost sm = state@;
        let ghost km = kunis.kunis();
        assert(cpu_step(s0, k0, match plan {
            CpuPlan::Invade { target, troops } => neighbors.neighbors(kuni_id).contains(target),
            CpuPlan::Domestic(d) => false,
        }, kuni_id, plan, player, rc, sm, km));
        match rc {
            Err(e) => {
                return Err(e);
            },
            Ok(()) => {},
        }
        if state.phase == GamePhase::Battle {
            return Ok(ProgressStep::CpuActed);
        }
        let rr = Self::complete_current_action(state, kunis, player);
        assert(action_completed(sm, km, player, rr, state@, kunis.kunis()));
        match rr {
            Err(e) => Err(e),
            Ok(()) => Ok(ProgressStep::CpuActed),
        }
    }
    /// The plan of a computer-run province, given its neighbouring provinces
    /// and the random numbers drawn for it; see `spec_plan`.
    pub fn plan_from_draws(kuni: &Kuni, neighbors: &Vec<Kuni>, d: PlanDraws) -> (p: CpuPlan)
        requires
            draws_ok(d),
        ensures
            p == spec_plan(*kuni, neighbors@, d),
            plan_playable(*kuni, neighbors@, p),
    {
        let troops = kuni.resource.hei.value() / 2;
        let mut i: usize = 0;
        proof {
            assert(neighbors@.subrange(0, neighbors@.len() as int) == neighbors@);
        }
        let mut found: Option<KuniId> = None;
        while i < neighbors.len() && found.is_none()
            invariant
                i <= neighbors.len(),
                troops == kuni.resource.hei.0 / 2,
                found is None ==> first_candidate(*kuni, neighbors@) == first_candidate(
                    *kuni,
                    neighbors@.subrange(i as int, neighbors@.len() as int),
                ),
                found matches Some(t) ==> (first_candidate(*kuni, neighbors@) matches Some(n) && n.id == t),
            decreases neighbors.len() - i,
        {
            let n = &neighbors[i];
            let ghost rest = neighbors@.subrange(i as int, neighbors@.len() as int);
            assert(rest[0] == *n);
            assert(rest.drop_first() == neighbors@.subrange(i + 1, neighbors@.len() as int));
            if n.daimyo_id != kuni.daimyo_id && n.resource.hei.value() < troops && BattleService::round_fits(
                kuni,
                n,
                Tactic::Normal,
                Tactic::Normal,
                troops,
            ) {
                found = Some(n.id);
            }
            i = i + 1;
        }
        proof {
            lemma_first_candidate(*kuni, neighbors@);
            if found is None {
                assert(neighbors@.subrange(i as int, neighbors@.len() as int).len() == 0);
            }
        }
        if let Some(target) = found {
            if d.invade_roll == 0 {
                return CpuPlan::Invade { target, troops };
            }
        }
        let invest = if kuni.resource.kin.value() / 10 <= u32::MAX / 54 {
            kuni.resource.kin.value() / 10
        } else {
            u32::MAX / 54
        };
        let multiplier = d.multiplier;
        assert(invest * multiplier <= u32::MAX) by (nonlinear_arith)
            requires
                invest <= u32::MAX / 54,
                multiplier <= 54,
        ;
        if d.roll == 0 {
            CpuPlan::Domestic(CpuDecision::DevelopLand { amount: invest, multiplier })
        } else if d.roll == 1 {
            CpuPlan::Domestic(CpuDecision::BuildTown { amount: invest, multiplier })
        } else if d.roll == 2 && kuni.stats.tyu.value() <= 100 {
            let tenth_kome = kuni.resource.kome.value() / 10;
            let amount = if tenth_kome <= 1000 { tenth_kome } else { 1000 };
            let charity = d.charity;
            assert(amount * charity <= 10000) by (nonlinear_arith)
                requires
                    amount <= 1000,
                    charity <= 10,
            ;
            CpuPlan::Domestic(CpuDecision::GiveCharity { amount, multiplier: charity })
        } else {
            CpuPlan::Domestic(CpuDecision::Rest)
        }
    }

    /// Draws the plan of a computer-run province, given its neighbouring
    /// provinces: the random numbers are drawn from the ranges of
    /// `draws_ok`, each value equally likely, and `plan_from_draws` makes the
    /// plan of them.
    pub fn draw_cpu_plan(kuni: &Kuni, neighbors: &Vec<Kuni>) -> (p: CpuPlan)
        ensures
            exists|d: PlanDraws| draws_ok(d) && p == #[trigger] spec_plan(*kuni, neighbors@, d),
            plan_playable(*kuni, neighbors@, p),
    {
        let (d, _rolls) = Self::draw_plan_draws();
        Self::plan_from_draws(kuni, neighbors, d)
    }

    /// The random numbers of a plan, each the value of a roll from its range
    /// (`0..=3` for the two choices, `45..=54` for the multiplier, `5..=10`
    /// for the charity rate).
    fn draw_plan_draws() -> (r: (PlanDraws, PlanRolls))
        ensures
            draws_ok(r.0),
            rolled(r.1.invade_roll, 0, 3, r.0.invade_roll),
            rolled(r.1.roll, 0, 3, r.0.roll),
            rolled(r.1.multiplier, 45, 54, r.0.multiplier),
            rolled(r.1.charity, 5, 10, r.0.charity),
    {
        let rolls = PlanRolls {
            invade_roll: random_in_range(0, 3),
            roll: random_in_range(0, 3),
            multiplier: random_in_range(45, 54),
            charity: random_in_range(5, 10),
        };
        let d = PlanDraws {
            invade_roll: rolls.invade_roll.get(),
            roll: rolls.roll.get(),
            multiplier: rolls.multiplier.get(),
            charity: rolls.charity.get(),
        };
        (d, rolls)
    }

    /// Takes the action of computer-run province `kuni_id` under `plan` and
    /// completes it: `execute_cpu_action`, then, when that succeeds,
    /// `complete_current_action`.
    pub fn execute_cpu_action_and_advance<R: KuniRepository, N: NeighborRepository>(
        state: &mut GameState,
        kunis: &mut R,
        neighbors: &N,
        kuni_id: KuniId,
        plan: CpuPlan,
        player: Option<DaimyoId>,
    ) -> (r: Result<(), DomainError>)
        requires
            !old(state).action_performed ==> cpu_plan_ok(old(kunis).kunis(), kuni_id, plan),
        ensures
            exists|rc: Result<(), DomainError>, sm: GameStateView, km: Map<KuniId, Kuni>|
                #[trigger] cpu_step(
                    old(state)@,
                    old(kunis).kunis(),
                    plan_adjacent(*neighbors, kuni_id, plan),
                    kuni_id,
                    plan,
                    player,
                    rc,
                    sm,
                    km,
                ) && (rc matches Err(e) ==> r == Err::<(), DomainError>(e) && final(state)@ == old(state)@
                    && final(kunis).kunis() == old(kunis).kunis()) && (rc is Ok ==> action_completed(
                    sm,
                    km,
                    player,
                    r,
                    final(state)@,
                    final(kunis).kunis(),
                )),
    {
        let ghost s0 = state@;
        let ghost k0 = kunis.kunis();
        let rc = Self::execute_cpu_action(state, kunis, neighbors, kuni_id, plan, player);
        let ghost sm = state@;
        let ghost km = kunis.kunis();
        assert(cpu_step(s0, k0, plan_adjacent(*neighbors, kuni_id, plan), kuni_id, plan, player, rc, sm, km));
        match rc {
            Err(e) => Err(e),
            Ok(()) => Self::complete_current_action(state, kunis, player),
        }
    }

    /// Lets the computer take the action of the province to act, whoever
    /// rules it ("お任せ"): a plan is drawn by `draw_cpu_plan` and carried
    /// out as for a computer-run province, and the action is completed
    /// unless it started a battle. Fails, changing nothing, when no province
    /// is left to act this turn ("現在の手番の国が見つかりません") or the
    /// game is not in the domestic phase.
    pub fn auto_action<R: KuniRepository, N: NeighborRepository>(
        state: &mut GameState,
        kunis: &mut R,
        neighbors: &N,
        player: Option<DaimyoId>,
    ) -> (r: Result<(), DomainError>)
        ensures
            old(state)@.current() is None ==> (r matches Err(e) && is_invalid_state(e, "現在の手番の国が見つかりません"@)
                && final(state)@ == old(state)@ && final(kunis).kunis() == old(kunis).kunis()),
            old(state)@.current() matches Some(c) ==> if !old(state)@.allows(c) {
                r matches Err(e) && old(state)@.refuses_with(c, e) && final(state)@ == old(state)@
                    && final(kunis).kunis() == old(kunis).kunis()
            } else {
                exists|plan: CpuPlan, adjacent: bool, rc: Result<(), DomainError>, sm: GameStateView, km: Map<KuniId, Kuni>|
                    #[trigger] cpu_step(old(state)@, old(kunis).kunis(), adjacent, c, plan, player, rc, sm, km) && {
                        &&& rc matches Err(e) ==> r == Err::<(), DomainError>(e) && final(state)@ == old(state)@
                            && final(kunis).kunis() == old(kunis).kunis()
                        &&& rc is Ok && sm.phase == GamePhase::Battle ==> r is Ok && final(state)@ == sm
                            && final(kunis).kunis() == km
                        &&& rc is Ok && sm.phase != GamePhase::Battle ==> action_completed(
                            sm,
                            km,
                            player,
                            r,
                            final(state)@,
                            final(kunis).kunis(),
                        )
                    }
            },
    {
        let c = match state.current_kuni_id() {
            Some(c) => c,
            None => {
                return Err(DomainError::InvalidState(String::from_str("現在の手番の国が見つかりません")));
            },
        };
        state.check_turn(c)?;
        proof {
            kunis.lemma_stored_under_own_id();
        }
        let plan = match kunis.find_by_id(&c) {
            Some(k) => {
                let around = neighbor_kunis(kunis, neighbors, &c);
                Self::draw_cpu_plan(&k, &around)
            },
            None => CpuPlan::Domestic(CpuDecision::Rest),
        };
        let ghost s0 = state@;
        let ghost k0 = kunis.kunis();
        let ghost adjacent = match plan {
            CpuPlan::Invade { target, troops } => neighbors.neighbors(c).contains(target),
            CpuPlan::Domestic(d) => false,
        };
        let rc = Self::execute_cpu_action(state, kunis, neighbors, c, plan, player);
        let ghost sm = state@;
        let ghost km = kunis.kunis();
        assert(cpu_step(s0, k0, adjacent, c, plan, player, rc, sm, km));
        match rc {
            Err(e) => {
                return Err(e);
            },
            Ok(()) => {},
        }
        if state.phase == GamePhase::Battle {
            return Ok(());
        }
        Self::complete_current_action(state, kunis, player)
    }

    /// Plays computer-run provinces, each with a plan drawn by
    /// `draw_cpu_plan`, until the player's province is to act or the game
    /// leaves the domestic phase (see `progress_run`). Fails with
    /// "プレイヤーの手番に到達できませんでした" once `max_steps` steps have
    /// been taken without getting there, and with the error of a step that
    /// fails.
    #[verifier::spinoff_prover]
    pub fn progress_until_player_turn<R: KuniRepository, N: NeighborRepository>(
        state: &mut GameState,
        kunis: &mut R,
        neighbors: &N,
        player: DaimyoId,
        max_steps: usize,
    ) -> (r: Result<(), DomainError>)
        ensures
            r is Ok ==> stops_for(final(state)@, final(kunis).kunis(), player),
            progress_run(old(state)@, old(kunis).kunis(), player, max_steps, r, final(state)@, final(kunis).kunis()),
    {
        let ghost start = (state@, kunis.kunis());
        let ghost mut trace: Seq<(GameStateView, Map<KuniId, Kuni>)> = seq![start];
        let mut steps: usize = 0;
        loop
            invariant
                steps <= max_steps,
                trace.len() == steps + 1,
                trace[0] == (old(state)@, old(kunis).kunis()),
                trace.last() == (state@, kunis.kunis()),
                runs(trace, player),
            decreases max_steps - steps,
        {
            proof {
                kunis.lemma_stored_under_own_id();
            }
            if state.phase != GamePhase::Domestic {
                assert(stops_for(state@, kunis.kunis(), player));
                return Ok(());
            }
            let plan = match state.current_kuni_id() {
                Some(id) => match kunis.find_by_id(&id) {
                    Some(k) => {
                        if k.daimyo_id == player {
                            assert(stops_for(state@, kunis.kunis(), player));
                            return Ok(());
                        }
                        let around = neighbor_kunis(kunis, neighbors, &id);
                        Self::draw_cpu_plan(&k, &around)
                    },
                    None => CpuPlan::Domestic(CpuDecision::Rest),
                },
                None => CpuPlan::Domestic(CpuDecision::Rest),
            };
            assert(!stops_for(state@, kunis.kunis(), player));
            if steps >= max_steps {
                return Err(DomainError::InvalidState(String::from_str("プレイヤーの手番に到達できませんでした")));
            }
            let ghost s0 = state@;
            let ghost k0 = kunis.kunis();
            let ghost adjacent = match plan {
                CpuPlan::Invade { target, troops } => s0.current() matches Some(id) && neighbors.neighbors(id).contains(
                    target,
                ),
                CpuPlan::Domestic(d) => false,
            };
            let step = Self::progress(state, kunis, neighbors, plan, Some(player));
            assert(progress_step(s0, k0, adjacent, plan, Some(player), step, state@, kunis.kunis()));
            match step {
                Ok(_) => {},
                Err(e) => {
                    proof {
                        assert(progress_step(s0, k0, adjacent, plan, Some(player), Err(e), state@, kunis.kunis()));
                        assert(trace.last() == (s0, k0));
                        assert(runs(trace, player));
                        assert(progress_step(trace.last().0, trace.last().1, adjacent, plan, Some(player), Err(e), state@, kunis.kunis()));
                        assert(!stops_for(trace.last().0, trace.last().1, player));
                    }
                    return Err(e);
                },
            }
            proof {
                let next = (state@, kunis.kunis());
                assert(one_step(s0, k0, next.0, next.1, player));
                lemma_extend_run(trace, next, player);
                trace = trace.push(next);
            }
            steps = steps + 1;
        }
    }
}

} // verus!
