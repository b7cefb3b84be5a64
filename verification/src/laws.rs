//! Properties of the rules that span operations.

use vstd::prelude::*;
use crate::battle_service::{
    BattleSide, Tactic, attacker_after_supply, attacker_after_tactics, defender_after_round, is_defeated, spec_calculate_turn,
    spec_winner, tactic_effect, calculate_turn_ok,
};
use crate::kuni::Kuni;
use crate::game_rules::{GamePhase, VictoryCheck, rules_all, rules_some, spec_victory};
use crate::value_objects::DaimyoId;
use crate::handler::{Command, Key, spec_domestic, spec_war, troops_per_round};
use crate::action_log::tactic_name;
use crate::screen::{DomesticView, WarView};
use crate::resource::Resource;
use crate::error::DomainError;
use crate::repository::{lists_exactly, unique_kuni_ids};
use crate::turn_progression::season_playable;
use crate::turn_service::{SeasonDraws, after_disaster, draws_in_range, is_season_outcome, season_bounds, spec_season};
use crate::cpu_decision::CpuDecision;
use crate::turn_progression::{PlanDraws, draws_ok, first_candidate, spec_plan};
use crate::value_objects::KuniId;
use crate::battle_usecase::{spec_battle_round, tactic_of_roll};
use crate::game_state::GameStateView;
use crate::turn_progression::{
    CpuPlan, ProgressStep, action_completed, cpu_step, ids_of, judged, progress_step, turn_finished, with_verdict,
};

verus! {

/// Adding back what was just taken from a stock restores the stock.
pub proof fn lemma_add_undoes_consume(r: Resource, kin: u32, hei: u32, kome: u32)
    requires
        r.spec_can_consume(kin, hei, kome),
    ensures
        r.spec_consumed(kin, hei, kome).spec_added(kin, hei, kome) == r,
{
}

/// Loyalty after any change lies in `0..=100`.
pub proof fn lemma_tyu_stays_in_range(k: Kuni, delta: int)
    ensures
        k.spec_modify_tyu(delta).stats.tyu.0 <= 100,
{
}

/// A transport between two different provinces moves goods without creating
/// or destroying any: the totals of gold, troops and rice of the two are the
/// same afterwards, provided the target's stock does not reach `u32::MAX`.
pub proof fn lemma_transport_conserves_totals(
    kunis: Map<KuniId, Kuni>,
    from: KuniId,
    to: KuniId,
    kin: u32,
    hei: u32,
    kome: u32,
)
    requires
        from != to,
        kunis.contains_key(from),
        kunis.contains_key(to),
        kunis[from].resource.spec_can_consume(kin, hei, kome),
        kunis[to].resource.kin.0 + kin <= u32::MAX,
        kunis[to].resource.hei.0 + hei <= u32::MAX,
        kunis[to].resource.kome.0 + kome <= u32::MAX,
    ensures
        ({
            let after = kunis.insert(from, kunis[from].spec_consume(kin, hei, kome)).insert(
                to,
                kunis[to].spec_add(kin, hei, kome),
            );
            &&& after[from].resource.kin.0 + after[to].resource.kin.0 == kunis[from].resource.kin.0
                + kunis[to].resource.kin.0
            &&& after[from].resource.hei.0 + after[to].resource.hei.0 == kunis[from].resource.hei.0
                + kunis[to].resource.hei.0
            &&& after[from].resource.kome.0 + after[to].resource.kome.0 == kunis[from].resource.kome.0
                + kunis[to].resource.kome.0
        }),
{
}

/// Recruiting turns population into troops one for one: troops plus
/// population stay the same (for populations and amounts below `2^31` and
/// troops that do not reach `u32::MAX`).
pub proof fn lemma_recruit_conserves_people(k: Kuni, amount: u32)
    requires
        k.resource.jinko.0 >= amount,
        k.resource.jinko.0 <= i32::MAX,
        k.resource.hei.0 + amount <= u32::MAX,
    ensures
        k.spec_recruited(amount).resource.hei.0 + k.spec_recruited(amount).resource.jinko.0
            == k.resource.hei.0 + k.resource.jinko.0,
{
}

/// Dismissing turns troops back into population one for one: troops plus
/// population stay the same (while the population stays below `2^31`).
pub proof fn lemma_dismiss_conserves_people(k: Kuni, amount: u32)
    requires
        k.resource.hei.0 >= amount,
        k.resource.jinko.0 + amount <= i32::MAX,
    ensures
        k.spec_dismissed(amount).resource.hei.0 + k.spec_dismissed(amount).resource.jinko.0
            == k.resource.hei.0 + k.resource.jinko.0,
{
}

/// Dismissing the troops just recruited gives back the troops and the
/// population the province had.
pub proof fn lemma_dismiss_undoes_recruit(k: Kuni, amount: u32)
    requires
        k.resource.jinko.0 >= amount,
        k.resource.kin.0 >= amount / 2,
        k.resource.jinko.0 <= i32::MAX,
        k.resource.hei.0 + amount <= u32::MAX,
    ensures
        k.spec_recruited(amount).spec_dismissed(amount).resource.hei == k.resource.hei,
        k.spec_recruited(amount).spec_dismissed(amount).resource.jinko == k.resource.jinko,
{
}

/// Selling rice brings between 1 and 2 gold per unit of rice sold (while
/// the gold stays below `u32::MAX`).
pub proof fn lemma_rice_price_bounds(k: Kuni, amount: u32, bias: u32)
    requires
        10 <= bias <= 20,
        k.resource.kome.0 >= amount,
        k.resource.kin.0 + amount * 2 <= u32::MAX,
    ensures
        k.resource.kin.0 + amount <= k.spec_sold_rice(amount, bias).resource.kin.0,
        k.spec_sold_rice(amount, bias).resource.kin.0 <= k.resource.kin.0 + amount * 2,
        k.spec_sold_rice(amount, bias).resource.kome.0 == k.resource.kome.0 - amount,
{
    assert(amount * bias / 10 >= amount) by (nonlinear_arith)
        requires bias >= 10;
    assert(amount * bias / 10 <= amount * 2) by (nonlinear_arith)
        requires bias <= 20;
}

/// A round of battle changes neither which provinces fight nor who rules
/// them, and never gives the defender troops.
pub proof fn lemma_battle_keeps_owners(a: Kuni, d: Kuni, at: Tactic, dt: Tactic, troops: u32)
    ensures
        spec_calculate_turn(a, d, at, dt, troops).attacker_kuni.id == a.id,
        spec_calculate_turn(a, d, at, dt, troops).attacker_kuni.daimyo_id == a.daimyo_id,
        spec_calculate_turn(a, d, at, dt, troops).defender_kuni.id == d.id,
        spec_calculate_turn(a, d, at, dt, troops).defender_kuni.daimyo_id == d.daimyo_id,
        spec_calculate_turn(a, d, at, dt, troops).defender_kuni.resource.hei.0 <= d.resource.hei.0,
{
}

/// A battle ends exactly when a side is beaten, and the attacker wins
/// exactly when the defender is beaten.
pub proof fn lemma_battle_winner(a: Kuni, d: Kuni, at: Tactic, dt: Tactic, troops: u32)
    ensures
        ({
            let r = spec_calculate_turn(a, d, at, dt, troops);
            &&& r.winner == Some(BattleSide::Attacker) <==> is_defeated(r.defender_kuni)
            &&& r.winner == Some(BattleSide::Defender) <==> (!is_defeated(r.defender_kuni)
                && is_defeated(r.attacker_kuni))
            &&& r.winner is None <==> (!is_defeated(r.defender_kuni) && !is_defeated(r.attacker_kuni))
        }),
{
    let r = spec_calculate_turn(a, d, at, dt, troops);
    let a1 = attacker_after_supply(attacker_after_tactics(a, at, dt), troops);
    if spec_winner(a1, r.defender_kuni) == Some(BattleSide::Attacker) {
    } else {
        assert(r.attacker_kuni == a1);
    }
}

/// An attack whose damage reaches the defender's troops wins the battle.
pub proof fn lemma_overwhelming_attack_wins(a: Kuni, d: Kuni, at: Tactic, dt: Tactic, troops: u32)
    requires
        troops * tactic_effect(at, dt).damage_percent / 100 >= d.resource.hei.0,
        troops * tactic_effect(at, dt).damage_percent <= u32::MAX,
    ensures
        spec_calculate_turn(a, d, at, dt, troops).winner == Some(BattleSide::Attacker),
{
    let pct = tactic_effect(at, dt).damage_percent;
    assert(troops * pct / 100 <= troops * pct) by (nonlinear_arith)
        requires troops * pct >= 0;
    assert(defender_after_round(d, at, dt, troops).resource.hei.0 == 0);
}

/// Gold and rice change only at the harvest (`turn % 4 == 2`); population
/// grows only when `turn % 4 == 0`, and otherwise can only fall.
pub proof fn lemma_season_calendar(k: Kuni, turn: u32, d: SeasonDraws)
    requires
        season_bounds(k, turn),
        draws_in_range(d, turn),
    ensures
        turn % 4 != 2 ==> spec_season(k, turn, d).resource.kin == k.resource.kin
            && spec_season(k, turn, d).resource.kome == k.resource.kome,
        turn % 4 != 0 ==> spec_season(k, turn, d).resource.jinko.0 <= k.resource.jinko.0,
        spec_season(k, turn, d).resource.hei == k.resource.hei,
        spec_season(k, turn, d).id == k.id && spec_season(k, turn, d).daimyo_id == k.daimyo_id,
{
    let k1 = after_disaster(k, turn, d);
    if d.disaster == 0 {
        assert(k.resource.jinko.0 * d.severity / 100 <= k.resource.jinko.0) by (nonlinear_arith)
            requires d.severity <= 19;
    }
    assert(k1.resource.jinko.0 <= k.resource.jinko.0);
}

/// Saving a province and then reading it gives back what was saved, and
/// leaves every other province as it was.
pub proof fn lemma_read_after_save(kunis: Map<KuniId, Kuni>, kuni: Kuni, other: KuniId)
    requires
        other != kuni.id,
    ensures
        kunis.insert(kuni.id, kuni).contains_key(kuni.id),
        kunis.insert(kuni.id, kuni)[kuni.id] == kuni,
        kunis.insert(kuni.id, kuni).contains_key(other) == kunis.contains_key(other),
        kunis.contains_key(other) ==> kunis.insert(kuni.id, kuni)[other] == kunis[other],
{
}


/// A warlord who rules every province has won: the game is decided with
/// that warlord as winner, a clear if it is the player's and a game over
/// otherwise.
pub proof fn lemma_unifier_wins(ks: Seq<Kuni>, d: DaimyoId, player: Option<DaimyoId>)
    requires
        ks.len() > 0,
        rules_all(ks, d),
    ensures
        spec_victory(ks, player) == (VictoryCheck::Decided {
            winner: Some(d),
            phase: if player == Some(d) { GamePhase::GameClear } else { GamePhase::GameOver },
        }),
{
    assert(ks[0].daimyo_id == d);
    if let Some(p) = player {
        if p == d {
            assert(ks[0].daimyo_id == p);
        }
    }
}

/// A player who has lost every province has lost the game.
pub proof fn lemma_landless_player_loses(ks: Seq<Kuni>, p: DaimyoId)
    requires
        ks.len() > 0,
        !rules_some(ks, p),
    ensures
        spec_victory(ks, Some(p)) matches VictoryCheck::Decided { phase, .. } && phase
            == GamePhase::GameOver,
{
}

/// While two provinces have different rulers and the player still rules a
/// province, the game goes on.
pub proof fn lemma_divided_land_goes_on(ks: Seq<Kuni>, player: Option<DaimyoId>, i: int, j: int)
    requires
        0 <= i < ks.len(),
        0 <= j < ks.len(),
        ks[i].daimyo_id != ks[j].daimyo_id,
        player matches Some(p) ==> rules_some(ks, p),
    ensures
        spec_victory(ks, player) == VictoryCheck::Undecided,
{
}


/// Out of the player's turn, the domestic menu and the tactic menu only
/// quit, spy (which the rules allow at any time) or refuse: no command that
/// changes a province is issued.
pub proof fn lemma_out_of_turn_changes_nothing(
    kuni: KuniId,
    defender: KuniId,
    cursor: nat,
    neighbors: Seq<KuniId>,
)
    ensures
        ({
            let c = spec_domestic(kuni, cursor, DomesticView::Normal, Key::Enter, false, neighbors).1;
            c == Command::Idle || c == Command::Quit || c == Command::Information
        }),
        spec_war(kuni, defender, cursor, WarView::SelectTactic, Key::Enter, false).1 == Command::Idle,
{
}

/// A beaten defender's province passes to the attacker's warlord; while the
/// defender holds, it keeps its warlord.
pub proof fn lemma_conquest(a: Kuni, d: Kuni, at: Tactic, dt: Tactic, troops: u32)
    ensures
        ({
            let r = spec_battle_round(a, d, at, dt, troops);
            &&& r.defender_kuni.id == d.id
            &&& r.winner == Some(BattleSide::Attacker) ==> r.defender_kuni.daimyo_id == a.daimyo_id
            &&& r.winner != Some(BattleSide::Attacker) ==> r.defender_kuni.daimyo_id == d.daimyo_id
        }),
{
}

/// The victory check touches nothing but the phase and the winner.
pub proof fn lemma_judging_keeps_turn(s0: GameStateView, ks: Map<KuniId, Kuni>, player: Option<DaimyoId>, s1: GameStateView)
    requires
        judged(s0, ks, player, s1),
    ensures
        s1.turn == s0.turn,
        s1.order == s0.order,
        s1.index == s0.index,
        s1.action_performed == s0.action_performed,
        s1.war == s0.war,
{
    let all = choose|all: Seq<Kuni>| lists_exactly(all, ks, |k: Kuni| true) && s1 == with_verdict(s0, #[trigger] spec_victory(all, player));
}

/// A province acts once per turn: once a computer-run province's action has
/// been taken, taking it again, under any plan, changes nothing.
pub proof fn lemma_cpu_acts_once(
    s0: GameStateView,
    k0: Map<KuniId, Kuni>,
    adjacent: bool,
    kuni_id: KuniId,
    plan: CpuPlan,
    player: Option<DaimyoId>,
    s1: GameStateView,
    k1: Map<KuniId, Kuni>,
    adjacent2: bool,
    plan2: CpuPlan,
    r2: Result<(), DomainError>,
    s2: GameStateView,
    k2: Map<KuniId, Kuni>,
)
    requires
        cpu_step(s0, k0, adjacent, kuni_id, plan, player, Ok(()), s1, k1),
        cpu_step(s1, k1, adjacent2, kuni_id, plan2, player, r2, s2, k2),
    ensures
        r2 is Ok,
        s2 == s1,
        k2 == k1,
{
    if !s0.action_performed && k0.contains_key(kuni_id) {
        if plan is Domestic {
            let acted = GameStateView { action_performed: true, ..s0 };
            lemma_judging_keeps_turn(acted, k1, player, s1);
        }
    }
}

/// Progress never plays the player's province: when it is the player's
/// turn, a step of progress changes nothing and says so.
pub proof fn lemma_progress_stops_at_player(
    s0: GameStateView,
    k0: Map<KuniId, Kuni>,
    adjacent: bool,
    plan: CpuPlan,
    p: DaimyoId,
    r: Result<ProgressStep, DomainError>,
    s1: GameStateView,
    k1: Map<KuniId, Kuni>,
)
    requires
        s0.phase == GamePhase::Domestic,
        s0.current() matches Some(id) && k0.contains_key(id) && k0[id].daimyo_id == p,
        progress_step(s0, k0, adjacent, plan, Some(p), r, s1, k1),
    ensures
        r == Ok::<ProgressStep, DomainError>(ProgressStep::PlayerTurn),
        s1 == s0,
        k1 == k0,
{
}

/// When the last province of the order completes its action, the next turn
/// begins: its number is one higher, the first province of the new order is
/// to act, and it has not acted yet.
pub proof fn lemma_last_action_ends_turn(
    s0: GameStateView,
    k0: Map<KuniId, Kuni>,
    player: Option<DaimyoId>,
    s1: GameStateView,
    k1: Map<KuniId, Kuni>,
)
    requires
        s0.order.len() > 0,
        s0.index == s0.order.len() - 1,
        action_completed(s0, k0, player, Ok(()), s1, k1),
    ensures
        s1.turn == s0.turn + 1,
        s1.index == 0,
        !s1.action_performed,
{
    let advanced = s0.advanced();
    let mid = choose|mid: GameStateView| #[trigger] judged(advanced, k0, player, mid) && {
        &&& (Ok::<(), DomainError>(())) is Ok <==> season_playable(mid, k0)
        &&& turn_finished(mid, k0, player, s1, k1)
    };
    lemma_judging_keeps_turn(advanced, k0, player, mid);
    let turn = (mid.turn + 1) as u32;
    let started = GameStateView { turn, order: s1.order, index: 0, action_performed: false, ..mid };
    lemma_judging_keeps_turn(started, k1, player, s1);
}

/// How often `id` occurs in the identifiers of `ks`.
pub open spec fn occurrences(ks: Seq<Kuni>, id: KuniId) -> nat
    decreases ks.len(),
{
    if ks.len() == 0 {
        0
    } else {
        occurrences(ks.drop_last(), id) + if ks.last().id == id { 1nat } else { 0nat }
    }
}

proof fn lemma_occurrences_count(ks: Seq<Kuni>, id: KuniId)
    ensures
        ids_of(ks).to_multiset().count(id) == occurrences(ks, id),
    decreases ks.len(),
{
    broadcast use vstd::seq_lib::group_to_multiset_ensures;
    broadcast use vstd::multiset::group_multiset_axioms;

    if ks.len() > 0 {
        lemma_occurrences_count(ks.drop_last(), id);
        assert(ids_of(ks) == ids_of(ks.drop_last()).push(ks.last().id));
        ids_of(ks.drop_last()).to_multiset_ensures();
    } else {
        assert(ids_of(ks) =~= Seq::<KuniId>::empty());
    }
}

proof fn lemma_unique_occurrences(ks: Seq<Kuni>, id: KuniId)
    requires
        unique_kuni_ids(ks),
    ensures
        occurrences(ks, id) <= 1,
        occurrences(ks, id) == 1 <==> exists|i: int| 0 <= i < ks.len() && #[trigger] ks[i].id == id,
    decreases ks.len(),
{
    if ks.len() > 0 {
        let rest = ks.drop_last();
        assert(unique_kuni_ids(rest)) by {
            assert forall|i: int, j: int| 0 <= i < rest.len() && 0 <= j < rest.len() && i != j implies rest[i].id
                != rest[j].id by {
                assert(rest[i] == ks[i] && rest[j] == ks[j]);
            }
        }
        lemma_unique_occurrences(rest, id);
        if ks.last().id == id {
            assert forall|i: int| 0 <= i < rest.len() implies rest[i].id != id by {
                assert(rest[i] == ks[i]);
                assert(ks[ks.len() - 1].id == id);
            }
            assert(ks[ks.len() - 1].id == id);
        } else {
            if exists|i: int| 0 <= i < ks.len() && #[trigger] ks[i].id == id {
                let i = choose|i: int| 0 <= i < ks.len() && #[trigger] ks[i].id == id;
                assert(i < ks.len() - 1);
                assert(rest[i].id == id);
            }
            if exists|i: int| 0 <= i < rest.len() && #[trigger] rest[i].id == id {
                let i = choose|i: int| 0 <= i < rest.len() && #[trigger] rest[i].id == id;
                assert(ks[i].id == id);
            }
        }
    }
}

/// After a turn ends, every stored province appears exactly once in the new
/// order of action, and nothing else appears in it: each province acts once
/// per turn.
pub proof fn lemma_each_province_acts_once_per_turn(
    s0: GameStateView,
    k0: Map<KuniId, Kuni>,
    player: Option<DaimyoId>,
    s1: GameStateView,
    k1: Map<KuniId, Kuni>,
    id: KuniId,
)
    requires
        turn_finished(s0, k0, player, s1, k1),
    ensures
        s1.order.to_multiset().count(id) == (if k0.contains_key(id) { 1nat } else { 0nat }),
{
    let all = choose|all: Seq<Kuni>|
        lists_exactly(all, k0, |k: Kuni| true) && s1.order.to_multiset() == #[trigger] ids_of(all).to_multiset();
    lemma_occurrences_count(all, id);
    lemma_unique_occurrences(all, id);
    if k0.contains_key(id) {
        assert(exists|i: int| 0 <= i < all.len() && #[trigger] all[i].id == id);
    } else {
        if exists|i: int| 0 <= i < all.len() && #[trigger] all[i].id == id {
            let i = choose|i: int| 0 <= i < all.len() && #[trigger] all[i].id == id;
            assert(k0.contains_key(all[i].id));
        }
    }
}

/// Fire strikes with the whole army: against any tactic but Fire, the
/// defender loses exactly the troops sent (down to none), half of its rice
/// (rounded down) and 10 loyalty (within `0..=100`, for loyalty that fits
/// an `i32`).
pub proof fn lemma_fire_strikes_in_full(a: Kuni, d: Kuni, dt: Tactic, troops: u32)
    requires
        dt != Tactic::Fire,
    ensures
        ({
            let after = spec_calculate_turn(a, d, Tactic::Fire, dt, troops).defender_kuni;
            &&& after.resource.hei.0 == (if d.resource.hei.0 >= troops { d.resource.hei.0 - troops } else { 0 })
            &&& after.resource.kome.0 == d.resource.kome.0 - d.resource.kome.0 / 2
            &&& d.stats.tyu.0 <= 0x7fff_ffff ==> after.stats.tyu.0 == (if d.stats.tyu.0 < 10 {
                0
            } else if d.stats.tyu.0 - 10 > 100 {
                100
            } else {
                d.stats.tyu.0 - 10
            })
        }),
{
    assert(troops * 100 / 100 == troops) by (nonlinear_arith);
    assert(d.resource.kome.0 * 50 / 100 == d.resource.kome.0 / 2) by (nonlinear_arith);
}

/// Every pair of tactics hurts the defender: it loses at least 40% of the
/// troops sent (rounded down, down to none) and at most three times them,
/// on every round that can be played (`calculate_turn_ok`).
pub proof fn lemma_every_round_deals_damage(a: Kuni, d: Kuni, at: Tactic, dt: Tactic, troops: u32)
    requires
        calculate_turn_ok(a, d, at, dt, troops),
    ensures
        ({
            let after = spec_calculate_turn(a, d, at, dt, troops).defender_kuni.resource.hei.0;
            let least = troops * 40 / 100;
            let most = troops * 3;
            &&& after <= (if d.resource.hei.0 >= least { d.resource.hei.0 - least } else { 0 })
            &&& after >= (if d.resource.hei.0 >= most { d.resource.hei.0 - most } else { 0 })
        }),
{
    let p = tactic_effect(at, dt).damage_percent;
    assert(40 <= p <= 300);
    assert(troops * p / 100 >= troops * 40 / 100) by (nonlinear_arith)
        requires
            p >= 40,
    ;
    assert(troops * p / 100 <= troops * 3) by (nonlinear_arith)
        requires
            p <= 300,
    ;
    assert(troops * 3 <= u32::MAX);
}

/// The tactic menu of the battle screen, in the order it lists them.
pub open spec fn tactic_menu() -> Seq<Tactic> {
    seq![Tactic::Normal, Tactic::Surprise, Tactic::Fire, Tactic::Inspire]
}

/// The names the tactic menu shows, line by line.
pub open spec fn tactic_menu_names() -> Seq<Seq<char>> {
    seq!["通常"@, "奇襲"@, "火計"@, "鼓舞"@]
}

/// Choosing line `cursor` of the tactic menu on the player's turn attacks
/// with the tactic on that line, the one whose name the line shows; the
/// defender is taken to fight plainly and the client's army is sent.
pub proof fn lemma_tactic_menu_choice(attacker: KuniId, defender: KuniId, cursor: nat)
    requires
        cursor < 4,
    ensures
        spec_war(attacker, defender, cursor, WarView::SelectTactic, Key::Enter, true).1 == (Command::BattleRound {
            attacker,
            defender,
            attacker_tactic: tactic_menu()[cursor as int],
            defender_tactic: Tactic::Normal,
            troops: troops_per_round(),
        }),
        tactic_name(tactic_menu()[cursor as int]) == tactic_menu_names()[cursor as int],
{
}

/// A disaster strikes on exactly one of the forty disaster numbers, 0 (the
/// disaster number is a roll of `0..=39`): on any other number the
/// province is untouched; on 0 it loses `severity`% of its people and 20
/// loyalty in a plague season, 15 otherwise (for a population that fits an
/// `i32` and loyalty within `0..=100`).
pub proof fn lemma_disaster_only_on_zero(k: Kuni, turn: u32, d: SeasonDraws)
    requires
        draws_in_range(d, turn),
    ensures
        d.disaster != 0 ==> after_disaster(k, turn, d) == k,
        d.disaster == 0 && k.resource.jinko.0 <= 0x7fff_ffff && k.stats.tyu.0 <= 100 ==> ({
            let after = after_disaster(k, turn, d);
            let loss: u32 = if turn % 4 == 1 { 20 } else { 15 };
            &&& after.resource.jinko.0 == k.resource.jinko.0 - k.resource.jinko.0 * d.severity / 100
            &&& after.stats.tyu.0 == (if k.stats.tyu.0 >= loss { k.stats.tyu.0 - loss } else { 0 })
        }),
{
    assert(k.resource.jinko.0 * d.severity / 100 <= k.resource.jinko.0) by (nonlinear_arith)
        requires
            d.severity <= 19,
    ;
}

/// In a season without growth or harvest, a season may pass without any
/// change (every disaster number but 0) or bring a disaster (number 0):
/// both outcomes are open.
pub proof fn lemma_quiet_season_or_disaster(k: Kuni, turn: u32)
    requires
        turn % 4 == 1 || turn % 4 == 3,
    ensures
        is_season_outcome(k, turn, k),
        ({
            let d = SeasonDraws {
                disaster: 0,
                severity: 5,
                growth: 10,
                kin_tyu: 3,
                kin_jinko: 10,
                kin_machi: 25,
                kome_tyu: 3,
                kome_jinko: 10,
                kome_kokudaka: 25,
            };
            is_season_outcome(k, turn, after_disaster(k, turn, d))
        }),
{
    let quiet = SeasonDraws {
        disaster: 1,
        severity: 5,
        growth: 10,
        kin_tyu: 3,
        kin_jinko: 10,
        kin_machi: 25,
        kome_tyu: 3,
        kome_jinko: 10,
        kome_kokudaka: 25,
    };
    assert(spec_season(k, turn, quiet) == k);
    let struck = SeasonDraws { disaster: 0, ..quiet };
    assert(spec_season(k, turn, struck) == after_disaster(k, turn, struck));
}

/// Each of the four domestic actions of a computer-run province comes from
/// exactly one value of the choice roll (a roll of `0..=3`): 0 develops
/// land, 1 builds the town, 2 gives charity (where loyalty is at most 100)
/// and 3 rests, whenever the province does not invade.
pub proof fn lemma_plan_roll_picks_each_action(kuni: Kuni, ns: Seq<Kuni>, d: PlanDraws)
    requires
        draws_ok(d),
        d.invade_roll != 0 || first_candidate(kuni, ns) is None,
    ensures
        spec_plan(kuni, ns, d) matches CpuPlan::Domestic(CpuDecision::DevelopLand { amount, multiplier }) <==> d.roll == 0,
        spec_plan(kuni, ns, d) matches CpuPlan::Domestic(CpuDecision::BuildTown { amount, multiplier }) <==> d.roll == 1,
        kuni.stats.tyu.0 <= 100 ==> (spec_plan(kuni, ns, d) matches CpuPlan::Domestic(
            CpuDecision::GiveCharity { amount, multiplier },
        ) <==> d.roll == 2),
        kuni.stats.tyu.0 <= 100 ==> (spec_plan(kuni, ns, d) == CpuPlan::Domestic(CpuDecision::Rest) <==> d.roll == 3),
{
}

/// A computer-run province with a neighbour it may invade invades the first
/// such neighbour exactly when the invasion roll (of `0..=3`) is 0, with
/// half of its troops.
pub proof fn lemma_plan_invades_on_zero(kuni: Kuni, ns: Seq<Kuni>, d: PlanDraws)
    requires
        draws_ok(d),
        first_candidate(kuni, ns) is Some,
    ensures
        spec_plan(kuni, ns, d) is Invade <==> d.invade_roll == 0,
        d.invade_roll == 0 ==> spec_plan(kuni, ns, d) == (CpuPlan::Invade {
            target: first_candidate(kuni, ns).unwrap().id,
            troops: kuni.resource.hei.0 / 2,
        }),
{
}

/// The computer's tactic comes from a roll of `0..=3`, each value giving
/// the tactic on that line of the tactic menu, so that each of the four
/// tactics is drawn by exactly one value.
pub proof fn lemma_tactic_roll_follows_menu(v: u32)
    requires
        v <= 3,
    ensures
        tactic_of_roll(v) == tactic_menu()[v as int],
        forall|w: u32| w <= 3 && w != v ==> tactic_of_roll(w) != tactic_of_roll(v),
{
}

} // verus!
