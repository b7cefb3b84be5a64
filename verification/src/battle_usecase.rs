use vstd::prelude::*;
use crate::battle_service::{BattleResult, BattleService, BattleSide, Tactic, calculate_turn_ok, spec_calculate_turn};
use crate::error::{DomainError, is_insufficient, is_invalid_state, is_not_found};
use crate::game_rules::GamePhase;
use crate::game_state::{GameState, GameStateView, WarStatus};
use crate::kuni::Kuni;
use crate::neighbor_repository::NeighborRepository;
use crate::repository::KuniRepository;
use crate::random::{Roll, random_in_range};
use crate::value_objects::{Amount, KuniId, display_scale};

verus! {

/// One round of battle as the use case plays it: the round of the battle
/// rules, after which a beaten defender's province passes to the attacker's
/// warlord.
pub open spec fn spec_battle_round(
    attacker: Kuni,
    defender: Kuni,
    at: Tactic,
    dt: Tactic,
    troops: u32,
) -> BattleResult {
    let res = spec_calculate_turn(attacker, defender, at, dt, troops);
    if res.winner == Some(BattleSide::Attacker) {
        BattleResult { defender_kuni: Kuni { daimyo_id: attacker.daimyo_id, ..res.defender_kuni }, ..res }
    } else {
        res
    }
}

/// The message of a war refused against one's own province.
pub open spec fn own_target_message() -> Seq<char> {
    "自領には攻め込めません"@
}

/// The message of a battle round asked for when no battle is under way.
pub open spec fn no_war_message() -> Seq<char> {
    "合戦中ではありません"@
}

/// Plays one round of battle between two provinces stored in `kunis`, the attacker
/// sending `attacker_troops` troops, and saves both provinces (the
/// attacker first). Fails, changing nothing, when a province is missing
/// ("Attacker not found", "Defender not found") or the attacker has fewer
/// troops than it sends. A beaten defender's province passes to the
/// attacker's warlord.
pub fn play_round<R: KuniRepository>(
    kunis: &mut R,
    attacker_id: KuniId,
    defender_id: KuniId,
    attacker_tactic: Tactic,
    defender_tactic: Tactic,
    attacker_troops: u32,
) -> (r: Result<BattleResult, DomainError>)
    requires
        old(kunis).kunis().contains_key(attacker_id) && old(kunis).kunis().contains_key(defender_id)
            ==> calculate_turn_ok(
            old(kunis).kunis()[attacker_id],
            old(kunis).kunis()[defender_id],
            attacker_tactic,
            defender_tactic,
            attacker_troops,
        ),
    ensures
        r is Err ==> final(kunis).kunis() == old(kunis).kunis(),
        !old(kunis).kunis().contains_key(attacker_id) ==> (r matches Err(e) && is_not_found(e, "Attacker not found"@)),
        old(kunis).kunis().contains_key(attacker_id) && !old(kunis).kunis().contains_key(defender_id)
            ==> (r matches Err(e) && is_not_found(e, "Defender not found"@)),
        old(kunis).kunis().contains_key(attacker_id) && old(kunis).kunis().contains_key(defender_id) ==> ({
            let a = old(kunis).kunis()[attacker_id];
            let d = old(kunis).kunis()[defender_id];
            let res = spec_battle_round(a, d, attacker_tactic, defender_tactic, attacker_troops);
            &&& r is Ok <==> attacker_troops <= a.resource.hei.0
            &&& r matches Err(e) ==> is_insufficient(e, "Attacker does not have enough troops"@)
            &&& r matches Ok(out) ==> out == res && final(kunis).kunis()
                == old(kunis).kunis().insert(attacker_id, res.attacker_kuni).insert(
                defender_id,
                res.defender_kuni,
            )
        }),
{
    proof {
        kunis.lemma_stored_under_own_id();
    }
    let attacker = match kunis.find_by_id(&attacker_id) {
        Some(k) => k,
        None => {
            return Err(DomainError::NotFound(String::from_str("Attacker not found")));
        },
    };
    let defender = match kunis.find_by_id(&defender_id) {
        Some(k) => k,
        None => {
            return Err(DomainError::NotFound(String::from_str("Defender not found")));
        },
    };

    if attacker_troops > attacker.resource.hei.value() {
        return Err(
            DomainError::InsufficientResource(
                String::from_str("Attacker does not have enough troops"),
            ),
        );
    }

    let mut result = BattleService::calculate_turn(
        attacker,
        defender,
        attacker_tactic,
        defender_tactic,
        attacker_troops,
    )?;

    if result.winner == Some(BattleSide::Attacker) {
        result.defender_kuni.set_daimyo_id(attacker.daimyo_id);
    }
    proof {
        assert(result.attacker_kuni.id == attacker.id);
        assert(result.defender_kuni.id == defender.id);
    }
    kunis.save(&result.attacker_kuni);
    kunis.save(&result.defender_kuni);
    Ok(result)
}

/// A war fought out round after round, plain attack against plain
/// defence, with `troops` sent into each round: it ends when a side wins,
/// when the next round could not be played without overflow or the
/// attacker lacks the troops, or after `rounds` rounds. The attacking and
/// the defending province afterwards.
pub open spec fn spec_fight_out(a: Kuni, d: Kuni, troops: u32, rounds: nat) -> (Kuni, Kuni)
    decreases rounds,
{
    if rounds == 0 || !calculate_turn_ok(a, d, Tactic::Normal, Tactic::Normal, troops) || troops > a.resource.hei.0 {
        (a, d)
    } else {
        let res = spec_battle_round(a, d, Tactic::Normal, Tactic::Normal, troops);
        if res.winner is Some {
            (res.attacker_kuni, res.defender_kuni)
        } else {
            spec_fight_out(res.attacker_kuni, res.defender_kuni, troops, (rounds - 1) as nat)
        }
    }
}

/// The number of rounds after which a war between `a` and `d` is given up:
/// one more than the defender's troops, which each round of an army of at
/// least one soldier reduces.
pub open spec fn round_limit(d: Kuni) -> nat {
    (d.resource.hei.0 + 1) as nat
}

/// Fights out the war of province `attacker_id` against `defender_id`,
/// both stored in `kunis`, and saves both; see `spec_fight_out`.
pub fn fight_out<R: KuniRepository>(kunis: &mut R, attacker_id: KuniId, defender_id: KuniId, troops: u32)
    requires
        old(kunis).kunis().contains_key(attacker_id),
        old(kunis).kunis().contains_key(defender_id),
        attacker_id != defender_id,
    ensures
        ({
            let f = spec_fight_out(
                old(kunis).kunis()[attacker_id],
                old(kunis).kunis()[defender_id],
                troops,
                round_limit(old(kunis).kunis()[defender_id]),
            );
            final(kunis).kunis() == old(kunis).kunis().insert(attacker_id, f.0).insert(defender_id, f.1)
        }),
{
    let ghost k0 = kunis.kunis();
    let ghost goal = spec_fight_out(k0[attacker_id], k0[defender_id], troops, round_limit(k0[defender_id]));
    proof {
        assert(k0.insert(attacker_id, k0[attacker_id]).insert(defender_id, k0[defender_id]) =~= k0);
    }
    let mut rounds: u64 = match kunis.find_by_id(&defender_id) {
        Some(d) => d.resource.hei.value() as u64 + 1,
        None => 0,
    };
    loop
        invariant
            kunis.kunis().contains_key(attacker_id),
            kunis.kunis().contains_key(defender_id),
            kunis.kunis() == k0.insert(attacker_id, kunis.kunis()[attacker_id]).insert(defender_id, kunis.kunis()[defender_id]),
            goal == spec_fight_out(kunis.kunis()[attacker_id], kunis.kunis()[defender_id], troops, rounds as nat),
            attacker_id != defender_id,
            k0 == old(kunis).kunis(),
            goal == spec_fight_out(k0[attacker_id], k0[defender_id], troops, round_limit(k0[defender_id])),
        decreases rounds,
    {
        if rounds == 0 {
            assert(goal == (kunis.kunis()[attacker_id], kunis.kunis()[defender_id]));
            return;
        }
        let a = match kunis.find_by_id(&attacker_id) {
            Some(k) => k,
            None => {
                return;
            },
        };
        let d = match kunis.find_by_id(&defender_id) {
            Some(k) => k,
            None => {
                return;
            },
        };
        if !BattleService::round_fits(&a, &d, Tactic::Normal, Tactic::Normal, troops) || troops > a.resource.hei.value() {
            assert(goal == (a, d));
            return;
        }
        let ghost before = kunis.kunis();
        let result = play_round(kunis, attacker_id, defender_id, Tactic::Normal, Tactic::Normal, troops);
        proof {
            assert(kunis.kunis()[attacker_id] == spec_battle_round(a, d, Tactic::Normal, Tactic::Normal, troops).attacker_kuni);
            assert(kunis.kunis() =~= k0.insert(attacker_id, kunis.kunis()[attacker_id]).insert(
                defender_id,
                kunis.kunis()[defender_id],
            ));
        }
        match result {
            Ok(res) => {
                if res.winner.is_some() {
                    assert(goal == (res.attacker_kuni, res.defender_kuni));
                    return;
                }
            },
            Err(_) => {
                return;
            },
        }
        rounds = rounds - 1;
    }
}

/// A round can be played in the war under way of `s` with these tactics
/// without overflow (trivially so when no war, or one of its provinces,
/// is there).
pub open spec fn round_playable(s: GameStateView, ks: Map<KuniId, Kuni>, at: Tactic, dt: Tactic) -> bool {
    s.war matches Some(w) ==> (ks.contains_key(w.attacker) && ks.contains_key(w.defender) ==> calculate_turn_ok(
        ks[w.attacker],
        ks[w.defender],
        at,
        dt,
        w.troops,
    ))
}

/// What one round of the war under way makes of the state `s0` and the
/// stored provinces `k0`: without a war (in the battle phase) it fails with
/// "合戦中ではありません"; it fails when a province is missing or the
/// attacker has fewer troops than its army; otherwise the round is played
/// (`spec_battle_round`) and, once a side wins, the war is over and the game
/// returns to the domestic phase. A failure changes nothing.
pub open spec fn war_round(
    s0: GameStateView,
    k0: Map<KuniId, Kuni>,
    at: Tactic,
    dt: Tactic,
    r: Result<BattleResult, DomainError>,
    s1: GameStateView,
    k1: Map<KuniId, Kuni>,
) -> bool {
    &&& r is Err ==> k1 == k0 && s1 == s0
    &&& (s0.phase != GamePhase::Battle || s0.war is None) ==> (r matches Err(e) && is_invalid_state(e, no_war_message()))
    &&& s0.phase == GamePhase::Battle && s0.war is Some ==> ({
        let w = s0.war.unwrap();
        &&& !k0.contains_key(w.attacker) ==> (r matches Err(e) && is_not_found(e, "Attacker not found"@))
        &&& k0.contains_key(w.attacker) && !k0.contains_key(w.defender) ==> (r matches Err(e) && is_not_found(
            e,
            "Defender not found"@,
        ))
        &&& k0.contains_key(w.attacker) && k0.contains_key(w.defender) ==> ({
            let res = spec_battle_round(k0[w.attacker], k0[w.defender], at, dt, w.troops);
            &&& r is Ok <==> w.troops <= k0[w.attacker].resource.hei.0
            &&& r matches Err(e) ==> is_insufficient(e, "Attacker does not have enough troops"@)
            &&& r matches Ok(out) ==> out == res && k1 == k0.insert(w.attacker, res.attacker_kuni).insert(
                w.defender,
                res.defender_kuni,
            ) && s1 == (if res.winner is Some {
                GameStateView { phase: GamePhase::Domestic, war: None, ..s0 }
            } else {
                s0
            })
        })
    })
}

/// A war under way as the player follows it.
#[derive(Debug, Clone, Copy, PartialEq, Eq, Structural)]
pub struct BattleStatus {
    pub attacker: KuniId,
    pub defender: KuniId,
    /// The attacking army's troops, in the units shown to the player.
    pub attacker_hei: u32,
    /// The defender's troops, in the units shown to the player.
    pub defender_hei: u32,
    pub attacker_morale: u32,
    pub defender_morale: u32,
}

/// The status of the war under way of `s`, if it and both its provinces
/// are there.
pub open spec fn spec_battle_status(s: GameStateView, ks: Map<KuniId, Kuni>) -> Option<BattleStatus> {
    match s.war {
        Some(w) => if ks.contains_key(w.attacker) && ks.contains_key(w.defender) {
            Some(
                BattleStatus {
                    attacker: w.attacker,
                    defender: w.defender,
                    attacker_hei: w.troops / display_scale(),
                    defender_hei: ks[w.defender].resource.hei.0 / display_scale(),
                    attacker_morale: ks[w.attacker].stats.tyu.0,
                    defender_morale: ks[w.defender].stats.tyu.0,
                },
            )
        } else {
            None
        },
        None => None,
    }
}

/// The tactic that roll `v` of `0..=3` picks: the menu order Normal,
/// Surprise, Fire, Inspire.
pub open spec fn tactic_of_roll(v: u32) -> Tactic {
    if v == 0 {
        Tactic::Normal
    } else if v == 1 {
        Tactic::Surprise
    } else if v == 2 {
        Tactic::Fire
    } else {
        Tactic::Inspire
    }
}

/// A tactic drawn at random, each of the four equally likely: the tactic
/// that a roll of `0..=3` picks, with that roll.
fn draw_tactic() -> (r: (Tactic, Roll))
    ensures
        r.1.low() == 0 && r.1.high() == 3 && r.0 == tactic_of_roll(r.1.value()),
{
    let dice = random_in_range(0, 3);
    let roll = dice.get();
    let t = if roll == 0 {
        Tactic::Normal
    } else if roll == 1 {
        Tactic::Surprise
    } else if roll == 2 {
        Tactic::Fire
    } else {
        Tactic::Inspire
    };
    (t, dice)
}

/// Battles between provinces that a repository stores.
pub struct BattleUseCase<R: KuniRepository, N: NeighborRepository> {
    kuni_repo: R,
    neighbor_repo: N,
}

impl<R: KuniRepository, N: NeighborRepository> BattleUseCase<R, N> {
    pub fn new(kuni_repo: R, neighbor_repo: N) -> (r: Self)
        ensures
            r.repository().kunis() == kuni_repo.kunis(),
            r.adjacency() == neighbor_repo,
    {
        BattleUseCase { kuni_repo, neighbor_repo }
    }

    /// The adjacency of provinces that wars follow.
    pub closed spec fn adjacency(&self) -> N {
        self.neighbor_repo
    }

    /// The repository that the battles work on.
    pub closed spec fn repository(&self) -> R {
        self.kuni_repo
    }

    /// Gives the repository back.
    pub fn into_repo(self) -> (r: R)
        ensures
            r == self.repository(),
    {
        self.kuni_repo
    }

    /// The repository that the battles work on.
    pub fn repo(&self) -> (r: &R)
        ensures
            *r == self.repository(),
    {
        &self.kuni_repo
    }

    /// Plays one round of battle between two stored provinces, the attacker
    /// sending `attacker_troops` troops, and saves both provinces (the
    /// attacker first). Fails, changing nothing, when a province is missing
    /// ("Attacker not found", "Defender not found") or the attacker has fewer
    /// troops than it sends. A beaten defender's province passes to the
    /// attacker's warlord.
    pub fn execute_battle_turn(
        &mut self,
        attacker_id: KuniId,
        defender_id: KuniId,
        attacker_tactic: Tactic,
        defender_tactic: Tactic,
        attacker_troops: u32,
    ) -> (r: Result<BattleResult, DomainError>)
        requires
            old(self).repository().kunis().contains_key(attacker_id) && old(self).repository().kunis().contains_key(defender_id)
                ==> calculate_turn_ok(
                old(self).repository().kunis()[attacker_id],
                old(self).repository().kunis()[defender_id],
                attacker_tactic,
                defender_tactic,
                attacker_troops,
            ),
        ensures
            final(self).adjacency() == old(self).adjacency(),
            r is Err ==> final(self).repository().kunis() == old(self).repository().kunis(),
            !old(self).repository().kunis().contains_key(attacker_id) ==> (r matches Err(e) && is_not_found(e, "Attacker not found"@)),
            old(self).repository().kunis().contains_key(attacker_id) && !old(self).repository().kunis().contains_key(defender_id)
                ==> (r matches Err(e) && is_not_found(e, "Defender not found"@)),
            old(self).repository().kunis().contains_key(attacker_id) && old(self).repository().kunis().contains_key(defender_id) ==> ({
                let a = old(self).repository().kunis()[attacker_id];
                let d = old(self).repository().kunis()[defender_id];
                let res = spec_battle_round(a, d, attacker_tactic, defender_tactic, attacker_troops);
                &&& r is Ok <==> attacker_troops <= a.resource.hei.0
                &&& r matches Err(e) ==> is_insufficient(e, "Attacker does not have enough troops"@)
                &&& r matches Ok(out) ==> out == res && final(self).repository().kunis()
                    == old(self).repository().kunis().insert(attacker_id, res.attacker_kuni).insert(
                    defender_id,
                    res.defender_kuni,
                )
            }),
    {
        play_round(&mut self.kuni_repo, attacker_id, defender_id, attacker_tactic, defender_tactic, attacker_troops)
    }

    /// Province `attacker_id`, whose turn it is, goes to war against the
    /// adjacent province `defender_id` of another warlord with an army of
    /// `troops` troops, sent into every round: the game enters the battle
    /// phase with that war under way, and the attacker's action is taken.
    /// Fails, changing nothing, when it is not the attacker's turn, when a
    /// province is missing, when they are not adjacent (`NotAdjacent`), when
    /// the attacker's warlord also rules the defender, or when the attacker
    /// has fewer troops than the army.
    pub fn start_war(
        &mut self,
        state: &mut GameState,
        attacker_id: KuniId,
        defender_id: KuniId,
        troops: u32,
    ) -> (r: Result<(), DomainError>)
        ensures
            final(self).repository().kunis() == old(self).repository().kunis(),
            final(self).adjacency() == old(self).adjacency(),
            r is Err ==> final(state)@ == old(state)@,
            ({
                let ks = old(self).repository().kunis();
                if !old(state)@.allows(attacker_id) {
                    r matches Err(e) && old(state)@.refuses_with(attacker_id, e)
                } else if !ks.contains_key(attacker_id) {
                    r matches Err(e) && is_not_found(e, "Attacker not found"@)
                } else if !ks.contains_key(defender_id) {
                    r matches Err(e) && is_not_found(e, "Defender not found"@)
                } else if !old(self).adjacency().neighbors(attacker_id).contains(defender_id) {
                    r matches Err(e) && e is NotAdjacent
                } else if ks[attacker_id].daimyo_id == ks[defender_id].daimyo_id {
                    r matches Err(e) && is_invalid_state(e, own_target_message())
                } else if troops > ks[attacker_id].resource.hei.0 {
                    r matches Err(e) && is_insufficient(e, "Attacker does not have enough troops"@)
                } else {
                    r is Ok && final(state)@ == (GameStateView {
                        phase: GamePhase::Battle,
                        war: Some(WarStatus { attacker: attacker_id, defender: defender_id, troops }),
                        action_performed: true,
                        ..old(state)@
                    })
                }
            }),
    {
        state.check_turn(attacker_id)?;
        let attacker = match self.kuni_repo.find_by_id(&attacker_id) {
            Some(k) => k,
            None => {
                return Err(DomainError::NotFound(String::from_str("Attacker not found")));
            },
        };
        let defender = match self.kuni_repo.find_by_id(&defender_id) {
            Some(k) => k,
            None => {
                return Err(DomainError::NotFound(String::from_str("Defender not found")));
            },
        };
        if !self.neighbor_repo.are_adjacent(&attacker_id, &defender_id) {
            return Err(DomainError::NotAdjacent);
        }
        if attacker.daimyo_id == defender.daimyo_id {
            return Err(DomainError::InvalidState(String::from_str("自領には攻め込めません")));
        }
        if troops > attacker.resource.hei.value() {
            return Err(DomainError::InsufficientResource(String::from_str("Attacker does not have enough troops")));
        }
        state.set_phase(GamePhase::Battle);
        state.war = Some(WarStatus { attacker: attacker_id, defender: defender_id, troops });
        state.mark_action_performed();
        Ok(())
    }

    /// Plays one round of the war under way, with the tactics of both sides;
    /// the attacker sends the war's army. See `war_round`.
    pub fn execute_war_round(
        &mut self,
        state: &mut GameState,
        attacker_tactic: Tactic,
        defender_tactic: Tactic,
    ) -> (r: Result<BattleResult, DomainError>)
        requires
            round_playable(old(state)@, old(self).repository().kunis(), attacker_tactic, defender_tactic),
        ensures
            final(self).adjacency() == old(self).adjacency(),
            war_round(
                old(state)@,
                old(self).repository().kunis(),
                attacker_tactic,
                defender_tactic,
                r,
                final(state)@,
                final(self).repository().kunis(),
            ),
    {
        if state.phase != GamePhase::Battle {
            return Err(DomainError::InvalidState(String::from_str("合戦中ではありません")));
        }
        let w = match state.war {
            Some(w) => w,
            None => {
                return Err(DomainError::InvalidState(String::from_str("合戦中ではありません")));
            },
        };
        let result = self.execute_battle_turn(w.attacker, w.defender, attacker_tactic, defender_tactic, w.troops)?;
        if result.winner.is_some() {
            state.set_phase(GamePhase::Domestic);
            state.war = None;
        }
        Ok(result)
    }

    /// The player attacks with `attacker_tactic`; the computer-run defender's
    /// tactic is drawn at random, each of the four equally likely, and is
    /// returned beside the round's result (see `war_round`).
    pub fn execute_attack_round(&mut self, state: &mut GameState, attacker_tactic: Tactic) -> (r: (
        Tactic,
        Result<BattleResult, DomainError>,
    ))
        requires
            forall|t: Tactic| round_playable(old(state)@, old(self).repository().kunis(), attacker_tactic, t),
        ensures
            final(self).adjacency() == old(self).adjacency(),
            war_round(
                old(state)@,
                old(self).repository().kunis(),
                attacker_tactic,
                r.0,
                r.1,
                final(state)@,
                final(self).repository().kunis(),
            ),
    {
        let (t, _roll) = draw_tactic();
        let r = self.execute_war_round(state, attacker_tactic, t);
        (t, r)
    }

    /// The player defends with `defender_tactic`; the computer-run
    /// attacker's tactic is drawn at random, each of the four equally
    /// likely, and is returned beside the round's result (see `war_round`).
    pub fn execute_defense_round(&mut self, state: &mut GameState, defender_tactic: Tactic) -> (r: (
        Tactic,
        Result<BattleResult, DomainError>,
    ))
        requires
            forall|t: Tactic| round_playable(old(state)@, old(self).repository().kunis(), t, defender_tactic),
        ensures
            final(self).adjacency() == old(self).adjacency(),
            war_round(
                old(state)@,
                old(self).repository().kunis(),
                r.0,
                defender_tactic,
                r.1,
                final(state)@,
                final(self).repository().kunis(),
            ),
    {
        let (t, _roll) = draw_tactic();
        let r = self.execute_war_round(state, t, defender_tactic);
        (t, r)
    }

    /// The attacker withdraws from the war under way: the war is over, the
    /// defender holds, and the game returns to the domestic phase. Fails,
    /// changing nothing, when no war is under way ("合戦中ではありません").
    pub fn retreat(&mut self, state: &mut GameState) -> (r: Result<(), DomainError>)
        ensures
            final(self).repository().kunis() == old(self).repository().kunis(),
            final(self).adjacency() == old(self).adjacency(),
            (old(state).phase != GamePhase::Battle || old(state).war is None) ==> (r matches Err(e) && is_invalid_state(e, no_war_message())
                && final(state)@ == old(state)@),
            (old(state).phase == GamePhase::Battle && old(state).war is Some) ==> (r is Ok && final(state)@ == (GameStateView {
                phase: GamePhase::Domestic,
                war: None,
                ..old(state)@
            })),
    {
        if state.phase != GamePhase::Battle || state.war.is_none() {
            return Err(DomainError::InvalidState(String::from_str("合戦中ではありません")));
        }
        state.set_phase(GamePhase::Domestic);
        state.war = None;
        Ok(())
    }

    /// The war under way as the player follows it: the provinces, the
    /// troops of the attacking army and of the defender (in the units shown
    /// to the player) and the morale (loyalty) of both sides; `None` when no
    /// war is under way or one of its provinces is not stored.
    pub fn battle_status(&self, state: &GameState) -> (r: Option<BattleStatus>)
        ensures
            r == spec_battle_status(state@, self.repository().kunis()),
    {
        match state.war {
            Some(w) => match (self.kuni_repo.find_by_id(&w.attacker), self.kuni_repo.find_by_id(&w.defender)) {
                (Some(a), Some(d)) => Some(
                    BattleStatus {
                        attacker: w.attacker,
                        defender: w.defender,
                        attacker_hei: Amount::new(w.troops).to_display(),
                        defender_hei: d.resource.hei.to_display(),
                        attacker_morale: a.stats.tyu.value(),
                        defender_morale: d.stats.tyu.value(),
                    },
                ),
                _ => None,
            },
            None => None,
        }
    }
}

} // verus!
