use vstd::prelude::*;
use crate::battle_service::Tactic;
use crate::value_objects::DaimyoId;

verus! {

/// The kinds of seasonal event.
#[derive(Debug, Clone, Copy, PartialEq, Eq, Structural)]
pub enum SeasonalEventType {
    GoldIncome,
    RiceIncome,
    PopulationGrowth,
    Plague,
    Flood,
    Rebellion,
}

/// What happened in domestic affairs, as recorded in the action log.
#[derive(Debug, Clone)]
pub enum DomesticLogEvent {
    RiceSold { kuni_name: String, gain: u32 },
    RiceBought { kuni_name: String, cost: u32, amount: u32 },
    LandReclaimed { kuni_name: String, gain: u32 },
    TownDeveloped { kuni_name: String, gain: u32 },
    TroopsDrafted { kuni_name: String, amount: u32 },
    TroopsDismissed { kuni_name: String, amount: u32 },
    CharityPerformed { kuni_name: String, gain_tyu: u32 },
    ResourcesTransported { from_kuni: String, to_kuni: String, kin: u32, hei: u32, kome: u32 },
    DelegationChanged { kuni_name: String, enabled: bool },
    CpuAction { daimyo_id: DaimyoId, action_msg: String },
    TurnStart { turn: u32, season: u32 },
    SeasonalEvent { event_type: SeasonalEventType, kuni_names: Vec<String> },
    WarStarted { attacker_name: String, defender_name: String },
    WarAttackerOccupied { home_name: String, occupied_name: String },
    WarDefenderDefended { defender_name: String },
}

/// What happened in a war, as recorded in the action log.
#[derive(Debug, Clone)]
pub enum WarLogEvent {
    CpuDefenderTactic { tactic: Tactic },
    Damage { attacker_tactic: Tactic, defender_tactic: Tactic, attacker_damage: u32, defender_damage: u32 },
    AttackerVictory { home_name: String },
    DefenderVictory,
    WarStarted { attacker_name: String, defender_name: String },
}

/// An entry of the action log.
#[derive(Debug, Clone)]
pub enum ActionLogEvent {
    Domestic(DomesticLogEvent),
    War(WarLogEvent),
}

/// The decimal digit `d` (`0..=9`) as text.
pub open spec fn digit_text(d: nat) -> Seq<char> {
    if d == 0 {
        "0"@
    } else if d == 1 {
        "1"@
    } else if d == 2 {
        "2"@
    } else if d == 3 {
        "3"@
    } else if d == 4 {
        "4"@
    } else if d == 5 {
        "5"@
    } else if d == 6 {
        "6"@
    } else if d == 7 {
        "7"@
    } else if d == 8 {
        "8"@
    } else {
        "9"@
    }
}

/// `n` written in decimal, without leading zeros.
pub open spec fn decimal(n: nat) -> Seq<char>
    decreases n,
{
    if n < 10 {
        digit_text(n)
    } else {
        decimal(n / 10) + digit_text(n % 10)
    }
}

/// `names` joined with `sep` between each two.
pub open spec fn joined(names: Seq<Seq<char>>, sep: Seq<char>) -> Seq<char>
    decreases names.len(),
{
    if names.len() == 0 {
        Seq::empty()
    } else if names.len() == 1 {
        names[0]
    } else {
        joined(names.drop_last(), sep) + sep + names.last()
    }
}

/// The name of a tactic as the player sees it.
pub open spec fn tactic_name(t: Tactic) -> Seq<char> {
    match t {
        Tactic::Normal => "通常"@,
        Tactic::Surprise => "奇襲"@,
        Tactic::Fire => "火計"@,
        Tactic::Inspire => "鼓舞"@,
    }
}

/// The identifier of a tactic as a debugging aid shows it.
pub open spec fn tactic_debug(t: Tactic) -> Seq<char> {
    match t {
        Tactic::Normal => "Normal"@,
        Tactic::Surprise => "Surprise"@,
        Tactic::Fire => "Fire"@,
        Tactic::Inspire => "Inspire"@,
    }
}

/// The name of a season: 0 spring, 1 summer, 2 autumn, anything else winter.
pub open spec fn season_name(season: u32) -> Seq<char> {
    if season == 0 {
        "春"@
    } else if season == 1 {
        "夏"@
    } else if season == 2 {
        "秋"@
    } else {
        "冬"@
    }
}

/// The line of the action log that shows a seasonal event.
pub open spec fn seasonal_text(t: SeasonalEventType, names: Seq<Seq<char>>) -> Seq<char> {
    match t {
        SeasonalEventType::GoldIncome => "春の収穫：各地で金が徴収されました"@,
        SeasonalEventType::RiceIncome => "秋の収穫：各地で米が増産されました"@,
        SeasonalEventType::PopulationGrowth => "春の恵み：各地の人口が増加しました"@,
        SeasonalEventType::Plague => "【疫病】疫病が発生しました："@ + joined(names, "、"@),
        SeasonalEventType::Flood => "【洪水】洪水に見舞われました："@ + joined(names, "、"@),
        SeasonalEventType::Rebellion => "【反乱】反乱が発生しました："@ + joined(names, "、"@),
    }
}

/// The line of the action log that shows event `e`.
pub open spec fn spec_render_event(e: ActionLogEvent) -> Seq<char> {
    match e {
        ActionLogEvent::Domestic(d) => match d {
            DomesticLogEvent::RiceSold { kuni_name, gain } => kuni_name@ + "：米を売却し、金"@ + decimal(gain as nat)
                + "を得ました"@,
            DomesticLogEvent::RiceBought { kuni_name, cost, amount } => kuni_name@ + "：米を"@ + decimal(
                amount as nat,
            ) + "購入しました（金"@ + decimal(cost as nat) + "を消費）"@,
            DomesticLogEvent::LandReclaimed { kuni_name, gain } => kuni_name@ + "：開墾し、石高が"@ + decimal(
                gain as nat,
            ) + "上昇しました"@,
            DomesticLogEvent::TownDeveloped { kuni_name, gain } => kuni_name@ + "：町を整備し、町が"@ + decimal(
                gain as nat,
            ) + "上昇しました"@,
            DomesticLogEvent::TroopsDrafted { kuni_name, amount } => kuni_name@ + "：兵を"@ + decimal(amount as nat)
                + "徴募しました"@,
            DomesticLogEvent::TroopsDismissed { kuni_name, amount } => kuni_name@ + "：兵を"@ + decimal(
                amount as nat,
            ) + "解雇しました"@,
            DomesticLogEvent::CharityPerformed { kuni_name, gain_tyu } => kuni_name@ + "：施しを行い、忠誠度が"@
                + decimal(gain_tyu as nat) + "上昇しました"@,
            DomesticLogEvent::ResourcesTransported { from_kuni, to_kuni, kin, hei, kome } => from_kuni@ + "→"@
                + to_kuni@ + "：資源を輸送しました（金:"@ + decimal(kin as nat) + " 兵:"@ + decimal(hei as nat)
                + " 米:"@ + decimal(kome as nat) + "）"@,
            DomesticLogEvent::DelegationChanged { kuni_name, enabled } => kuni_name@ + "：委任を"@ + (if enabled {
                "ON"@
            } else {
                "OFF"@
            }) + "にしました"@,
            DomesticLogEvent::CpuAction { daimyo_id, action_msg } => "CPU (Daimyo=DaimyoId("@ + decimal(
                daimyo_id.0 as nat,
            ) + ")): "@ + action_msg@,
            DomesticLogEvent::TurnStart { turn, season } => "第"@ + decimal(turn as nat) + "ターン（"@
                + season_name(season) + "）が始まりました"@,
            DomesticLogEvent::SeasonalEvent { event_type, kuni_names } => seasonal_text(
                event_type,
                kuni_names@.map_values(|n: String| n@),
            ),
            DomesticLogEvent::WarStarted { attacker_name, defender_name } => "【合戦】"@ + attacker_name@ + " が "@
                + defender_name@ + " へ侵攻しました"@,
            DomesticLogEvent::WarAttackerOccupied { home_name, occupied_name } => "【合戦】"@ + home_name@ + " が "@
                + occupied_name@ + " を占領しました"@,
            DomesticLogEvent::WarDefenderDefended { defender_name } => "【合戦】"@ + defender_name@
                + " が侵攻を退けました"@,
        },
        ActionLogEvent::War(w) => match w {
            WarLogEvent::CpuDefenderTactic { tactic } => "CPU Defender Tactic: "@ + tactic_debug(tactic),
            WarLogEvent::Damage { attacker_tactic, defender_tactic, attacker_damage, defender_damage } => "自軍("@
                + tactic_name(attacker_tactic) + ")の被害: "@ + decimal(attacker_damage as nat) + "、敵軍("@
                + tactic_name(defender_tactic) + ")の被害: "@ + decimal(defender_damage as nat),
            WarLogEvent::AttackerVictory { home_name } => "合戦終了：攻撃軍（"@ + home_name@
                + "から出陣）の勝利！領地を占領しました"@,
            WarLogEvent::DefenderVictory => "合戦終了：防衛軍の勝利"@,
            WarLogEvent::WarStarted { attacker_name, defender_name } => attacker_name@ + " が "@ + defender_name@
                + " へ侵攻を開始しました"@,
        },
    }
}

/// The decimal digit `d` as text.
fn digit_str(d: u32) -> (r: &'static str)
    requires
        d < 10,
    ensures
        r@ == digit_text(d as nat),
{
    if d == 0 {
        "0"
    } else if d == 1 {
        "1"
    } else if d == 2 {
        "2"
    } else if d == 3 {
        "3"
    } else if d == 4 {
        "4"
    } else if d == 5 {
        "5"
    } else if d == 6 {
        "6"
    } else if d == 7 {
        "7"
    } else if d == 8 {
        "8"
    } else {
        "9"
    }
}

/// `n` written in decimal.
pub fn decimal_string(n: u32) -> (r: String)
    ensures
        r@ == decimal(n as nat),
    decreases n,
{
    if n < 10 {
        String::from_str(digit_str(n))
    } else {
        decimal_string(n / 10).concat(digit_str(n % 10))
    }
}

/// `names` joined with `sep` between each two.
fn join_names(names: &Vec<String>, sep: &str) -> (r: String)
    ensures
        r@ == joined(names@.map_values(|n: String| n@), sep@),
{
    let ghost all = names@.map_values(|n: String| n@);
    let mut out = String::new();
    let mut i: usize = 0;
    while i < names.len()
        invariant
            0 <= i <= names.len(),
            all == names@.map_values(|n: String| n@),
            out@ == joined(all.subrange(0, i as int), sep@),
        decreases names.len() - i,
    {
        let ghost pre = all.subrange(0, i as int);
        let ghost post = all.subrange(0, i + 1);
        assert(post.drop_last() == pre);
        if i == 0 {
            out = names[i].clone();
        } else {
            out = out.concat(sep).concat(names[i].as_str());
        }
        i = i + 1;
    }
    assert(all.subrange(0, names.len() as int) == all);
    out
}

/// The name of a tactic as the player sees it.
pub fn tactic_name_str(t: Tactic) -> (r: &'static str)
    ensures
        r@ == tactic_name(t),
{
    match t {
        Tactic::Normal => "通常",
        Tactic::Surprise => "奇襲",
        Tactic::Fire => "火計",
        Tactic::Inspire => "鼓舞",
    }
}

fn tactic_debug_str(t: Tactic) -> (r: &'static str)
    ensures
        r@ == tactic_debug(t),
{
    match t {
        Tactic::Normal => "Normal",
        Tactic::Surprise => "Surprise",
        Tactic::Fire => "Fire",
        Tactic::Inspire => "Inspire",
    }
}

fn season_str(season: u32) -> (r: &'static str)
    ensures
        r@ == season_name(season),
{
    if season == 0 {
        "春"
    } else if season == 1 {
        "夏"
    } else if season == 2 {
        "秋"
    } else {
        "冬"
    }
}

fn seasonal_string(t: SeasonalEventType, names: &Vec<String>) -> (r: String)
    ensures
        r@ == seasonal_text(t, names@.map_values(|n: String| n@)),
{
    match t {
        SeasonalEventType::GoldIncome => String::from_str("春の収穫：各地で金が徴収されました"),
        SeasonalEventType::RiceIncome => String::from_str("秋の収穫：各地で米が増産されました"),
        SeasonalEventType::PopulationGrowth => String::from_str("春の恵み：各地の人口が増加しました"),
        SeasonalEventType::Plague => String::from_str("【疫病】疫病が発生しました：").concat(join_names(names, "、").as_str()),
        SeasonalEventType::Flood => String::from_str("【洪水】洪水に見舞われました：").concat(join_names(names, "、").as_str()),
        SeasonalEventType::Rebellion => String::from_str("【反乱】反乱が発生しました：").concat(join_names(names, "、").as_str()),
    }
}

/// The line of the action log that shows event `e`.
pub fn render_event(e: &ActionLogEvent) -> (r: String)
    ensures
        r@ == spec_render_event(*e),
{
    match e {
        ActionLogEvent::Domestic(d) => match d {
            DomesticLogEvent::RiceSold { kuni_name, gain } => kuni_name.clone().concat("：米を売却し、金").concat(
                decimal_string(*gain).as_str(),
            ).concat("を得ました"),
            DomesticLogEvent::RiceBought { kuni_name, cost, amount } => kuni_name.clone().concat("：米を").concat(
                decimal_string(*amount).as_str(),
            ).concat("購入しました（金").concat(decimal_string(*cost).as_str()).concat("を消費）"),
            DomesticLogEvent::LandReclaimed { kuni_name, gain } => kuni_name.clone().concat("：開墾し、石高が").concat(
                decimal_string(*gain).as_str(),
            ).concat("上昇しました"),
            DomesticLogEvent::TownDeveloped { kuni_name, gain } => kuni_name.clone().concat("：町を整備し、町が").concat(
                decimal_string(*gain).as_str(),
            ).concat("上昇しました"),
            DomesticLogEvent::TroopsDrafted { kuni_name, amount } => kuni_name.clone().concat("：兵を").concat(
                decimal_string(*amount).as_str(),
            ).concat("徴募しました"),
            DomesticLogEvent::TroopsDismissed { kuni_name, amount } => kuni_name.clone().concat("：兵を").concat(
                decimal_string(*amount).as_str(),
            ).concat("解雇しました"),
            DomesticLogEvent::CharityPerformed { kuni_name, gain_tyu } => kuni_name.clone().concat(
                "：施しを行い、忠誠度が",
            ).concat(decimal_string(*gain_tyu).as_str()).concat("上昇しました"),
            DomesticLogEvent::ResourcesTransported { from_kuni, to_kuni, kin, hei, kome } => from_kuni.clone().concat(
                "→",
            ).concat(to_kuni.as_str()).concat("：資源を輸送しました（金:").concat(decimal_string(*kin).as_str()).concat(
                " 兵:",
            ).concat(decimal_string(*hei).as_str()).concat(" 米:").concat(decimal_string(*kome).as_str()).concat("）"),
            DomesticLogEvent::DelegationChanged { kuni_name, enabled } => kuni_name.clone().concat("：委任を").concat(
                if *enabled {
                    "ON"
                } else {
                    "OFF"
                },
            ).concat("にしました"),
            DomesticLogEvent::CpuAction { daimyo_id, action_msg } => String::from_str("CPU (Daimyo=DaimyoId(").concat(
                decimal_string(daimyo_id.0).as_str(),
            ).concat(")): ").concat(action_msg.as_str()),
            DomesticLogEvent::TurnStart { turn, season } => String::from_str("第").concat(
                decimal_string(*turn).as_str(),
            ).concat("ターン（").concat(season_str(*season)).concat("）が始まりました"),
            DomesticLogEvent::SeasonalEvent { event_type, kuni_names } => seasonal_string(*event_type, kuni_names),
            DomesticLogEvent::WarStarted { attacker_name, defender_name } => String::from_str("【合戦】").concat(
                attacker_name.as_str(),
            ).concat(" が ").concat(defender_name.as_str()).concat(" へ侵攻しました"),
            DomesticLogEvent::WarAttackerOccupied { home_name, occupied_name } => String::from_str("【合戦】").concat(
                home_name.as_str(),
            ).concat(" が ").concat(occupied_name.as_str()).concat(" を占領しました"),
            DomesticLogEvent::WarDefenderDefended { defender_name } => String::from_str("【合戦】").concat(
                defender_name.as_str(),
            ).concat(" が侵攻を退けました"),
        },
        ActionLogEvent::War(w) => match w {
            WarLogEvent::CpuDefenderTactic { tactic } => String::from_str("CPU Defender Tactic: ").concat(
                tactic_debug_str(*tactic),
            ),
            WarLogEvent::Damage { attacker_tactic, defender_tactic, attacker_damage, defender_damage } => String::from_str(
                "自軍(",
            ).concat(tactic_name_str(*attacker_tactic)).concat(")の被害: ").concat(
                decimal_string(*attacker_damage).as_str(),
            ).concat("、敵軍(").concat(tactic_name_str(*defender_tactic)).concat(")の被害: ").concat(
                decimal_string(*defender_damage).as_str(),
            ),
            WarLogEvent::AttackerVictory { home_name } => String::from_str("合戦終了：攻撃軍（").concat(
                home_name.as_str(),
            ).concat("から出陣）の勝利！領地を占領しました"),
            WarLogEvent::DefenderVictory => String::from_str("合戦終了：防衛軍の勝利"),
            WarLogEvent::WarStarted { attacker_name, defender_name } => attacker_name.clone().concat(" が ").concat(
                defender_name.as_str(),
            ).concat(" へ侵攻を開始しました"),
        },
    }
}

/// The action log: every event recorded, oldest first.
#[derive(Debug, Clone)]
pub struct ActionLogBook {
    entries: Vec<ActionLogEvent>,
}

/// The position from which the last `limit` of `n` entries start.
pub open spec fn recent_start(n: int, limit: int) -> int {
    if limit >= n { 0 } else { n - limit }
}

impl ActionLogBook {
    /// The events recorded, oldest first.
    pub closed spec fn events(&self) -> Seq<ActionLogEvent> {
        self.entries@
    }

    /// An empty log.
    pub fn new() -> (r: ActionLogBook)
        ensures
            r.events() == Seq::<ActionLogEvent>::empty(),
    {
        ActionLogBook { entries: Vec::new() }
    }

    /// Records `e` as the newest event.
    pub fn record(&mut self, e: ActionLogEvent)
        ensures
            final(self).events() == old(self).events().push(e),
    {
        self.entries.push(e);
    }

    /// The lines of the last `limit` events recorded (all of them when
    /// there are fewer), oldest first.
    pub fn recent(&self, limit: usize) -> (r: Vec<String>)
        ensures
            r@.len() == self.events().len() - recent_start(self.events().len() as int, limit as int),
            forall|j: int| 0 <= j < r@.len() ==> (#[trigger] r@[j])@ == spec_render_event(
                self.events()[recent_start(self.events().len() as int, limit as int) + j],
            ),
    {
        let n = self.entries.len();
        let start: usize = if limit >= n { 0 } else { n - limit };
        let mut out: Vec<String> = Vec::new();
        let mut i: usize = start;
        while i < n
            invariant
                n == self.entries@.len(),
                start == recent_start(n as int, limit as int),
                start <= i <= n,
                out@.len() == i - start,
                forall|j: int| 0 <= j < out@.len() ==> (#[trigger] out@[j])@ == spec_render_event(self.entries@[start + j]),
            decreases n - i,
        {
            out.push(render_event(&self.entries[i]));
            i = i + 1;
        }
        out
    }
}

} // verus!
