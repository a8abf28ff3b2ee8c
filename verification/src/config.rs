//! The configuration: what the operator declares.
//!
//! A configuration comes in two layers. The raw layer holds every setting
//! as an option, where an unset one means "inherit"; two raw configurations
//! are combined with `or`, which prefers the left one. The filled layer holds
//! every setting resolved against its default.
//!
//! Numbers with a fractional part are carried as the text that the game
//! reads, in a [`Decimal`]: the library writes them out and never computes
//! with them.

use crate::ordered_map::{clone_map, entries, insert_all, to_pairs, with_entries};
use crate::paths::{join_path, joined_path};
use crate::schedule::CronSchedule;
use crate::text::{concat2, texts};
use linked_hash_map::LinkedHashMap;
use std::ops::RangeInclusive;
use vstd::prelude::*;
use vstd::string::StringExecFns;

verus! {

/// How the server renders.
#[derive(Debug, Clone, Copy, PartialEq, Eq, Structural)]
pub enum GraphicsMode {
    Default,
    Software,
}

/// What players may change in a private lobby.
#[derive(Debug, Clone, Copy, PartialEq, Eq, Structural)]
pub enum PrivateLobbyPlayerPermissions {
    All,
    MapModeOnly,
    /// Nothing at all. (The configuration file writes `none`.)
    Nothing,
}

/// Whether boosts can be earned beyond the meter.
#[derive(Debug, Clone, Copy, PartialEq, Eq, Structural)]
pub enum BoostMeterOverdrive {
    Enabled,
    Disabled,
    Only,
}

/// A gameplay feature that a playlist can switch on.
#[derive(Hash, Debug, Clone, Copy, PartialEq, Eq, Structural)]
pub enum Riff {
    /// `riff_floorislava`
    FloorIsLava,
    /// `featured_mode_all_holopilot`
    AllHolopilot,
    /// `featured_mode_all_grapple`
    AllGrapple,
    /// `featured_mode_all_phase`
    AllPhase,
    /// `featured_mode_all_ticks`
    AllTicks,
    /// `featured_mode_tactikill`
    Tactikill,
    /// `featured_mode_amped_tacticals`
    AmpedTacticals,
    /// `featured_mode_rocket_arena`
    RocketArena,
    /// `featured_mode_shotguns_snipers`
    ShotgunsSnipers,
    /// `iron_rules`
    IronRules,
    /// `fp_embark_enabled`
    FirstPersonEmbark,
    /// `riff_instagib`
    Instagib,
}

/// Whether pilots bleed out before they die.
#[derive(Debug, Clone, Copy, PartialEq, Eq, Structural)]
pub enum PilotBleedout {
    Default,
    Disabled,
    Enabled,
}

impl PrivateLobbyPlayerPermissions {
    /// The number that the game knows the setting by.
    pub open spec fn code(self) -> nat {
        match self {
            PrivateLobbyPlayerPermissions::All => 0,
            PrivateLobbyPlayerPermissions::MapModeOnly => 1,
            PrivateLobbyPlayerPermissions::Nothing => 2,
        }
    }

    /// The number that the game knows the setting by.
    pub fn number(self) -> (n: u64)
        ensures
            n == self.code(),
    {
        match self {
            PrivateLobbyPlayerPermissions::All => 0,
            PrivateLobbyPlayerPermissions::MapModeOnly => 1,
            PrivateLobbyPlayerPermissions::Nothing => 2,
        }
    }
}

impl PilotBleedout {
    /// The number that the game knows the setting by.
    pub open spec fn code(self) -> nat {
        match self {
            PilotBleedout::Default => 0,
            PilotBleedout::Disabled => 1,
            PilotBleedout::Enabled => 2,
        }
    }

    /// The number that the game knows the setting by.
    pub fn number(self) -> (n: u64)
        ensures
            n == self.code(),
    {
        match self {
            PilotBleedout::Default => 0,
            PilotBleedout::Disabled => 1,
            PilotBleedout::Enabled => 2,
        }
    }
}

impl BoostMeterOverdrive {
    /// The number that the game knows the setting by.
    pub open spec fn code(self) -> nat {
        match self {
            BoostMeterOverdrive::Enabled => 0,
            BoostMeterOverdrive::Disabled => 1,
            BoostMeterOverdrive::Only => 2,
        }
    }

    /// The number that the game knows the setting by.
    pub fn number(self) -> (n: u64)
        ensures
            n == self.code(),
    {
        match self {
            BoostMeterOverdrive::Enabled => 0,
            BoostMeterOverdrive::Disabled => 1,
            BoostMeterOverdrive::Only => 2,
        }
    }
}

/// A set of riffs.
#[derive(Debug, Clone, Copy, PartialEq, Eq, Structural)]
pub struct RiffSet {
    pub floor_is_lava: bool,
    pub all_holopilot: bool,
    pub all_grapple: bool,
    pub all_phase: bool,
    pub all_ticks: bool,
    pub tactikill: bool,
    pub amped_tacticals: bool,
    pub rocket_arena: bool,
    pub shotguns_snipers: bool,
    pub iron_rules: bool,
    pub first_person_embark: bool,
    pub instagib: bool,
}

impl View for RiffSet {
    type V = Set<Riff>;

    open spec fn view(&self) -> Set<Riff> {
        Set::new(|riff: Riff| self.has(riff))
    }
}

impl DeepView for RiffSet {
    type V = Set<Riff>;

    open spec fn deep_view(&self) -> Set<Riff> {
        self@
    }
}

impl RiffSet {
    /// Whether the riff is in the set.
    pub open spec fn has(self, riff: Riff) -> bool {
        match riff {
            Riff::FloorIsLava => self.floor_is_lava,
            Riff::AllHolopilot => self.all_holopilot,
            Riff::AllGrapple => self.all_grapple,
            Riff::AllPhase => self.all_phase,
            Riff::AllTicks => self.all_ticks,
            Riff::Tactikill => self.tactikill,
            Riff::AmpedTacticals => self.amped_tacticals,
            Riff::RocketArena => self.rocket_arena,
            Riff::ShotgunsSnipers => self.shotguns_snipers,
            Riff::IronRules => self.iron_rules,
            Riff::FirstPersonEmbark => self.first_person_embark,
            Riff::Instagib => self.instagib,
        }
    }

    /// The set without any riff.
    pub fn new() -> (set: RiffSet)
        ensures
            set@ == Set::<Riff>::empty(),
    {
        let set = RiffSet {
            floor_is_lava: false,
            all_holopilot: false,
            all_grapple: false,
            all_phase: false,
            all_ticks: false,
            tactikill: false,
            amped_tacticals: false,
            rocket_arena: false,
            shotguns_snipers: false,
            iron_rules: false,
            first_person_embark: false,
            instagib: false,
        };
        assert(set@ =~= Set::<Riff>::empty());
        set
    }

    /// Whether the riff is in the set.
    pub fn contains(&self, riff: Riff) -> (found: bool)
        ensures
            found == self@.contains(riff),
    {
        match riff {
            Riff::FloorIsLava => self.floor_is_lava,
            Riff::AllHolopilot => self.all_holopilot,
            Riff::AllGrapple => self.all_grapple,
            Riff::AllPhase => self.all_phase,
            Riff::AllTicks => self.all_ticks,
            Riff::Tactikill => self.tactikill,
            Riff::AmpedTacticals => self.amped_tacticals,
            Riff::RocketArena => self.rocket_arena,
            Riff::ShotgunsSnipers => self.shotguns_snipers,
            Riff::IronRules => self.iron_rules,
            Riff::FirstPersonEmbark => self.first_person_embark,
            Riff::Instagib => self.instagib,
        }
    }

    /// The set with the riff in it.
    pub fn with(self, riff: Riff) -> (set: RiffSet)
        ensures
            set@ == self@.insert(riff),
    {
        let set = RiffSet {
            floor_is_lava: self.floor_is_lava || riff == Riff::FloorIsLava,
            all_holopilot: self.all_holopilot || riff == Riff::AllHolopilot,
            all_grapple: self.all_grapple || riff == Riff::AllGrapple,
            all_phase: self.all_phase || riff == Riff::AllPhase,
            all_ticks: self.all_ticks || riff == Riff::AllTicks,
            tactikill: self.tactikill || riff == Riff::Tactikill,
            amped_tacticals: self.amped_tacticals || riff == Riff::AmpedTacticals,
            rocket_arena: self.rocket_arena || riff == Riff::RocketArena,
            shotguns_snipers: self.shotguns_snipers || riff == Riff::ShotgunsSnipers,
            iron_rules: self.iron_rules || riff == Riff::IronRules,
            first_person_embark: self.first_person_embark || riff == Riff::FirstPersonEmbark,
            instagib: self.instagib || riff == Riff::Instagib,
        };
        assert forall|r: Riff| set.has(r) == (self.has(r) || r == riff) by {}
        assert(set@ =~= self@.insert(riff));
        set
    }

    /// Puts the riff into the set.
    pub fn insert(&mut self, riff: Riff)
        ensures
            final(self)@ == old(self)@.insert(riff),
    {
        *self = self.with(riff);
    }

    /// The riffs that are in either set.
    pub fn union(self, other: RiffSet) -> (both: RiffSet)
        ensures
            both@ == self@.union(other@),
    {
        let both = RiffSet {
            floor_is_lava: self.floor_is_lava || other.floor_is_lava,
            all_holopilot: self.all_holopilot || other.all_holopilot,
            all_grapple: self.all_grapple || other.all_grapple,
            all_phase: self.all_phase || other.all_phase,
            all_ticks: self.all_ticks || other.all_ticks,
            tactikill: self.tactikill || other.tactikill,
            amped_tacticals: self.amped_tacticals || other.amped_tacticals,
            rocket_arena: self.rocket_arena || other.rocket_arena,
            shotguns_snipers: self.shotguns_snipers || other.shotguns_snipers,
            iron_rules: self.iron_rules || other.iron_rules,
            first_person_embark: self.first_person_embark || other.first_person_embark,
            instagib: self.instagib || other.instagib,
        };
        assert(both@ =~= self@.union(other@));
        both
    }
}

impl Default for RiffSet {
    fn default() -> (set: RiffSet)
        ensures
            set@ == Set::<Riff>::empty(),
    {
        RiffSet::new()
    }
}

/// A number with a fractional part, as the text that the game reads: `0.5`,
/// `120`, `0.016666666666666666`.
#[derive(Debug, PartialEq, Eq)]
pub struct Decimal {
    pub text: String,
}

impl View for Decimal {
    type V = Seq<char>;

    open spec fn view(&self) -> Seq<char> {
        self.text@
    }
}

impl DeepView for Decimal {
    type V = Seq<char>;

    open spec fn deep_view(&self) -> Seq<char> {
        self@
    }
}

impl Clone for Decimal {
    fn clone(&self) -> (copy: Self)
        ensures
            copy@ == self@,
    {
        Decimal { text: self.text.clone() }
    }
}

impl Decimal {
    /// The number that the text denotes.
    pub fn new(text: String) -> (number: Decimal)
        ensures
            number@ == text@,
    {
        Decimal { text }
    }
}

/// How often the server simulates: the ticks in a second, and the length of
/// one tick in seconds, which is what the game is told.
#[derive(Debug, PartialEq, Eq)]
pub struct TickRate {
    pub per_second: u32,
    pub interval: Decimal,
}

/// A tick rate, as its number and the text of its interval.
pub struct TickRateView {
    pub per_second: u32,
    pub interval: Seq<char>,
}

impl View for TickRate {
    type V = TickRateView;

    open spec fn view(&self) -> TickRateView {
        TickRateView { per_second: self.per_second, interval: self.interval@ }
    }
}

impl DeepView for TickRate {
    type V = TickRateView;

    open spec fn deep_view(&self) -> TickRateView {
        self@
    }
}

impl Clone for TickRate {
    fn clone(&self) -> (copy: Self)
        ensures
            copy@ == self@,
    {
        TickRate { per_second: self.per_second, interval: self.interval.clone() }
    }
}

impl TickRate {
    /// Sixty ticks in a second.
    pub open spec fn standard() -> TickRateView {
        TickRateView { per_second: 60, interval: "0.016666666666666666"@ }
    }

    /// The tick rate that is used where none is set: sixty in a second.
    pub fn sixty() -> (rate: TickRate)
        ensures
            rate@ == Self::standard(),
    {
        TickRate { per_second: 60, interval: Decimal::new(String::from_str("0.016666666666666666")) }
    }
}

/// The left option where it is set, else the right one.
pub open spec fn first_of<T>(left: Option<T>, right: Option<T>) -> Option<T> {
    if left is Some {
        left
    } else {
        right
    }
}

/// What is set, or else the fallback.
pub open spec fn value_or<T>(set: Option<T>, fallback: T) -> T {
    match set {
        Some(value) => value,
        None => fallback,
    }
}

/// The texts of `list` in their order, each once: a text that stood in the
/// list before is left out.
pub open spec fn distinct(list: Seq<Seq<char>>) -> Seq<Seq<char>>
    decreases list.len(),
{
    if list.len() == 0 {
        list
    } else if distinct(list.drop_last()).contains(list.last()) {
        distinct(list.drop_last())
    } else {
        distinct(list.drop_last()).push(list.last())
    }
}

/// Each path of `list`, taken relative to `base`.
pub open spec fn joined_all(base: Seq<char>, list: Seq<Seq<char>>) -> Seq<Seq<char>> {
    Seq::new(list.len(), |i: int| joined_path(base, list[i]))
}

/// The left option where it is set, else the right one.
pub fn either<T>(left: Option<T>, right: Option<T>) -> (chosen: Option<T>)
    ensures
        chosen == first_of(left, right),
{
    match left {
        Some(value) => Some(value),
        None => right,
    }
}

fn clone_text(text: &Option<String>) -> (copy: Option<String>)
    ensures
        copy.deep_view() == text.deep_view(),
{
    match text {
        Some(t) => Some(t.clone()),
        None => None,
    }
}

fn clone_decimal(number: &Option<Decimal>) -> (copy: Option<Decimal>)
    ensures
        copy.deep_view() == number.deep_view(),
{
    match number {
        Some(n) => Some(n.clone()),
        None => None,
    }
}

fn clone_tick_rate(rate: &Option<TickRate>) -> (copy: Option<TickRate>)
    ensures
        copy.deep_view() == rate.deep_view(),
{
    match rate {
        Some(r) => Some(r.clone()),
        None => None,
    }
}

fn clone_schedule(schedule: &Option<CronSchedule>) -> (copy: Option<CronSchedule>)
    ensures
        copy.deep_view() == schedule.deep_view(),
{
    match schedule {
        Some(s) => Some(s.clone()),
        None => None,
    }
}

/// Copies a list of texts.
pub fn clone_list(list: &Vec<String>) -> (copy: Vec<String>)
    ensures
        texts(copy@) == texts(list@),
{
    let mut copy: Vec<String> = Vec::new();
    let mut i: usize = 0;
    while i < list.len()
        invariant
            i <= list.len(),
            copy@.len() == i,
            forall|k: int| 0 <= k < i ==> (#[trigger] copy@[k])@ == list@[k]@,
        decreases list.len() - i,
    {
        copy.push(list[i].clone());
        i = i + 1;
    }
    assert(texts(copy@) =~= texts(list@));
    copy
}

fn list_contains(list: &Vec<String>, text: &String) -> (found: bool)
    ensures
        found == texts(list@).contains(text@),
{
    let mut i: usize = 0;
    while i < list.len()
        invariant
            i <= list.len(),
            forall|k: int| 0 <= k < i ==> texts(list@)[k] != text@,
        decreases list.len() - i,
    {
        if list[i] == *text {
            assert(texts(list@)[i as int] == text@);
            return true;
        }
        i = i + 1;
    }
    false
}

/// Appends each text of `more` that `list` does not hold yet.
fn push_distinct(list: &mut Vec<String>, more: Vec<String>)
    requires
        texts(old(list)@) == distinct(texts(old(list)@)),
    ensures
        texts(final(list)@) == distinct(texts(old(list)@) + texts(more@)),
{
    let ghost start = texts(list@);
    let ghost added = texts(more@);
    let ghost mut n: int = 0;
    let mut rest = more;
    assert(start + added.take(0) =~= start);
    while rest.len() > 0
        invariant
            0 <= n,
            n + rest.len() == added.len(),
            texts(rest@) =~= added.skip(n),
            texts(list@) == distinct(start + added.take(n)),
        decreases rest.len(),
    {
        let ghost before = rest@;
        let text = rest.remove(0);
        proof {
            assert(texts(before)[0] == added.skip(n)[0]);
            assert forall|i: int| 0 <= i < rest@.len() implies texts(rest@)[i] == added.skip(
                n + 1,
            )[i] by {
                assert(rest@[i] == before[i + 1]);
                assert(texts(before)[i + 1] == added.skip(n)[i + 1]);
            }
            assert(texts(rest@) =~= added.skip(n + 1));
            assert((start + added.take(n + 1)).drop_last() =~= start + added.take(n));
            assert((start + added.take(n + 1)).last() == text@);
        }
        if !list_contains(list, &text) {
            let ghost held = texts(list@);
            list.push(text);
            assert(texts(list@) =~= held.push(text@));
        }
        proof {
            n = n + 1;
        }
    }
    assert(added.take(n) =~= added);
}

/// The tuning of a playlist. An unset field leaves the game's own value.
#[derive(Debug, PartialEq)]
pub struct PlaylistOverrides {
    /// The riffs that are switched on.
    pub riffs: RiffSet,
    // Match
    /// The playlist variable `classic_mp`.
    pub match_classic_mp_enabled: Option<bool>,
    /// The playlist variable `run_epilogue`.
    pub match_epilogue_enabled: Option<bool>,
    /// The playlist variable `scorelimit`.
    pub match_scorelimit: Option<Decimal>,
    /// The playlist variable `roundscorelimit`.
    pub match_round_scorelimit: Option<Decimal>,
    /// The playlist variable `timelimit`.
    pub match_timelimit: Option<Decimal>,
    /// The playlist variable `roundtimelimit`.
    pub match_round_timelimit: Option<Decimal>,
    /// The playlist variable `oob_timer_enabled`.
    pub match_oob_timer_enabled: Option<bool>,
    /// The playlist variable `max_players`.
    pub match_max_players: Option<u32>,
    // Titan
    /// The playlist variable `earn_meter_titan_multiplier`.
    pub titan_boost_meter_multiplier: Option<Decimal>,
    /// The playlist variable `aegis_upgrades`.
    pub titan_aegis_upgrades_enabled: Option<bool>,
    /// The playlist variable `infinite_doomed_state`.
    pub titan_infinite_doomed_state_enabled: Option<bool>,
    /// The playlist variable `titan_shield_regen`.
    pub titan_shield_regen_enabled: Option<bool>,
    /// The playlist variable `classic_rodeo`.
    pub titan_classic_rodeo_enabled: Option<bool>,
    // Pilot bleedout
    /// The playlist variable `riff_player_bleedout`.
    pub pilot_bleedout_mode: Option<PilotBleedout>,
    /// The playlist variable `player_bleedout_forceHolster`.
    pub pilot_bleedout_holster_when_down: Option<bool>,
    /// The playlist variable `player_bleedout_forceDeathOnTeamBleedout`.
    pub pilot_bleedout_die_on_team_bleedout: Option<bool>,
    /// The playlist variable `player_bleedout_bleedoutTime`.
    pub pilot_bleedout_bleedout_time: Option<Decimal>,
    /// The playlist variable `player_bleedout_firstAidTime`.
    pub pilot_bleedout_firstaid_time: Option<Decimal>,
    /// The playlist variable `player_bleedout_firstAidTimeSelf`.
    pub pilot_bleedout_selfres_time: Option<Decimal>,
    /// The playlist variable `player_bleedout_firstAidHealPercent`.
    pub pilot_bleedout_firstaid_heal_percent: Option<Decimal>,
    /// The playlist variable `player_bleedout_aiBleedingPlayerMissChance`.
    pub pilot_bleedout_down_ai_miss_chance: Option<Decimal>,
    // Promode
    /// The playlist variable `promode_enable`.
    pub promode_weapons_enabled: Option<bool>,
    // Pilot
    /// The playlist variable `pilot_health_multiplier`.
    pub pilot_health_multiplier: Option<Decimal>,
    /// The playlist variable `respawn_delay`.
    pub pilot_respawn_delay: Option<Decimal>,
    /// The playlist variable `boosts_enabled`, written the other way round.
    pub pilot_boosts_enabled: Option<bool>,
    /// The playlist variable `earn_meter_pilot_overdrive`.
    pub pilot_boost_meter_overdrive: Option<BoostMeterOverdrive>,
    /// The playlist variable `earn_meter_pilot_multiplier`.
    pub pilot_boost_meter_multiplier: Option<Decimal>,
    /// The playlist variable `custom_air_accel_pilot`.
    pub pilot_air_acceleration: Option<Decimal>,
    /// The playlist variable `no_pilot_collision`, written the other way round.
    pub pilot_collision_enabled: Option<bool>,
}

/// The tuning of a playlist, with each text as its characters.
pub struct PlaylistOverridesView {
    pub riffs: Set<Riff>,
    pub match_classic_mp_enabled: Option<bool>,
    pub match_epilogue_enabled: Option<bool>,
    pub match_scorelimit: Option<Seq<char>>,
    pub match_round_scorelimit: Option<Seq<char>>,
    pub match_timelimit: Option<Seq<char>>,
    pub match_round_timelimit: Option<Seq<char>>,
    pub match_oob_timer_enabled: Option<bool>,
    pub match_max_players: Option<u32>,
    pub titan_boost_meter_multiplier: Option<Seq<char>>,
    pub titan_aegis_upgrades_enabled: Option<bool>,
    pub titan_infinite_doomed_state_enabled: Option<bool>,
    pub titan_shield_regen_enabled: Option<bool>,
    pub titan_classic_rodeo_enabled: Option<bool>,
    pub pilot_bleedout_mode: Option<PilotBleedout>,
    pub pilot_bleedout_holster_when_down: Option<bool>,
    pub pilot_bleedout_die_on_team_bleedout: Option<bool>,
    pub pilot_bleedout_bleedout_time: Option<Seq<char>>,
    pub pilot_bleedout_firstaid_time: Option<Seq<char>>,
    pub pilot_bleedout_selfres_time: Option<Seq<char>>,
    pub pilot_bleedout_firstaid_heal_percent: Option<Seq<char>>,
    pub pilot_bleedout_down_ai_miss_chance: Option<Seq<char>>,
    pub promode_weapons_enabled: Option<bool>,
    pub pilot_health_multiplier: Option<Seq<char>>,
    pub pilot_respawn_delay: Option<Seq<char>>,
    pub pilot_boosts_enabled: Option<bool>,
    pub pilot_boost_meter_overdrive: Option<BoostMeterOverdrive>,
    pub pilot_boost_meter_multiplier: Option<Seq<char>>,
    pub pilot_air_acceleration: Option<Seq<char>>,
    pub pilot_collision_enabled: Option<bool>,
}

impl View for PlaylistOverrides {
    type V = PlaylistOverridesView;

    open spec fn view(&self) -> PlaylistOverridesView {
        PlaylistOverridesView {
            riffs: self.riffs@,
            match_classic_mp_enabled: self.match_classic_mp_enabled,
            match_epilogue_enabled: self.match_epilogue_enabled,
            match_scorelimit: self.match_scorelimit.deep_view(),
            match_round_scorelimit: self.match_round_scorelimit.deep_view(),
            match_timelimit: self.match_timelimit.deep_view(),
            match_round_timelimit: self.match_round_timelimit.deep_view(),
            match_oob_timer_enabled: self.match_oob_timer_enabled,
            match_max_players: self.match_max_players,
            titan_boost_meter_multiplier: self.titan_boost_meter_multiplier.deep_view(),
            titan_aegis_upgrades_enabled: self.titan_aegis_upgrades_enabled,
            titan_infinite_doomed_state_enabled: self.titan_infinite_doomed_state_enabled,
            titan_shield_regen_enabled: self.titan_shield_regen_enabled,
            titan_classic_rodeo_enabled: self.titan_classic_rodeo_enabled,
            pilot_bleedout_mode: self.pilot_bleedout_mode,
            pilot_bleedout_holster_when_down: self.pilot_bleedout_holster_when_down,
            pilot_bleedout_die_on_team_bleedout: self.pilot_bleedout_die_on_team_bleedout,
            pilot_bleedout_bleedout_time: self.pilot_bleedout_bleedout_time.deep_view(),
            pilot_bleedout_firstaid_time: self.pilot_bleedout_firstaid_time.deep_view(),
            pilot_bleedout_selfres_time: self.pilot_bleedout_selfres_time.deep_view(),
            pilot_bleedout_firstaid_heal_percent: self.pilot_bleedout_firstaid_heal_percent.deep_view(),
            pilot_bleedout_down_ai_miss_chance: self.pilot_bleedout_down_ai_miss_chance.deep_view(),
            promode_weapons_enabled: self.promode_weapons_enabled,
            pilot_health_multiplier: self.pilot_health_multiplier.deep_view(),
            pilot_respawn_delay: self.pilot_respawn_delay.deep_view(),
            pilot_boosts_enabled: self.pilot_boosts_enabled,
            pilot_boost_meter_overdrive: self.pilot_boost_meter_overdrive,
            pilot_boost_meter_multiplier: self.pilot_boost_meter_multiplier.deep_view(),
            pilot_air_acceleration: self.pilot_air_acceleration.deep_view(),
            pilot_collision_enabled: self.pilot_collision_enabled,
        }
    }
}

impl DeepView for PlaylistOverrides {
    type V = PlaylistOverridesView;

    open spec fn deep_view(&self) -> PlaylistOverridesView {
        self@
    }
}

impl PlaylistOverridesView {
    /// The tuning that sets nothing.
    pub open spec fn unset() -> PlaylistOverridesView {
        PlaylistOverridesView {
            riffs: Set::empty(),
            match_classic_mp_enabled: None,
            match_epilogue_enabled: None,
            match_scorelimit: None,
            match_round_scorelimit: None,
            match_timelimit: None,
            match_round_timelimit: None,
            match_oob_timer_enabled: None,
            match_max_players: None,
            titan_boost_meter_multiplier: None,
            titan_aegis_upgrades_enabled: None,
            titan_infinite_doomed_state_enabled: None,
            titan_shield_regen_enabled: None,
            titan_classic_rodeo_enabled: None,
            pilot_bleedout_mode: None,
            pilot_bleedout_holster_when_down: None,
            pilot_bleedout_die_on_team_bleedout: None,
            pilot_bleedout_bleedout_time: None,
            pilot_bleedout_firstaid_time: None,
            pilot_bleedout_selfres_time: None,
            pilot_bleedout_firstaid_heal_percent: None,
            pilot_bleedout_down_ai_miss_chance: None,
            promode_weapons_enabled: None,
            pilot_health_multiplier: None,
            pilot_respawn_delay: None,
            pilot_boosts_enabled: None,
            pilot_boost_meter_overdrive: None,
            pilot_boost_meter_multiplier: None,
            pilot_air_acceleration: None,
            pilot_collision_enabled: None,
        }
    }

    /// This tuning, with `other` where this one sets nothing: each field is
    /// this one's where it is set and the other's where not, and a riff is
    /// on where either switches it on.
    pub open spec fn or(self, other: PlaylistOverridesView) -> PlaylistOverridesView {
        PlaylistOverridesView {
            riffs: self.riffs.union(other.riffs),
            match_classic_mp_enabled: first_of(
                self.match_classic_mp_enabled,
                other.match_classic_mp_enabled,
            ),
            match_epilogue_enabled: first_of(
                self.match_epilogue_enabled,
                other.match_epilogue_enabled,
            ),
            match_scorelimit: first_of(self.match_scorelimit, other.match_scorelimit),
            match_round_scorelimit: first_of(
                self.match_round_scorelimit,
                other.match_round_scorelimit,
            ),
            match_timelimit: first_of(self.match_timelimit, other.match_timelimit),
            match_round_timelimit: first_of(
                self.match_round_timelimit,
                other.match_round_timelimit,
            ),
            match_oob_timer_enabled: first_of(
                self.match_oob_timer_enabled,
                other.match_oob_timer_enabled,
            ),
            match_max_players: first_of(self.match_max_players, other.match_max_players),
            titan_boost_meter_multiplier: first_of(
                self.titan_boost_meter_multiplier,
                other.titan_boost_meter_multiplier,
            ),
            titan_aegis_upgrades_enabled: first_of(
                self.titan_aegis_upgrades_enabled,
                other.titan_aegis_upgrades_enabled,
            ),
            titan_infinite_doomed_state_enabled: first_of(
                self.titan_infinite_doomed_state_enabled,
                other.titan_infinite_doomed_state_enabled,
            ),
            titan_shield_regen_enabled: first_of(
                self.titan_shield_regen_enabled,
                other.titan_shield_regen_enabled,
            ),
            titan_classic_rodeo_enabled: first_of(
                self.titan_classic_rodeo_enabled,
                other.titan_classic_rodeo_enabled,
            ),
            pilot_bleedout_mode: first_of(self.pilot_bleedout_mode, other.pilot_bleedout_mode),
            pilot_bleedout_holster_when_down: first_of(
                self.pilot_bleedout_holster_when_down,
                other.pilot_bleedout_holster_when_down,
            ),
            pilot_bleedout_die_on_team_bleedout: first_of(
                self.pilot_bleedout_die_on_team_bleedout,
                other.pilot_bleedout_die_on_team_bleedout,
            ),
            pilot_bleedout_bleedout_time: first_of(
                self.pilot_bleedout_bleedout_time,
                other.pilot_bleedout_bleedout_time,
            ),
            pilot_bleedout_firstaid_time: first_of(
                self.pilot_bleedout_firstaid_time,
                other.pilot_bleedout_firstaid_time,
            ),
            pilot_bleedout_selfres_time: first_of(
                self.pilot_bleedout_selfres_time,
                other.pilot_bleedout_selfres_time,
            ),
            pilot_bleedout_firstaid_heal_percent: first_of(
                self.pilot_bleedout_firstaid_heal_percent,
                other.pilot_bleedout_firstaid_heal_percent,
            ),
            pilot_bleedout_down_ai_miss_chance: first_of(
                self.pilot_bleedout_down_ai_miss_chance,
                other.pilot_bleedout_down_ai_miss_chance,
            ),
            promode_weapons_enabled: first_of(
                self.promode_weapons_enabled,
                other.promode_weapons_enabled,
            ),
            pilot_health_multiplier: first_of(
                self.pilot_health_multiplier,
                other.pilot_health_multiplier,
            ),
            pilot_respawn_delay: first_of(self.pilot_respawn_delay, other.pilot_respawn_delay),
            pilot_boosts_enabled: first_of(self.pilot_boosts_enabled, other.pilot_boosts_enabled),
            pilot_boost_meter_overdrive: first_of(
                self.pilot_boost_meter_overdrive,
                other.pilot_boost_meter_overdrive,
            ),
            pilot_boost_meter_multiplier: first_of(
                self.pilot_boost_meter_multiplier,
                other.pilot_boost_meter_multiplier,
            ),
            pilot_air_acceleration: first_of(
                self.pilot_air_acceleration,
                other.pilot_air_acceleration,
            ),
            pilot_collision_enabled: first_of(
                self.pilot_collision_enabled,
                other.pilot_collision_enabled,
            ),
        }
    }
}

impl PlaylistOverridesView {
    /// `or` prefers the left side: a field that this tuning sets is kept, and
    /// one that it leaves unset is taken from `other`.
    pub proof fn lemma_or_prefers_left(self, other: PlaylistOverridesView)
        ensures
            self.match_classic_mp_enabled is Some ==> self.or(other).match_classic_mp_enabled
                == self.match_classic_mp_enabled,
            self.match_classic_mp_enabled is None ==> self.or(other).match_classic_mp_enabled
                == other.match_classic_mp_enabled,
            self.match_epilogue_enabled is Some ==> self.or(other).match_epilogue_enabled
                == self.match_epilogue_enabled,
            self.match_epilogue_enabled is None ==> self.or(other).match_epilogue_enabled
                == other.match_epilogue_enabled,
            self.match_scorelimit is Some ==> self.or(other).match_scorelimit
                == self.match_scorelimit,
            self.match_scorelimit is None ==> self.or(other).match_scorelimit
                == other.match_scorelimit,
            self.match_round_scorelimit is Some ==> self.or(other).match_round_scorelimit
                == self.match_round_scorelimit,
            self.match_round_scorelimit is None ==> self.or(other).match_round_scorelimit
                == other.match_round_scorelimit,
            self.match_timelimit is Some ==> self.or(other).match_timelimit
                == self.match_timelimit,
            self.match_timelimit is None ==> self.or(other).match_timelimit
                == other.match_timelimit,
            self.match_round_timelimit is Some ==> self.or(other).match_round_timelimit
                == self.match_round_timelimit,
            self.match_round_timelimit is None ==> self.or(other).match_round_timelimit
                == other.match_round_timelimit,
            self.match_oob_timer_enabled is Some ==> self.or(other).match_oob_timer_enabled
                == self.match_oob_timer_enabled,
            self.match_oob_timer_enabled is None ==> self.or(other).match_oob_timer_enabled
                == other.match_oob_timer_enabled,
            self.match_max_players is Some ==> self.or(other).match_max_players
                == self.match_max_players,
            self.match_max_players is None ==> self.or(other).match_max_players
                == other.match_max_players,
            self.titan_boost_meter_multiplier is Some ==> self.or(other).titan_boost_meter_multiplier
                == self.titan_boost_meter_multiplier,
            self.titan_boost_meter_multiplier is None ==> self.or(other).titan_boost_meter_multiplier
                == other.titan_boost_meter_multiplier,
            self.titan_aegis_upgrades_enabled is Some ==> self.or(other).titan_aegis_upgrades_enabled
                == self.titan_aegis_upgrades_enabled,
            self.titan_aegis_upgrades_enabled is None ==> self.or(other).titan_aegis_upgrades_enabled
                == other.titan_aegis_upgrades_enabled,
            self.titan_infinite_doomed_state_enabled is Some ==> self.or(other).titan_infinite_doomed_state_enabled
                == self.titan_infinite_doomed_state_enabled,
            self.titan_infinite_doomed_state_enabled is None ==> self.or(other).titan_infinite_doomed_state_enabled
                == other.titan_infinite_doomed_state_enabled,
            self.titan_shield_regen_enabled is Some ==> self.or(other).titan_shield_regen_enabled
                == self.titan_shield_regen_enabled,
            self.titan_shield_regen_enabled is None ==> self.or(other).titan_shield_regen_enabled
                == other.titan_shield_regen_enabled,
            self.titan_classic_rodeo_enabled is Some ==> self.or(other).titan_classic_rodeo_enabled
                == self.titan_classic_rodeo_enabled,
            self.titan_classic_rodeo_enabled is None ==> self.or(other).titan_classic_rodeo_enabled
                == other.titan_classic_rodeo_enabled,
            self.pilot_bleedout_mode is Some ==> self.or(other).pilot_bleedout_mode
                == self.pilot_bleedout_mode,
            self.pilot_bleedout_mode is None ==> self.or(other).pilot_bleedout_mode
                == other.pilot_bleedout_mode,
            self.pilot_bleedout_holster_when_down is Some ==> self.or(other).pilot_bleedout_holster_when_down
                == self.pilot_bleedout_holster_when_down,
            self.pilot_bleedout_holster_when_down is None ==> self.or(other).pilot_bleedout_holster_when_down
                == other.pilot_bleedout_holster_when_down,
            self.pilot_bleedout_die_on_team_bleedout is Some ==> self.or(other).pilot_bleedout_die_on_team_bleedout
                == self.pilot_bleedout_die_on_team_bleedout,
            self.pilot_bleedout_die_on_team_bleedout is None ==> self.or(other).pilot_bleedout_die_on_team_bleedout
                == other.pilot_bleedout_die_on_team_bleedout,
            self.pilot_bleedout_bleedout_time is Some ==> self.or(other).pilot_bleedout_bleedout_time
                == self.pilot_bleedout_bleedout_time,
            self.pilot_bleedout_bleedout_time is None ==> self.or(other).pilot_bleedout_bleedout_time
                == other.pilot_bleedout_bleedout_time,
            self.pilot_bleedout_firstaid_time is Some ==> self.or(other).pilot_bleedout_firstaid_time
                == self.pilot_bleedout_firstaid_time,
            self.pilot_bleedout_firstaid_time is None ==> self.or(other).pilot_bleedout_firstaid_time
                == other.pilot_bleedout_firstaid_time,
            self.pilot_bleedout_selfres_time is Some ==> self.or(other).pilot_bleedout_selfres_time
                == self.pilot_bleedout_selfres_time,
            self.pilot_bleedout_selfres_time is None ==> self.or(other).pilot_bleedout_selfres_time
                == other.pilot_bleedout_selfres_time,
            self.pilot_bleedout_firstaid_heal_percent is Some ==> self.or(other).pilot_bleedout_firstaid_heal_percent
                == self.pilot_bleedout_firstaid_heal_percent,
            self.pilot_bleedout_firstaid_heal_percent is None ==> self.or(other).pilot_bleedout_firstaid_heal_percent
                == other.pilot_bleedout_firstaid_heal_percent,
            self.pilot_bleedout_down_ai_miss_chance is Some ==> self.or(other).pilot_bleedout_down_ai_miss_chance
                == self.pilot_bleedout_down_ai_miss_chance,
            self.pilot_bleedout_down_ai_miss_chance is None ==> self.or(other).pilot_bleedout_down_ai_miss_chance
                == other.pilot_bleedout_down_ai_miss_chance,
            self.promode_weapons_enabled is Some ==> self.or(other).promode_weapons_enabled
                == self.promode_weapons_enabled,
            self.promode_weapons_enabled is None ==> self.or(other).promode_weapons_enabled
                == other.promode_weapons_enabled,
            self.pilot_health_multiplier is Some ==> self.or(other).pilot_health_multiplier
                == self.pilot_health_multiplier,
            self.pilot_health_multiplier is None ==> self.or(other).pilot_health_multiplier
                == other.pilot_health_multiplier,
            self.pilot_respawn_delay is Some ==> self.or(other).pilot_respawn_delay
                == self.pilot_respawn_delay,
            self.pilot_respawn_delay is None ==> self.or(other).pilot_respawn_delay
                == other.pilot_respawn_delay,
            self.pilot_boosts_enabled is Some ==> self.or(other).pilot_boosts_enabled
                == self.pilot_boosts_enabled,
            self.pilot_boosts_enabled is None ==> self.or(other).pilot_boosts_enabled
                == other.pilot_boosts_enabled,
            self.pilot_boost_meter_overdrive is Some ==> self.or(other).pilot_boost_meter_overdrive
                == self.pilot_boost_meter_overdrive,
            self.pilot_boost_meter_overdrive is None ==> self.or(other).pilot_boost_meter_overdrive
                == other.pilot_boost_meter_overdrive,
            self.pilot_boost_meter_multiplier is Some ==> self.or(other).pilot_boost_meter_multiplier
                == self.pilot_boost_meter_multiplier,
            self.pilot_boost_meter_multiplier is None ==> self.or(other).pilot_boost_meter_multiplier
                == other.pilot_boost_meter_multiplier,
            self.pilot_air_acceleration is Some ==> self.or(other).pilot_air_acceleration
                == self.pilot_air_acceleration,
            self.pilot_air_acceleration is None ==> self.or(other).pilot_air_acceleration
                == other.pilot_air_acceleration,
            self.pilot_collision_enabled is Some ==> self.or(other).pilot_collision_enabled
                == self.pilot_collision_enabled,
            self.pilot_collision_enabled is None ==> self.or(other).pilot_collision_enabled
                == other.pilot_collision_enabled,
    {
    }

    /// `or` unites the riffs: a riff is on where either side switches it on.
    pub proof fn lemma_or_unites_riffs(self, other: PlaylistOverridesView, riff: Riff)
        ensures
            self.or(other).riffs.contains(riff) <==> self.riffs.contains(riff)
                || other.riffs.contains(riff),
    {
    }

    /// A tuning combined with itself is that tuning.
    pub proof fn lemma_or_idempotent(self)
        ensures
            self.or(self) == self,
    {
        assert(self.or(self).riffs =~= self.riffs);
    }

    /// A tuning combined with the one that sets nothing is that tuning.
    pub proof fn lemma_or_unset_right(self)
        ensures
            self.or(PlaylistOverridesView::unset()) == self,
    {
        assert(self.or(PlaylistOverridesView::unset()).riffs =~= self.riffs);
    }
}

impl Default for PlaylistOverrides {
    fn default() -> (overrides: PlaylistOverrides)
        ensures
            overrides@ == PlaylistOverridesView::unset(),
    {
        PlaylistOverrides {
            riffs: RiffSet::new(),
            match_classic_mp_enabled: None,
            match_epilogue_enabled: None,
            match_scorelimit: None,
            match_round_scorelimit: None,
            match_timelimit: None,
            match_round_timelimit: None,
            match_oob_timer_enabled: None,
            match_max_players: None,
            titan_boost_meter_multiplier: None,
            titan_aegis_upgrades_enabled: None,
            titan_infinite_doomed_state_enabled: None,
            titan_shield_regen_enabled: None,
            titan_classic_rodeo_enabled: None,
            pilot_bleedout_mode: None,
            pilot_bleedout_holster_when_down: None,
            pilot_bleedout_die_on_team_bleedout: None,
            pilot_bleedout_bleedout_time: None,
            pilot_bleedout_firstaid_time: None,
            pilot_bleedout_selfres_time: None,
            pilot_bleedout_firstaid_heal_percent: None,
            pilot_bleedout_down_ai_miss_chance: None,
            promode_weapons_enabled: None,
            pilot_health_multiplier: None,
            pilot_respawn_delay: None,
            pilot_boosts_enabled: None,
            pilot_boost_meter_overdrive: None,
            pilot_boost_meter_multiplier: None,
            pilot_air_acceleration: None,
            pilot_collision_enabled: None,
        }
    }
}

impl Clone for PlaylistOverrides {
    fn clone(&self) -> (copy: Self)
        ensures
            copy@ == self@,
    {
        PlaylistOverrides {
            riffs: self.riffs,
            match_classic_mp_enabled: self.match_classic_mp_enabled,
            match_epilogue_enabled: self.match_epilogue_enabled,
            match_scorelimit: clone_decimal(&self.match_scorelimit),
            match_round_scorelimit: clone_decimal(&self.match_round_scorelimit),
            match_timelimit: clone_decimal(&self.match_timelimit),
            match_round_timelimit: clone_decimal(&self.match_round_timelimit),
            match_oob_timer_enabled: self.match_oob_timer_enabled,
            match_max_players: self.match_max_players,
            titan_boost_meter_multiplier: clone_decimal(&self.titan_boost_meter_multiplier),
            titan_aegis_upgrades_enabled: self.titan_aegis_upgrades_enabled,
            titan_infinite_doomed_state_enabled: self.titan_infinite_doomed_state_enabled,
            titan_shield_regen_enabled: self.titan_shield_regen_enabled,
            titan_classic_rodeo_enabled: self.titan_classic_rodeo_enabled,
            pilot_bleedout_mode: self.pilot_bleedout_mode,
            pilot_bleedout_holster_when_down: self.pilot_bleedout_holster_when_down,
            pilot_bleedout_die_on_team_bleedout: self.pilot_bleedout_die_on_team_bleedout,
            pilot_bleedout_bleedout_time: clone_decimal(&self.pilot_bleedout_bleedout_time),
            pilot_bleedout_firstaid_time: clone_decimal(&self.pilot_bleedout_firstaid_time),
            pilot_bleedout_selfres_time: clone_decimal(&self.pilot_bleedout_selfres_time),
            pilot_bleedout_firstaid_heal_percent: clone_decimal(&self.pilot_bleedout_firstaid_heal_percent),
            pilot_bleedout_down_ai_miss_chance: clone_decimal(&self.pilot_bleedout_down_ai_miss_chance),
            promode_weapons_enabled: self.promode_weapons_enabled,
            pilot_health_multiplier: clone_decimal(&self.pilot_health_multiplier),
            pilot_respawn_delay: clone_decimal(&self.pilot_respawn_delay),
            pilot_boosts_enabled: self.pilot_boosts_enabled,
            pilot_boost_meter_overdrive: self.pilot_boost_meter_overdrive,
            pilot_boost_meter_multiplier: clone_decimal(&self.pilot_boost_meter_multiplier),
            pilot_air_acceleration: clone_decimal(&self.pilot_air_acceleration),
            pilot_collision_enabled: self.pilot_collision_enabled,
        }
    }
}

impl PlaylistOverrides {
    /// This tuning, with `other` where this one sets nothing.
    pub fn or(self, other: PlaylistOverrides) -> (merged: Self)
        ensures
            merged@ == self@.or(other@),
    {
        PlaylistOverrides {
            riffs: self.riffs.union(other.riffs),
            match_classic_mp_enabled: either(
                self.match_classic_mp_enabled,
                other.match_classic_mp_enabled,
            ),
            match_epilogue_enabled: either(
                self.match_epilogue_enabled,
                other.match_epilogue_enabled,
            ),
            match_scorelimit: either(self.match_scorelimit, other.match_scorelimit),
            match_round_scorelimit: either(
                self.match_round_scorelimit,
                other.match_round_scorelimit,
            ),
            match_timelimit: either(self.match_timelimit, other.match_timelimit),
            match_round_timelimit: either(self.match_round_timelimit, other.match_round_timelimit),
            match_oob_timer_enabled: either(
                self.match_oob_timer_enabled,
                other.match_oob_timer_enabled,
            ),
            match_max_players: either(self.match_max_players, other.match_max_players),
            titan_boost_meter_multiplier: either(
                self.titan_boost_meter_multiplier,
                other.titan_boost_meter_multiplier,
            ),
            titan_aegis_upgrades_enabled: either(
                self.titan_aegis_upgrades_enabled,
                other.titan_aegis_upgrades_enabled,
            ),
            titan_infinite_doomed_state_enabled: either(
                self.titan_infinite_doomed_state_enabled,
                other.titan_infinite_doomed_state_enabled,
            ),
            titan_shield_regen_enabled: either(
                self.titan_shield_regen_enabled,
                other.titan_shield_regen_enabled,
            ),
            titan_classic_rodeo_enabled: either(
                self.titan_classic_rodeo_enabled,
                other.titan_classic_rodeo_enabled,
            ),
            pilot_bleedout_mode: either(self.pilot_bleedout_mode, other.pilot_bleedout_mode),
            pilot_bleedout_holster_when_down: either(
                self.pilot_bleedout_holster_when_down,
                other.pilot_bleedout_holster_when_down,
            ),
            pilot_bleedout_die_on_team_bleedout: either(
                self.pilot_bleedout_die_on_team_bleedout,
                other.pilot_bleedout_die_on_team_bleedout,
            ),
            pilot_bleedout_bleedout_time: either(
                self.pilot_bleedout_bleedout_time,
                other.pilot_bleedout_bleedout_time,
            ),
            pilot_bleedout_firstaid_time: either(
                self.pilot_bleedout_firstaid_time,
                other.pilot_bleedout_firstaid_time,
            ),
            pilot_bleedout_selfres_time: either(
                self.pilot_bleedout_selfres_time,
                other.pilot_bleedout_selfres_time,
            ),
            pilot_bleedout_firstaid_heal_percent: either(
                self.pilot_bleedout_firstaid_heal_percent,
                other.pilot_bleedout_firstaid_heal_percent,
            ),
            pilot_bleedout_down_ai_miss_chance: either(
                self.pilot_bleedout_down_ai_miss_chance,
                other.pilot_bleedout_down_ai_miss_chance,
            ),
            promode_weapons_enabled: either(
                self.promode_weapons_enabled,
                other.promode_weapons_enabled,
            ),
            pilot_health_multiplier: either(
                self.pilot_health_multiplier,
                other.pilot_health_multiplier,
            ),
            pilot_respawn_delay: either(self.pilot_respawn_delay, other.pilot_respawn_delay),
            pilot_boosts_enabled: either(self.pilot_boosts_enabled, other.pilot_boosts_enabled),
            pilot_boost_meter_overdrive: either(
                self.pilot_boost_meter_overdrive,
                other.pilot_boost_meter_overdrive,
            ),
            pilot_boost_meter_multiplier: either(
                self.pilot_boost_meter_multiplier,
                other.pilot_boost_meter_multiplier,
            ),
            pilot_air_acceleration: either(
                self.pilot_air_acceleration,
                other.pilot_air_acceleration,
            ),
            pilot_collision_enabled: either(
                self.pilot_collision_enabled,
                other.pilot_collision_enabled,
            ),
        }
    }
}

/// The configuration of a game server with every setting resolved.
#[derive(Debug, PartialEq)]
pub struct FilledGameConfig {
    /// The container image that the server runs in.
    pub docker_image: String,
    /// The directory that holds the game, given relative to the configuration file.
    pub game_dir: String,
    /// What players read about the server.
    pub description: String,
    /// The password that players must give; empty for none.
    pub password: String,
    /// How often the server simulates, per second.
    pub tick_rate: TickRate,
    /// How often the server sends its state to each player, per second.
    pub update_rate: u32,
    /// The lowest update rate that a player may ask for.
    pub min_update_rate: u32,
    /// Whether the server registers with the master server.
    pub report_to_master: bool,
    /// Where the master server is.
    pub master_url: String,
    /// Whether players may join whom the master server does not vouch for.
    pub allow_insecure: bool,
    /// Whether the server talks to itself over sockets.
    pub use_sockets_for_loopback: bool,
    /// Whether every item is unlocked for every player.
    pub everything_unlocked: bool,
    /// Whether the server goes back to the lobby after a match.
    pub should_return_to_lobby: bool,
    /// What players may change in the lobby.
    pub player_permissions: PrivateLobbyPlayerPermissions,
    /// Whether only the host may start the match.
    pub only_host_can_start: bool,
    /// How long the lobby counts down before a match.
    pub countdown_length_seconds: u32,
    /// The directories of the mods to load. No directory is listed twice.
    pub mods: Vec<String>,
    /// The directory for the server's logs, given relative to the configuration file.
    pub logs_dir: String,
    /// How the server renders.
    pub graphics_mode: GraphicsMode,
    /// When to restart the server, in cron notation.
    pub restart_schedule: Option<CronSchedule>,
    /// The most memory that the container may use, in bytes.
    pub perf_memory_limit_bytes: Option<i64>,
    /// The most memory and swap that the container may use, in bytes.
    pub perf_virtual_memory_limit_bytes: Option<i64>,
    /// The share of processor time that the container may use, in hundred-thousandths
    /// of one processor.
    pub perf_cpus: Option<i64>,
    /// The processors that the container may run on.
    pub perf_cpu_set: Option<String>,
    /// The playlist that the server runs.
    pub playlist: String,
    /// The game mode to start in.
    pub mode: Option<String>,
    /// The map to start on.
    pub map: Option<String>,
    /// The game mode that the lobby proposes.
    pub default_mode: Option<String>,
    /// The map that the lobby proposes.
    pub default_map: Option<String>,
    /// The tuning of the playlist.
    pub playlist_overrides: PlaylistOverrides,
    /// Further playlist variables, by name.
    pub extra_playlist_vars: LinkedHashMap<String, String>,
    /// Further console variables, by name.
    pub extra_vars: LinkedHashMap<String, String>,
    /// Further arguments for the game.
    pub extra_args: Vec<String>,
    /// Further directories to mount into the container.
    pub extra_binds: Vec<String>,
}

/// A resolved configuration, with each text as its characters and each map
/// as its entries in order.
pub struct FilledGameConfigView {
    pub docker_image: Seq<char>,
    pub game_dir: Seq<char>,
    pub description: Seq<char>,
    pub password: Seq<char>,
    pub tick_rate: TickRateView,
    pub update_rate: u32,
    pub min_update_rate: u32,
    pub report_to_master: bool,
    pub master_url: Seq<char>,
    pub allow_insecure: bool,
    pub use_sockets_for_loopback: bool,
    pub everything_unlocked: bool,
    pub should_return_to_lobby: bool,
    pub player_permissions: PrivateLobbyPlayerPermissions,
    pub only_host_can_start: bool,
    pub countdown_length_seconds: u32,
    pub mods: Seq<Seq<char>>,
    pub logs_dir: Seq<char>,
    pub graphics_mode: GraphicsMode,
    pub restart_schedule: Option<Seq<char>>,
    pub perf_memory_limit_bytes: Option<i64>,
    pub perf_virtual_memory_limit_bytes: Option<i64>,
    pub perf_cpus: Option<i64>,
    pub perf_cpu_set: Option<Seq<char>>,
    pub playlist: Seq<char>,
    pub mode: Option<Seq<char>>,
    pub map: Option<Seq<char>>,
    pub default_mode: Option<Seq<char>>,
    pub default_map: Option<Seq<char>>,
    pub playlist_overrides: PlaylistOverridesView,
    pub extra_playlist_vars: Seq<(Seq<char>, Seq<char>)>,
    pub extra_vars: Seq<(Seq<char>, Seq<char>)>,
    pub extra_args: Seq<Seq<char>>,
    pub extra_binds: Seq<Seq<char>>,
}

impl View for FilledGameConfig {
    type V = FilledGameConfigView;

    open spec fn view(&self) -> FilledGameConfigView {
        FilledGameConfigView {
            docker_image: self.docker_image@,
            game_dir: self.game_dir@,
            description: self.description@,
            password: self.password@,
            tick_rate: self.tick_rate@,
            update_rate: self.update_rate,
            min_update_rate: self.min_update_rate,
            report_to_master: self.report_to_master,
            master_url: self.master_url@,
            allow_insecure: self.allow_insecure,
            use_sockets_for_loopback: self.use_sockets_for_loopback,
            everything_unlocked: self.everything_unlocked,
            should_return_to_lobby: self.should_return_to_lobby,
            player_permissions: self.player_permissions,
            only_host_can_start: self.only_host_can_start,
            countdown_length_seconds: self.countdown_length_seconds,
            mods: texts(self.mods@),
            logs_dir: self.logs_dir@,
            graphics_mode: self.graphics_mode,
            restart_schedule: self.restart_schedule.deep_view(),
            perf_memory_limit_bytes: self.perf_memory_limit_bytes,
            perf_virtual_memory_limit_bytes: self.perf_virtual_memory_limit_bytes,
            perf_cpus: self.perf_cpus,
            perf_cpu_set: self.perf_cpu_set.deep_view(),
            playlist: self.playlist@,
            mode: self.mode.deep_view(),
            map: self.map.deep_view(),
            default_mode: self.default_mode.deep_view(),
            default_map: self.default_map.deep_view(),
            playlist_overrides: self.playlist_overrides@,
            extra_playlist_vars: entries(self.extra_playlist_vars),
            extra_vars: entries(self.extra_vars),
            extra_args: texts(self.extra_args@),
            extra_binds: texts(self.extra_binds@),
        }
    }
}

impl Clone for FilledGameConfig {
    fn clone(&self) -> (copy: Self)
        ensures
            copy@ == self@,
    {
        FilledGameConfig {
            docker_image: self.docker_image.clone(),
            game_dir: self.game_dir.clone(),
            description: self.description.clone(),
            password: self.password.clone(),
            tick_rate: self.tick_rate.clone(),
            update_rate: self.update_rate,
            min_update_rate: self.min_update_rate,
            report_to_master: self.report_to_master,
            master_url: self.master_url.clone(),
            allow_insecure: self.allow_insecure,
            use_sockets_for_loopback: self.use_sockets_for_loopback,
            everything_unlocked: self.everything_unlocked,
            should_return_to_lobby: self.should_return_to_lobby,
            player_permissions: self.player_permissions,
            only_host_can_start: self.only_host_can_start,
            countdown_length_seconds: self.countdown_length_seconds,
            mods: clone_list(&self.mods),
            logs_dir: self.logs_dir.clone(),
            graphics_mode: self.graphics_mode,
            restart_schedule: clone_schedule(&self.restart_schedule),
            perf_memory_limit_bytes: self.perf_memory_limit_bytes,
            perf_virtual_memory_limit_bytes: self.perf_virtual_memory_limit_bytes,
            perf_cpus: self.perf_cpus,
            perf_cpu_set: clone_text(&self.perf_cpu_set),
            playlist: self.playlist.clone(),
            mode: clone_text(&self.mode),
            map: clone_text(&self.map),
            default_mode: clone_text(&self.default_mode),
            default_map: clone_text(&self.default_map),
            playlist_overrides: self.playlist_overrides.clone(),
            extra_playlist_vars: clone_map(&self.extra_playlist_vars),
            extra_vars: clone_map(&self.extra_vars),
            extra_args: clone_list(&self.extra_args),
            extra_binds: clone_list(&self.extra_binds),
        }
    }
}

/// The configuration of a game server as it is declared: what is unset is
/// inherited.
#[derive(Debug, PartialEq)]
pub struct GameConfig {
    /// The container image that the server runs in.
    pub docker_image: Option<String>,
    /// The directory that holds the game, given relative to the configuration file.
    pub game_dir: Option<String>,
    /// What players read about the server.
    pub description: Option<String>,
    /// The password that players must give; empty for none.
    pub password: Option<String>,
    /// How often the server simulates, per second.
    pub tick_rate: Option<TickRate>,
    /// How often the server sends its state to each player, per second.
    pub update_rate: Option<u32>,
    /// The lowest update rate that a player may ask for.
    pub min_update_rate: Option<u32>,
    /// Whether the server registers with the master server.
    pub report_to_master: Option<bool>,
    /// Where the master server is.
    pub master_url: Option<String>,
    /// Whether players may join whom the master server does not vouch for.
    pub allow_insecure: Option<bool>,
    /// Whether the server talks to itself over sockets.
    pub use_sockets_for_loopback: Option<bool>,
    /// Whether every item is unlocked for every player.
    pub everything_unlocked: Option<bool>,
    /// Whether the server goes back to the lobby after a match.
    pub should_return_to_lobby: Option<bool>,
    /// What players may change in the lobby.
    pub player_permissions: Option<PrivateLobbyPlayerPermissions>,
    /// Whether only the host may start the match.
    pub only_host_can_start: Option<bool>,
    /// How long the lobby counts down before a match.
    pub countdown_length_seconds: Option<u32>,
    /// The directories of the mods to load. No directory is listed twice.
    pub mods: Vec<String>,
    /// The directory for the server's logs, given relative to the configuration file.
    pub logs_dir: Option<String>,
    /// How the server renders.
    pub graphics_mode: Option<GraphicsMode>,
    /// When to restart the server, in cron notation.
    pub restart_schedule: Option<CronSchedule>,
    /// The most memory that the container may use, in bytes.
    pub perf_memory_limit_bytes: Option<i64>,
    /// The most memory and swap that the container may use, in bytes.
    pub perf_virtual_memory_limit_bytes: Option<i64>,
    /// The share of processor time that the container may use, in hundred-thousandths
    /// of one processor.
    pub perf_cpus: Option<i64>,
    /// The processors that the container may run on.
    pub perf_cpu_set: Option<String>,
    /// The playlist that the server runs.
    pub playlist: Option<String>,
    /// The game mode to start in.
    pub mode: Option<String>,
    /// The map to start on.
    pub map: Option<String>,
    /// The game mode that the lobby proposes.
    pub default_mode: Option<String>,
    /// The map that the lobby proposes.
    pub default_map: Option<String>,
    /// The tuning of the playlist.
    pub playlist_overrides: PlaylistOverrides,
    /// Further playlist variables, by name.
    pub extra_playlist_vars: LinkedHashMap<String, String>,
    /// Further console variables, by name.
    pub extra_vars: LinkedHashMap<String, String>,
    /// Further arguments for the game.
    pub extra_args: Vec<String>,
    /// Further directories to mount into the container.
    pub extra_binds: Vec<String>,
}

/// A declared configuration, with each text as its characters and each map
/// as its entries in order.
pub struct GameConfigView {
    pub docker_image: Option<Seq<char>>,
    pub game_dir: Option<Seq<char>>,
    pub description: Option<Seq<char>>,
    pub password: Option<Seq<char>>,
    pub tick_rate: Option<TickRateView>,
    pub update_rate: Option<u32>,
    pub min_update_rate: Option<u32>,
    pub report_to_master: Option<bool>,
    pub master_url: Option<Seq<char>>,
    pub allow_insecure: Option<bool>,
    pub use_sockets_for_loopback: Option<bool>,
    pub everything_unlocked: Option<bool>,
    pub should_return_to_lobby: Option<bool>,
    pub player_permissions: Option<PrivateLobbyPlayerPermissions>,
    pub only_host_can_start: Option<bool>,
    pub countdown_length_seconds: Option<u32>,
    pub mods: Seq<Seq<char>>,
    pub logs_dir: Option<Seq<char>>,
    pub graphics_mode: Option<GraphicsMode>,
    pub restart_schedule: Option<Seq<char>>,
    pub perf_memory_limit_bytes: Option<i64>,
    pub perf_virtual_memory_limit_bytes: Option<i64>,
    pub perf_cpus: Option<i64>,
    pub perf_cpu_set: Option<Seq<char>>,
    pub playlist: Option<Seq<char>>,
    pub mode: Option<Seq<char>>,
    pub map: Option<Seq<char>>,
    pub default_mode: Option<Seq<char>>,
    pub default_map: Option<Seq<char>>,
    pub playlist_overrides: PlaylistOverridesView,
    pub extra_playlist_vars: Seq<(Seq<char>, Seq<char>)>,
    pub extra_vars: Seq<(Seq<char>, Seq<char>)>,
    pub extra_args: Seq<Seq<char>>,
    pub extra_binds: Seq<Seq<char>>,
}

impl View for GameConfig {
    type V = GameConfigView;

    open spec fn view(&self) -> GameConfigView {
        GameConfigView {
            docker_image: self.docker_image.deep_view(),
            game_dir: self.game_dir.deep_view(),
            description: self.description.deep_view(),
            password: self.password.deep_view(),
            tick_rate: self.tick_rate.deep_view(),
            update_rate: self.update_rate,
            min_update_rate: self.min_update_rate,
            report_to_master: self.report_to_master,
            master_url: self.master_url.deep_view(),
            allow_insecure: self.allow_insecure,
            use_sockets_for_loopback: self.use_sockets_for_loopback,
            everything_unlocked: self.everything_unlocked,
            should_return_to_lobby: self.should_return_to_lobby,
            player_permissions: self.player_permissions,
            only_host_can_start: self.only_host_can_start,
            countdown_length_seconds: self.countdown_length_seconds,
            mods: texts(self.mods@),
            logs_dir: self.logs_dir.deep_view(),
            graphics_mode: self.graphics_mode,
            restart_schedule: self.restart_schedule.deep_view(),
            perf_memory_limit_bytes: self.perf_memory_limit_bytes,
            perf_virtual_memory_limit_bytes: self.perf_virtual_memory_limit_bytes,
            perf_cpus: self.perf_cpus,
            perf_cpu_set: self.perf_cpu_set.deep_view(),
            playlist: self.playlist.deep_view(),
            mode: self.mode.deep_view(),
            map: self.map.deep_view(),
            default_mode: self.default_mode.deep_view(),
            default_map: self.default_map.deep_view(),
            playlist_overrides: self.playlist_overrides@,
            extra_playlist_vars: entries(self.extra_playlist_vars),
            extra_vars: entries(self.extra_vars),
            extra_args: texts(self.extra_args@),
            extra_binds: texts(self.extra_binds@),
        }
    }
}

impl GameConfigView {
    /// The configuration that sets nothing.
    pub open spec fn unset() -> GameConfigView {
        GameConfigView {
            docker_image: None,
            game_dir: None,
            description: None,
            password: None,
            tick_rate: None,
            update_rate: None,
            min_update_rate: None,
            report_to_master: None,
            master_url: None,
            allow_insecure: None,
            use_sockets_for_loopback: None,
            everything_unlocked: None,
            should_return_to_lobby: None,
            player_permissions: None,
            only_host_can_start: None,
            countdown_length_seconds: None,
            mods: Seq::empty(),
            logs_dir: None,
            graphics_mode: None,
            restart_schedule: None,
            perf_memory_limit_bytes: None,
            perf_virtual_memory_limit_bytes: None,
            perf_cpus: None,
            perf_cpu_set: None,
            playlist: None,
            mode: None,
            map: None,
            default_mode: None,
            default_map: None,
            playlist_overrides: PlaylistOverridesView::unset(),
            extra_playlist_vars: Seq::empty(),
            extra_vars: Seq::empty(),
            extra_args: Seq::empty(),
            extra_binds: Seq::empty(),
        }
    }

    /// This configuration, with `other` where this one sets nothing.
    ///
    /// A single setting is this one's where it is set, else the other's. The
    /// lists hold the other's items and then this one's. The maps hold the
    /// other's entries with this one's set over them, so that a name that
    /// both give has this one's value. The mods are those of both, each once.
    pub open spec fn or(self, other: GameConfigView) -> GameConfigView {
        GameConfigView {
            docker_image: first_of(self.docker_image, other.docker_image),
            game_dir: first_of(self.game_dir, other.game_dir),
            description: first_of(self.description, other.description),
            password: first_of(self.password, other.password),
            tick_rate: first_of(self.tick_rate, other.tick_rate),
            update_rate: first_of(self.update_rate, other.update_rate),
            min_update_rate: first_of(self.min_update_rate, other.min_update_rate),
            report_to_master: first_of(self.report_to_master, other.report_to_master),
            master_url: first_of(self.master_url, other.master_url),
            allow_insecure: first_of(self.allow_insecure, other.allow_insecure),
            use_sockets_for_loopback: first_of(
                self.use_sockets_for_loopback,
                other.use_sockets_for_loopback,
            ),
            everything_unlocked: first_of(self.everything_unlocked, other.everything_unlocked),
            should_return_to_lobby: first_of(
                self.should_return_to_lobby,
                other.should_return_to_lobby,
            ),
            player_permissions: first_of(self.player_permissions, other.player_permissions),
            only_host_can_start: first_of(self.only_host_can_start, other.only_host_can_start),
            countdown_length_seconds: first_of(
                self.countdown_length_seconds,
                other.countdown_length_seconds,
            ),
            mods: distinct(other.mods + self.mods),
            logs_dir: first_of(self.logs_dir, other.logs_dir),
            graphics_mode: first_of(self.graphics_mode, other.graphics_mode),
            restart_schedule: first_of(self.restart_schedule, other.restart_schedule),
            perf_memory_limit_bytes: first_of(
                self.perf_memory_limit_bytes,
                other.perf_memory_limit_bytes,
            ),
            perf_virtual_memory_limit_bytes: first_of(
                self.perf_virtual_memory_limit_bytes,
                other.perf_virtual_memory_limit_bytes,
            ),
            perf_cpus: first_of(self.perf_cpus, other.perf_cpus),
            perf_cpu_set: first_of(self.perf_cpu_set, other.perf_cpu_set),
            playlist: first_of(self.playlist, other.playlist),
            mode: first_of(self.mode, other.mode),
            map: first_of(self.map, other.map),
            default_mode: first_of(self.default_mode, other.default_mode),
            default_map: first_of(self.default_map, other.default_map),
            playlist_overrides: self.playlist_overrides.or(other.playlist_overrides),
            extra_playlist_vars: with_entries(other.extra_playlist_vars, self.extra_playlist_vars),
            extra_vars: with_entries(other.extra_vars, self.extra_vars),
            extra_args: other.extra_args + self.extra_args,
            extra_binds: other.extra_binds + self.extra_binds,
        }
    }

    /// This configuration with every setting resolved, for the server `id`
    /// whose configuration file stands in `config_dir`.
    ///
    /// What is unset gets its default. The directories are taken relative to
    /// `config_dir`; the logs go to `logs/` and the server's id where no
    /// directory is set for them.
    pub open spec fn fill(self, id: Seq<char>, config_dir: Seq<char>) -> FilledGameConfigView {
        FilledGameConfigView {
            docker_image: value_or(self.docker_image, ""@),
            game_dir: joined_path(config_dir, value_or(self.game_dir, ""@)),
            description: value_or(self.description, "Your favourite R2Wraith server"@),
            password: value_or(self.password, ""@),
            tick_rate: value_or(self.tick_rate, TickRate::standard()),
            update_rate: value_or(self.update_rate, 20),
            min_update_rate: value_or(self.min_update_rate, 20),
            report_to_master: value_or(self.report_to_master, true),
            master_url: value_or(self.master_url, "https://northstar.tf"@),
            allow_insecure: value_or(self.allow_insecure, false),
            use_sockets_for_loopback: value_or(self.use_sockets_for_loopback, true),
            everything_unlocked: value_or(self.everything_unlocked, true),
            should_return_to_lobby: value_or(self.should_return_to_lobby, true),
            player_permissions: value_or(
                self.player_permissions,
                PrivateLobbyPlayerPermissions::All,
            ),
            only_host_can_start: value_or(self.only_host_can_start, false),
            countdown_length_seconds: value_or(self.countdown_length_seconds, 15),
            mods: distinct(joined_all(config_dir, self.mods)),
            logs_dir: joined_path(config_dir, value_or(self.logs_dir, "logs/"@ + id)),
            graphics_mode: value_or(self.graphics_mode, GraphicsMode::Default),
            restart_schedule: self.restart_schedule,
            perf_memory_limit_bytes: self.perf_memory_limit_bytes,
            perf_virtual_memory_limit_bytes: self.perf_virtual_memory_limit_bytes,
            perf_cpus: self.perf_cpus,
            perf_cpu_set: self.perf_cpu_set,
            playlist: value_or(self.playlist, "private_match"@),
            mode: self.mode,
            map: self.map,
            default_mode: self.default_mode,
            default_map: self.default_map,
            playlist_overrides: self.playlist_overrides,
            extra_playlist_vars: self.extra_playlist_vars,
            extra_vars: self.extra_vars,
            extra_args: self.extra_args,
            extra_binds: self.extra_binds,
        }
    }
}

impl Default for GameConfig {
    fn default() -> (config: GameConfig)
        ensures
            config@ == GameConfigView::unset(),
    {
        let config = GameConfig {
            docker_image: None,
            game_dir: None,
            description: None,
            password: None,
            tick_rate: None,
            update_rate: None,
            min_update_rate: None,
            report_to_master: None,
            master_url: None,
            allow_insecure: None,
            use_sockets_for_loopback: None,
            everything_unlocked: None,
            should_return_to_lobby: None,
            player_permissions: None,
            only_host_can_start: None,
            countdown_length_seconds: None,
            mods: Vec::new(),
            logs_dir: None,
            graphics_mode: None,
            restart_schedule: None,
            perf_memory_limit_bytes: None,
            perf_virtual_memory_limit_bytes: None,
            perf_cpus: None,
            perf_cpu_set: None,
            playlist: None,
            mode: None,
            map: None,
            default_mode: None,
            default_map: None,
            playlist_overrides: PlaylistOverrides::default(),
            extra_playlist_vars: crate::ordered_map::new_map(),
            extra_vars: crate::ordered_map::new_map(),
            extra_args: Vec::new(),
            extra_binds: Vec::new(),
        };
        assert(texts(config.mods@) =~= Seq::empty());
        assert(texts(config.extra_args@) =~= Seq::empty());
        assert(texts(config.extra_binds@) =~= Seq::empty());
        config
    }
}

impl Clone for GameConfig {
    fn clone(&self) -> (copy: Self)
        ensures
            copy@ == self@,
    {
        GameConfig {
            docker_image: clone_text(&self.docker_image),
            game_dir: clone_text(&self.game_dir),
            description: clone_text(&self.description),
            password: clone_text(&self.password),
            tick_rate: clone_tick_rate(&self.tick_rate),
            update_rate: self.update_rate,
            min_update_rate: self.min_update_rate,
            report_to_master: self.report_to_master,
            master_url: clone_text(&self.master_url),
            allow_insecure: self.allow_insecure,
            use_sockets_for_loopback: self.use_sockets_for_loopback,
            everything_unlocked: self.everything_unlocked,
            should_return_to_lobby: self.should_return_to_lobby,
            player_permissions: self.player_permissions,
            only_host_can_start: self.only_host_can_start,
            countdown_length_seconds: self.countdown_length_seconds,
            mods: clone_list(&self.mods),
            logs_dir: clone_text(&self.logs_dir),
            graphics_mode: self.graphics_mode,
            restart_schedule: clone_schedule(&self.restart_schedule),
            perf_memory_limit_bytes: self.perf_memory_limit_bytes,
            perf_virtual_memory_limit_bytes: self.perf_virtual_memory_limit_bytes,
            perf_cpus: self.perf_cpus,
            perf_cpu_set: clone_text(&self.perf_cpu_set),
            playlist: clone_text(&self.playlist),
            mode: clone_text(&self.mode),
            map: clone_text(&self.map),
            default_mode: clone_text(&self.default_mode),
            default_map: clone_text(&self.default_map),
            playlist_overrides: self.playlist_overrides.clone(),
            extra_playlist_vars: clone_map(&self.extra_playlist_vars),
            extra_vars: clone_map(&self.extra_vars),
            extra_args: clone_list(&self.extra_args),
            extra_binds: clone_list(&self.extra_binds),
        }
    }
}

fn text_or(set: Option<String>, fallback: &str) -> (text: String)
    ensures
        text@ == value_or(set.deep_view(), fallback@),
{
    match set {
        Some(text) => text,
        None => String::from_str(fallback),
    }
}

fn number_or(set: Option<u32>, fallback: u32) -> (number: u32)
    ensures
        number == value_or(set, fallback),
{
    match set {
        Some(number) => number,
        None => fallback,
    }
}

fn flag_or(set: Option<bool>, fallback: bool) -> (flag: bool)
    ensures
        flag == value_or(set, fallback),
{
    match set {
        Some(flag) => flag,
        None => fallback,
    }
}

impl GameConfig {
    /// This configuration, with `other` where this one sets nothing.
    pub fn or(self, other: GameConfig) -> (merged: GameConfig)
        ensures
            merged@ == self@.or(other@),
    {
        let ghost mine = self@;
        let ghost theirs = other@;

        let mut mods: Vec<String> = Vec::new();
        assert(texts(mods@) =~= distinct(texts(mods@)));
        push_distinct(&mut mods, other.mods);
        proof {
            assert(texts(Seq::<String>::empty()) + theirs.mods =~= theirs.mods);
            lemma_distinct_twice(theirs.mods);
        }
        push_distinct(&mut mods, self.mods);
        proof {
            lemma_distinct_append(theirs.mods, mine.mods);
        }

        let mut extra_playlist_vars = other.extra_playlist_vars;
        insert_all(&mut extra_playlist_vars, to_pairs(&self.extra_playlist_vars));

        let mut extra_vars = other.extra_vars;
        insert_all(&mut extra_vars, to_pairs(&self.extra_vars));

        let mut extra_args = other.extra_args;
        let mut my_extra_args = self.extra_args;
        extra_args.append(&mut my_extra_args);
        assert(texts(extra_args@) =~= theirs.extra_args + mine.extra_args);

        let mut extra_binds = other.extra_binds;
        let mut my_extra_binds = self.extra_binds;
        extra_binds.append(&mut my_extra_binds);
        assert(texts(extra_binds@) =~= theirs.extra_binds + mine.extra_binds);

        GameConfig {
            docker_image: either(self.docker_image, other.docker_image),
            game_dir: either(self.game_dir, other.game_dir),
            description: either(self.description, other.description),
            password: either(self.password, other.password),
            tick_rate: either(self.tick_rate, other.tick_rate),
            update_rate: either(self.update_rate, other.update_rate),
            min_update_rate: either(self.min_update_rate, other.min_update_rate),
            report_to_master: either(self.report_to_master, other.report_to_master),
            master_url: either(self.master_url, other.master_url),
            allow_insecure: either(self.allow_insecure, other.allow_insecure),
            use_sockets_for_loopback: either(
                self.use_sockets_for_loopback,
                other.use_sockets_for_loopback,
            ),
            everything_unlocked: either(self.everything_unlocked, other.everything_unlocked),
            should_return_to_lobby: either(
                self.should_return_to_lobby,
                other.should_return_to_lobby,
            ),
            player_permissions: either(self.player_permissions, other.player_permissions),
            only_host_can_start: either(self.only_host_can_start, other.only_host_can_start),
            countdown_length_seconds: either(
                self.countdown_length_seconds,
                other.countdown_length_seconds,
            ),
            mods,
            logs_dir: either(self.logs_dir, other.logs_dir),
            graphics_mode: either(self.graphics_mode, other.graphics_mode),
            restart_schedule: either(self.restart_schedule, other.restart_schedule),
            perf_memory_limit_bytes: either(
                self.perf_memory_limit_bytes,
                other.perf_memory_limit_bytes,
            ),
            perf_virtual_memory_limit_bytes: either(
                self.perf_virtual_memory_limit_bytes,
                other.perf_virtual_memory_limit_bytes,
            ),
            perf_cpus: either(self.perf_cpus, other.perf_cpus),
            perf_cpu_set: either(self.perf_cpu_set, other.perf_cpu_set),
            playlist: either(self.playlist, other.playlist),
            mode: either(self.mode, other.mode),
            map: either(self.map, other.map),
            default_mode: either(self.default_mode, other.default_mode),
            default_map: either(self.default_map, other.default_map),
            playlist_overrides: self.playlist_overrides.or(other.playlist_overrides),
            extra_playlist_vars,
            extra_vars,
            extra_args,
            extra_binds,
        }
    }

    /// This configuration with every setting resolved, for the server `id`
    /// whose configuration file stands in `config_dir`.
    pub fn fill(self, id: &str, config_dir: &str) -> (filled: FilledGameConfig)
        ensures
            filled@ == self@.fill(id@, config_dir@),
    {
        let ghost raw = self@;

        let game_dir = join_path(config_dir, text_or(self.game_dir, "").as_str());

        let mut joined: Vec<String> = Vec::new();
        let mut i: usize = 0;
        while i < self.mods.len()
            invariant
                i <= self.mods.len(),
                texts(self.mods@) == raw.mods,
                joined@.len() == i,
                forall|k: int|
                    0 <= k < i ==> (#[trigger] joined@[k])@ == joined_path(
                        config_dir@,
                        self.mods@[k]@,
                    ),
            decreases self.mods.len() - i,
        {
            joined.push(join_path(config_dir, self.mods[i].as_str()));
            i = i + 1;
        }
        assert(texts(joined@) =~= joined_all(config_dir@, raw.mods));
        let mut mods: Vec<String> = Vec::new();
        assert(texts(mods@) =~= distinct(texts(mods@)));
        push_distinct(&mut mods, joined);
        assert(texts(Seq::<String>::empty()) + joined_all(config_dir@, raw.mods) =~= joined_all(
            config_dir@,
            raw.mods,
        ));

        let logs_dir = match self.logs_dir {
            Some(dir) => join_path(config_dir, dir.as_str()),
            None => join_path(config_dir, concat2("logs/", id).as_str()),
        };

        FilledGameConfig {
            docker_image: text_or(self.docker_image, ""),
            game_dir,
            description: text_or(self.description, "Your favourite R2Wraith server"),
            password: text_or(self.password, ""),
            tick_rate: match self.tick_rate {
                Some(rate) => rate,
                None => TickRate::sixty(),
            },
            update_rate: number_or(self.update_rate, 20),
            min_update_rate: number_or(self.min_update_rate, 20),
            report_to_master: flag_or(self.report_to_master, true),
            master_url: text_or(self.master_url, "https://northstar.tf"),
            allow_insecure: flag_or(self.allow_insecure, false),
            use_sockets_for_loopback: flag_or(self.use_sockets_for_loopback, true),
            everything_unlocked: flag_or(self.everything_unlocked, true),
            should_return_to_lobby: flag_or(self.should_return_to_lobby, true),
            player_permissions: match self.player_permissions {
                Some(permissions) => permissions,
                None => PrivateLobbyPlayerPermissions::All,
            },
            only_host_can_start: flag_or(self.only_host_can_start, false),
            countdown_length_seconds: number_or(self.countdown_length_seconds, 15),
            mods,
            logs_dir,
            graphics_mode: match self.graphics_mode {
                Some(mode) => mode,
                None => GraphicsMode::Default,
            },
            restart_schedule: self.restart_schedule,
            perf_memory_limit_bytes: self.perf_memory_limit_bytes,
            perf_virtual_memory_limit_bytes: self.perf_virtual_memory_limit_bytes,
            perf_cpus: self.perf_cpus,
            perf_cpu_set: self.perf_cpu_set,
            playlist: text_or(self.playlist, "private_match"),
            mode: self.mode,
            map: self.map,
            default_mode: self.default_mode,
            default_map: self.default_map,
            playlist_overrides: self.playlist_overrides,
            extra_playlist_vars: self.extra_playlist_vars,
            extra_vars: self.extra_vars,
            extra_args: self.extra_args,
            extra_binds: self.extra_binds,
        }
    }
}

/// Leaving out repeats neither adds a text nor loses one.
pub proof fn lemma_distinct_contains(list: Seq<Seq<char>>, text: Seq<char>)
    ensures
        distinct(list).contains(text) <==> list.contains(text),
    decreases list.len(),
{
    if list.len() > 0 {
        let init = list.drop_last();
        let last = list.last();
        lemma_distinct_contains(init, text);
        lemma_distinct_contains(init, last);
        if list.contains(text) {
            let i = choose|i: int| 0 <= i < list.len() && list[i] == text;
            if i < list.len() - 1 {
                assert(init[i] == text);
                assert(init.contains(text));
                let k = choose|k: int| 0 <= k < distinct(init).len() && distinct(init)[k] == text;
                assert(distinct(init).push(last)[k] == text);
            } else {
                assert(text == last);
                if !distinct(init).contains(last) {
                    let d = distinct(init).push(last);
                    assert(d[d.len() - 1] == text);
                }
            }
            assert(distinct(list).contains(text));
        }
        if distinct(list).contains(text) {
            let d = distinct(list);
            let i = choose|i: int| 0 <= i < d.len() && d[i] == text;
            if distinct(init).contains(last) || i < d.len() - 1 {
                assert(distinct(init)[i] == text);
                assert(distinct(init).contains(text));
                assert(init.contains(text));
                let j = choose|j: int| 0 <= j < init.len() && init[j] == text;
                assert(list[j] == text);
            } else {
                assert(list[list.len() - 1] == text);
            }
            assert(list.contains(text));
        }
    }
}

/// What is left after the repeats are gone holds no text twice.
pub proof fn lemma_distinct_has_no_repeats(list: Seq<Seq<char>>)
    ensures
        forall|i: int, j: int|
            0 <= i < j < distinct(list).len() ==> distinct(list)[i] != distinct(list)[j],
    decreases list.len(),
{
    if list.len() > 0 {
        let init = list.drop_last();
        lemma_distinct_has_no_repeats(init);
        if !distinct(init).contains(list.last()) {
            let d = distinct(init);
            assert forall|i: int, j: int| 0 <= i < j < d.len() + 1 implies d.push(list.last())[i]
                != d.push(list.last())[j] by {
                if j == d.len() {
                    assert(d[i] != list.last());
                }
            }
        }
    }
}

/// A list that holds each text once stays as it is.
pub proof fn lemma_distinct_twice(list: Seq<Seq<char>>)
    ensures
        distinct(distinct(list)) == distinct(list),
    decreases list.len(),
{
    if list.len() > 0 {
        let init = list.drop_last();
        lemma_distinct_twice(init);
        if !distinct(init).contains(list.last()) {
            let d = distinct(init);
            assert(d.push(list.last()).drop_last() =~= d);
        }
    }
}

/// Leaving out repeats in a first part beforehand changes nothing.
pub proof fn lemma_distinct_append(first: Seq<Seq<char>>, second: Seq<Seq<char>>)
    ensures
        distinct(distinct(first) + second) == distinct(first + second),
    decreases second.len(),
{
    if second.len() == 0 {
        assert(distinct(first) + second =~= distinct(first));
        assert(first + second =~= first);
        lemma_distinct_twice(first);
    } else {
        lemma_distinct_append(first, second.drop_last());
        assert((distinct(first) + second).drop_last() =~= distinct(first) + second.drop_last());
        assert((first + second).drop_last() =~= first + second.drop_last());
    }
}

/// A server as it is declared: its name for the players, the game port it
/// insists on, if any, and its configuration.
#[derive(Debug, PartialEq)]
pub struct InstanceConfig {
    pub name: String,
    pub game_port: Option<u16>,
    pub game_config: GameConfig,
}

/// A declared server with every setting resolved.
#[derive(Debug, PartialEq)]
pub struct FilledInstanceConfig {
    pub name: String,
    pub game_port: Option<u16>,
    pub game_config: FilledGameConfig,
}

/// A declared server, with each text as its characters.
pub struct InstanceConfigView {
    pub name: Seq<char>,
    pub game_port: Option<u16>,
    pub game_config: GameConfigView,
}

/// A resolved server, with each text as its characters.
pub struct FilledInstanceConfigView {
    pub name: Seq<char>,
    pub game_port: Option<u16>,
    pub game_config: FilledGameConfigView,
}

impl View for InstanceConfig {
    type V = InstanceConfigView;

    open spec fn view(&self) -> InstanceConfigView {
        InstanceConfigView {
            name: self.name@,
            game_port: self.game_port,
            game_config: self.game_config@,
        }
    }
}

impl View for FilledInstanceConfig {
    type V = FilledInstanceConfigView;

    open spec fn view(&self) -> FilledInstanceConfigView {
        FilledInstanceConfigView {
            name: self.name@,
            game_port: self.game_port,
            game_config: self.game_config@,
        }
    }
}

impl Clone for InstanceConfig {
    fn clone(&self) -> (copy: Self)
        ensures
            copy@ == self@,
    {
        InstanceConfig {
            name: self.name.clone(),
            game_port: self.game_port,
            game_config: self.game_config.clone(),
        }
    }
}

impl Clone for FilledInstanceConfig {
    fn clone(&self) -> (copy: Self)
        ensures
            copy@ == self@,
    {
        FilledInstanceConfig {
            name: self.name.clone(),
            game_port: self.game_port,
            game_config: self.game_config.clone(),
        }
    }
}

impl InstanceConfigView {
    /// The declared server with every setting resolved: what it leaves unset
    /// comes from `defaults`, and what both leave unset from the fallbacks.
    pub open spec fn make_filled(
        self,
        id: Seq<char>,
        defaults: GameConfigView,
        config_dir: Seq<char>,
    ) -> FilledInstanceConfigView {
        FilledInstanceConfigView {
            name: self.name,
            game_port: self.game_port,
            game_config: self.game_config.or(defaults).fill(id, config_dir),
        }
    }
}

impl InstanceConfig {
    /// Resolves every setting of the declared server `id`: what it leaves
    /// unset comes from `default_game_config`, and what both leave unset
    /// from the fallbacks.
    pub fn make_filled(self, id: &str, default_game_config: GameConfig, config_dir: &str) -> (filled:
        FilledInstanceConfig)
        ensures
            filled@ == self@.make_filled(id@, default_game_config@, config_dir@),
    {
        let game_config = self.game_config.or(default_game_config).fill(id, config_dir);
        FilledInstanceConfig { name: self.name, game_port: self.game_port, game_config }
    }
}

/// The time between two polls.
#[derive(Debug, Clone, Copy, PartialEq, Eq, Structural)]
pub struct PollInterval {
    pub secs: u64,
    pub nanos: u32,
}

/// The whole configuration file.
#[derive(Debug, PartialEq)]
pub struct Config {
    /// The time between two polls.
    pub poll_interval: PollInterval,
    /// The game ports that servers without a port of their own share.
    pub game_ports: RangeInclusive<u16>,
    /// What a server inherits where it sets nothing.
    pub defaults: GameConfig,
    /// The declared servers by their id, in the order of the file.
    pub servers: Vec<(String, InstanceConfig)>,
}

/// The time between two polls that is used when the configuration names
/// none: five seconds.
pub fn default_poll_interval() -> (interval: PollInterval)
    ensures
        interval == (PollInterval { secs: 5, nanos: 0 }),
{
    PollInterval { secs: 5, nanos: 0 }
}

/// `RangeInclusive::is_empty`: whether the pool holds no port at all. That
/// is so where its first port lies above its last one, and where the range
/// has been walked to its end.
#[verifier::external_body]
pub(crate) fn pool_is_empty(pool: &RangeInclusive<u16>) -> (empty: bool)
    ensures
        empty == (pool@.exhausted || pool@.start > pool@.end),
{
    pool.is_empty()
}

/// `RangeInclusive::start`: the first port of the pool. Of a range that has
/// been walked to its end, the standard library does not say what it gives.
#[verifier::external_body]
pub(crate) fn pool_start(pool: &RangeInclusive<u16>) -> (start: u16)
    ensures
        !pool@.exhausted ==> start == pool@.start,
{
    *pool.start()
}

/// `RangeInclusive::end`: the last port of the pool. Of a range that has
/// been walked to its end, the standard library does not say what it gives.
#[verifier::external_body]
pub(crate) fn pool_end(pool: &RangeInclusive<u16>) -> (end: u16)
    ensures
        !pool@.exhausted ==> end == pool@.end,
{
    *pool.end()
}

/// The pool of game ports that is used when the configuration names none.
pub fn default_game_ports() -> (ports: RangeInclusive<u16>)
    ensures
        ports@.start == 37015,
        ports@.end == 37020,
        !ports@.exhausted,
{
    37015..=37020
}

} // verus!
