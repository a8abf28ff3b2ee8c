//! The argument builder: flattens a server's configuration into the
//! environment of its container.
//!
//! The builder fills four buckets. Environment variables and console
//! variables are kept by name in the order in which they were first set, and
//! so are the playlist variables; the flags are kept in the order in which
//! they were switched on. `build` writes the environment variables one per
//! line and packs everything else into one more variable,
//! `NS_EXTRA_ARGUMENTS`, as a list of quoted tokens.

use crate::config::{
    BoostMeterOverdrive, Decimal, FilledGameConfig, FilledGameConfigView, GraphicsMode,
    PilotBleedout, PlaylistOverrides, PlaylistOverridesView, PrivateLobbyPlayerPermissions, Riff,
    TickRate,
};
use crate::ordered_map::{
    entries, insert, insert_all, new_map, pair_texts, remove, to_pairs, with_entries, with_entry,
    without_key,
};
use crate::text::{
    concat2, concat3, decimal, decimal_text, flag_string, flag_text, join, join_strings, quote,
    quoted, quoted_all, texts,
};
use linked_hash_map::LinkedHashMap;
use vstd::prelude::*;
use vstd::string::StringExecFns;

verus! {

/// The list without the given text.
pub open spec fn without_text(list: Seq<Seq<char>>, text: Seq<char>) -> Seq<Seq<char>>
    decreases list.len(),
{
    if list.len() == 0 {
        list
    } else if list.last() == text {
        without_text(list.drop_last(), text)
    } else {
        without_text(list.drop_last(), text).push(list.last())
    }
}

/// The list with the given text in it: behind the others, unless it stands
/// there already.
pub open spec fn with_text(list: Seq<Seq<char>>, text: Seq<char>) -> Seq<Seq<char>> {
    if list.contains(text) {
        list
    } else {
        list.push(text)
    }
}

/// The names and values one after the other: a name, its value, the next
/// name, its value.
pub open spec fn flattened(pairs: Seq<(Seq<char>, Seq<char>)>) -> Seq<Seq<char>>
    decreases pairs.len(),
{
    if pairs.len() == 0 {
        Seq::<Seq<char>>::empty()
    } else {
        flattened(pairs.drop_last()).push(pairs.last().0).push(pairs.last().1)
    }
}

/// The entries with a plus sign before each name.
pub open spec fn plus_names(pairs: Seq<(Seq<char>, Seq<char>)>) -> Seq<(Seq<char>, Seq<char>)> {
    Seq::new(pairs.len(), |i: int| ("+"@ + pairs[i].0, pairs[i].1))
}

/// How a flag that may be unset is written.
pub open spec fn flag_value(flag: Option<bool>) -> Option<Seq<char>> {
    match flag {
        Some(on) => Some(flag_text(on)),
        None => None,
    }
}

/// The flag the other way round.
pub open spec fn negated(flag: Option<bool>) -> Option<bool> {
    match flag {
        Some(on) => Some(!on),
        None => None,
    }
}

/// How a count that may be unset is written.
pub open spec fn count_value(count: Option<u32>) -> Option<Seq<char>> {
    match count {
        Some(n) => Some(decimal(n as nat)),
        None => None,
    }
}

/// How the bleedout mode is written: by its number.
pub open spec fn bleedout_value(mode: Option<PilotBleedout>) -> Option<Seq<char>> {
    match mode {
        Some(m) => Some(decimal(m.code())),
        None => None,
    }
}

/// How the overdrive setting is written: by its number.
pub open spec fn overdrive_value(setting: Option<BoostMeterOverdrive>) -> Option<Seq<char>> {
    match setting {
        Some(s) => Some(decimal(s.code())),
        None => None,
    }
}

/// How a riff is written: `1` where it is on, and not at all where it is
/// off.
pub open spec fn riff_value(on: bool) -> Option<Seq<char>> {
    if on {
        Some(flag_text(true))
    } else {
        None
    }
}

/// What a builder holds.
pub struct ArgBuilderView {
    /// The environment variables, by name.
    pub env: Seq<(Seq<char>, Seq<char>)>,
    /// The flags: arguments without a value.
    pub flags: Seq<Seq<char>>,
    /// The console variables, by name.
    pub args: Seq<(Seq<char>, Seq<char>)>,
    /// The playlist variables, by name.
    pub playlist: Seq<(Seq<char>, Seq<char>)>,
}

impl ArgBuilderView {
    /// Sets an environment variable, or takes it out where there is no value.
    pub open spec fn set_env(self, name: Seq<char>, value: Option<Seq<char>>) -> ArgBuilderView {
        ArgBuilderView {
            env: match value {
                Some(v) => with_entry(self.env, name, v),
                None => without_key(self.env, name),
            },
            ..self
        }
    }

    /// Sets a console variable, or takes it out where there is no value.
    pub open spec fn set_arg(self, name: Seq<char>, value: Option<Seq<char>>) -> ArgBuilderView {
        ArgBuilderView {
            args: match value {
                Some(v) => with_entry(self.args, name, v),
                None => without_key(self.args, name),
            },
            ..self
        }
    }

    /// Sets a playlist variable, or takes it out where there is no value.
    pub open spec fn set_var(self, name: Seq<char>, value: Option<Seq<char>>) -> ArgBuilderView {
        ArgBuilderView {
            playlist: match value {
                Some(v) => with_entry(self.playlist, name, v),
                None => without_key(self.playlist, name),
            },
            ..self
        }
    }

    /// Switches a flag on or off.
    pub open spec fn set_flag(self, flag: Seq<char>, on: bool) -> ArgBuilderView {
        ArgBuilderView {
            flags: if on {
                with_text(self.flags, flag)
            } else {
                without_text(self.flags, flag)
            },
            ..self
        }
    }

    /// What a new builder holds: logging to the console is off.
    pub open spec fn start() -> ArgBuilderView {
        ArgBuilderView {
            env: Seq::empty(),
            flags: Seq::empty(),
            args: Seq::empty(),
            playlist: Seq::empty(),
        }.set_arg("+spewlog_enable"@, Some(flag_text(false)))
    }

    /// The update rate, and the number of snapshots that goes with it:
    /// fifteen times the rate.
    pub open spec fn set_update_rate(self, update_rate: u32) -> ArgBuilderView {
        self.set_arg("+sv_updaterate_mp"@, Some(decimal(update_rate as nat))).set_arg(
            "+sv_max_snapshots_multiplayer"@,
            Some(decimal((update_rate * 15) as nat)),
        )
    }

    /// The riffs: each one that is on is written as `1`, and none that is off.
    pub open spec fn set_riffs(self, riffs: Set<Riff>) -> ArgBuilderView {
        self
            .set_var("riff_floorislava"@, riff_value(riffs.contains(Riff::FloorIsLava)))
            .set_var("featured_mode_all_holopilot"@, riff_value(riffs.contains(Riff::AllHolopilot)))
            .set_var("featured_mode_all_grapple"@, riff_value(riffs.contains(Riff::AllGrapple)))
            .set_var("featured_mode_all_phase"@, riff_value(riffs.contains(Riff::AllPhase)))
            .set_var("featured_mode_all_ticks"@, riff_value(riffs.contains(Riff::AllTicks)))
            .set_var("featured_mode_tactikill"@, riff_value(riffs.contains(Riff::Tactikill)))
            .set_var(
                "featured_mode_amped_tacticals"@,
                riff_value(riffs.contains(Riff::AmpedTacticals)),
            )
            .set_var("featured_mode_rocket_arena"@, riff_value(riffs.contains(Riff::RocketArena)))
            .set_var(
                "featured_mode_shotguns_snipers"@,
                riff_value(riffs.contains(Riff::ShotgunsSnipers)),
            )
            .set_var("iron_rules"@, riff_value(riffs.contains(Riff::IronRules)))
            .set_var("fp_embark_enabled"@, riff_value(riffs.contains(Riff::FirstPersonEmbark)))
            .set_var("riff_instagib"@, riff_value(riffs.contains(Riff::Instagib)))
    }

    /// The tuning of the match.
    pub open spec fn set_match_overrides(self, o: PlaylistOverridesView) -> ArgBuilderView {
        self
            .set_var("classic_mp"@, flag_value(o.match_classic_mp_enabled))
            .set_var("run_epilogue"@, flag_value(o.match_epilogue_enabled))
            .set_var("scorelimit"@, o.match_scorelimit)
            .set_var("roundscorelimit"@, o.match_round_scorelimit)
            .set_var("timelimit"@, o.match_timelimit)
            .set_var("roundtimelimit"@, o.match_round_timelimit)
            .set_var("oob_timer_enabled"@, flag_value(o.match_oob_timer_enabled))
            .set_var("max_players"@, count_value(o.match_max_players))
            .set_flag("-maxplayersplaylist"@, o.match_max_players is Some)
    }

    /// The tuning of titans.
    pub open spec fn set_titan_overrides(self, o: PlaylistOverridesView) -> ArgBuilderView {
        self
            .set_var("earn_meter_titan_multiplier"@, o.titan_boost_meter_multiplier)
            .set_var("aegis_upgrades"@, flag_value(o.titan_aegis_upgrades_enabled))
            .set_var("infinite_doomed_state"@, flag_value(o.titan_infinite_doomed_state_enabled))
            .set_var("titan_shield_regen"@, flag_value(o.titan_shield_regen_enabled))
            .set_var("classic_rodeo"@, flag_value(o.titan_classic_rodeo_enabled))
    }

    /// The tuning of bleeding out.
    pub open spec fn set_bleedout_overrides(self, o: PlaylistOverridesView) -> ArgBuilderView {
        self
            .set_var("riff_player_bleedout"@, bleedout_value(o.pilot_bleedout_mode))
            .set_var(
                "player_bleedout_forceHolster"@,
                flag_value(o.pilot_bleedout_holster_when_down),
            )
            .set_var(
                "player_bleedout_forceDeathOnTeamBleedout"@,
                flag_value(o.pilot_bleedout_die_on_team_bleedout),
            )
            .set_var("player_bleedout_bleedoutTime"@, o.pilot_bleedout_bleedout_time)
            .set_var("player_bleedout_firstAidTime"@, o.pilot_bleedout_firstaid_time)
            .set_var("player_bleedout_firstAidTimeSelf"@, o.pilot_bleedout_selfres_time)
            .set_var("player_bleedout_firstAidHealPercent"@, o.pilot_bleedout_firstaid_heal_percent)
            .set_var(
                "player_bleedout_aiBleedingPlayerMissChance"@,
                o.pilot_bleedout_down_ai_miss_chance,
            )
    }

    /// The tuning of pilots.
    pub open spec fn set_pilot_overrides(self, o: PlaylistOverridesView) -> ArgBuilderView {
        self
            .set_var("promode_enable"@, flag_value(o.promode_weapons_enabled))
            .set_var("pilot_health_multiplier"@, o.pilot_health_multiplier)
            .set_var("respawn_delay"@, o.pilot_respawn_delay)
            .set_var("boosts_enabled"@, flag_value(negated(o.pilot_boosts_enabled)))
            .set_var("earn_meter_pilot_overdrive"@, overdrive_value(o.pilot_boost_meter_overdrive))
            .set_var("earn_meter_pilot_multiplier"@, o.pilot_boost_meter_multiplier)
            .set_var("custom_air_accel_pilot"@, o.pilot_air_acceleration)
            .set_var("no_pilot_collision"@, flag_value(negated(o.pilot_collision_enabled)))
    }

    /// The whole tuning of the playlist. A flag is written as `0` or `1`; two
    /// are written the other way round, as the game has them: boosts and
    /// collisions between pilots. A limit on the number of players also
    /// switches on `-maxplayersplaylist`.
    pub open spec fn set_playlist_overrides(self, o: PlaylistOverridesView) -> ArgBuilderView {
        self.set_riffs(o.riffs).set_match_overrides(o).set_titan_overrides(o).set_bleedout_overrides(
            o,
        ).set_pilot_overrides(o)
    }

    /// Further playlist variables, set over those that are there.
    pub open spec fn add_extra_playlist_vars(self, vars: Seq<(Seq<char>, Seq<char>)>) -> ArgBuilderView {
        ArgBuilderView { playlist: with_entries(self.playlist, vars), ..self }
    }

    /// Further console variables, each with a plus sign before its name.
    pub open spec fn add_extra_vars(self, vars: Seq<(Seq<char>, Seq<char>)>) -> ArgBuilderView {
        ArgBuilderView { args: with_entries(self.args, plus_names(vars)), ..self }
    }

    /// What the game is told of how it is run.
    pub open spec fn set_server_settings(self, config: FilledGameConfigView) -> ArgBuilderView {
        self.set_env("NS_SERVER_DESC"@, Some(config.description)).set_env(
            "NS_SERVER_PASSWORD"@,
            Some(config.password),
        ).set_arg("+base_tickinterval_mp"@, Some(config.tick_rate.interval)).set_update_rate(
            config.update_rate,
        ).set_env("NS_MASTERSERVER_REGISTER"@, Some(flag_text(config.report_to_master))).set_env(
            "NS_MASTERSERVER_URL"@,
            Some(config.master_url),
        ).set_env("NS_INSECURE"@, Some(flag_text(config.allow_insecure))).set_arg(
            "+net_usesocketsforloopback"@,
            Some(flag_text(config.use_sockets_for_loopback)),
        ).set_arg("+everything_unlocked"@, Some(flag_text(config.everything_unlocked))).set_arg(
            "+ns_should_return_to_lobby"@,
            Some(flag_text(config.should_return_to_lobby)),
        ).set_arg(
            "+ns_private_match_only_host_can_change_settings"@,
            Some(decimal(config.player_permissions.code())),
        ).set_arg(
            "+ns_private_match_only_host_can_start"@,
            Some(flag_text(config.only_host_can_start)),
        ).set_arg(
            "+ns_private_match_countdown_length"@,
            Some(decimal(config.countdown_length_seconds as nat)),
        ).set_flag("-softwared3d11"@, config.graphics_mode == GraphicsMode::Software)
    }

    /// What the game is told of what to play.
    pub open spec fn set_match_settings(self, config: FilledGameConfigView) -> ArgBuilderView {
        self.set_arg("+setplaylist"@, Some(config.playlist)).set_arg(
            "+mp_gamemode"@,
            config.mode,
        ).set_arg("+map"@, config.map).set_arg(
            "+ns_private_match_last_mode"@,
            config.default_mode,
        ).set_arg("+ns_private_match_last_map"@, config.default_map)
    }

    /// The whole configuration of a server. The builder is told neither the
    /// lowest update rate nor the further arguments of the configuration.
    pub open spec fn set_game_config(self, config: FilledGameConfigView) -> ArgBuilderView {
        self.set_server_settings(config).set_match_settings(config).set_playlist_overrides(
            config.playlist_overrides,
        ).add_extra_playlist_vars(config.extra_playlist_vars).add_extra_vars(config.extra_vars)
    }

    /// The tokens behind `NS_EXTRA_ARGUMENTS`: the flags, then each console
    /// variable and its value, then `+setplaylistvaroverrides` and, as one
    /// token, the playlist variables with their values, a space between each
    /// two.
    pub open spec fn extra_arguments(self) -> Seq<Seq<char>> {
        (self.flags + flattened(self.args)).push("+setplaylistvaroverrides"@).push(
            join(flattened(self.playlist), " "@),
        )
    }

    /// The environment that the builder stands for: its environment
    /// variables, and `NS_EXTRA_ARGUMENTS` with every token between quotes
    /// and a space between each two.
    pub open spec fn environment(self) -> Seq<(Seq<char>, Seq<char>)> {
        with_entry(
            self.env,
            "NS_EXTRA_ARGUMENTS"@,
            join(quoted_all(self.extra_arguments()), " "@),
        )
    }

    /// The environment as lines of the form `NAME=value`.
    pub open spec fn lines(self) -> Seq<Seq<char>> {
        env_lines(self.environment())
    }
}

/// An entry under another name than `key` is still there when `key` has
/// been taken out.
pub proof fn lemma_without_key_keeps(s: Seq<(Seq<char>, Seq<char>)>, key: Seq<char>, i: int) -> (j:
    int)
    requires
        0 <= i < s.len(),
        s[i].0 != key,
    ensures
        0 <= j < without_key(s, key).len(),
        without_key(s, key)[j] == s[i],
    decreases s.len(),
{
    let init = s.drop_last();
    if i == s.len() - 1 {
        without_key(init, key).len() as int
    } else {
        let j = lemma_without_key_keeps(init, key, i);
        assert(without_key(s, key)[j] == without_key(init, key)[j]);
        j
    }
}

impl ArgBuilderView {
    /// The tokens behind `NS_EXTRA_ARGUMENTS` end with
    /// `+setplaylistvaroverrides` and the playlist variables as one token.
    /// That token is empty where there are no playlist variables.
    pub proof fn lemma_overrides_are_always_there(self)
        ensures
            self.extra_arguments().len() >= 2,
            self.extra_arguments()[self.extra_arguments().len() - 2]
                == "+setplaylistvaroverrides"@,
            self.extra_arguments().last() == join(flattened(self.playlist), " "@),
            self.playlist.len() == 0 ==> self.extra_arguments().last() == Seq::<char>::empty(),
    {
    }

    /// The last line of the environment is `NS_EXTRA_ARGUMENTS`, and its
    /// value is every token between double quotes, with a space between
    /// each two.
    pub proof fn lemma_extra_arguments_are_quoted(self)
        ensures
            self.lines().len() >= 1,
            self.lines().last() == "NS_EXTRA_ARGUMENTS"@ + "="@ + join(
                quoted_all(self.extra_arguments()),
                " "@,
            ),
            quoted_all(self.extra_arguments()).len() == self.extra_arguments().len(),
            forall|i: int|
                0 <= i < self.extra_arguments().len() ==> (#[trigger] quoted_all(
                    self.extra_arguments(),
                )[i]) == quoted(self.extra_arguments()[i]),
    {
    }

    /// Each environment variable of the builder has a line of its own.
    pub proof fn lemma_env_vars_have_lines(self, i: int)
        requires
            0 <= i < self.env.len(),
            self.env[i].0 != "NS_EXTRA_ARGUMENTS"@,
        ensures
            self.lines().contains(self.env[i].0 + "="@ + self.env[i].1),
    {
        let j = lemma_without_key_keeps(self.env, "NS_EXTRA_ARGUMENTS"@, i);
        assert(self.environment()[j] == self.env[i]);
        assert(self.lines()[j] == self.env[i].0 + "="@ + self.env[i].1);
    }
}

/// Each entry as a line of the form `NAME=value`.
pub open spec fn env_lines(env: Seq<(Seq<char>, Seq<char>)>) -> Seq<Seq<char>> {
    Seq::new(env.len(), |i: int| env[i].0 + "="@ + env[i].1)
}

fn flag_option(flag: Option<bool>) -> (value: Option<String>)
    ensures
        value.deep_view() == flag_value(flag),
{
    match flag {
        Some(on) => Some(flag_string(on)),
        None => None,
    }
}

fn negate(flag: Option<bool>) -> (other: Option<bool>)
    ensures
        other == negated(flag),
{
    match flag {
        Some(on) => Some(!on),
        None => None,
    }
}

fn count_option(count: Option<u32>) -> (value: Option<String>)
    ensures
        value.deep_view() == count_value(count),
{
    match count {
        Some(n) => Some(decimal_text(n as u64)),
        None => None,
    }
}

fn decimal_option(number: Option<Decimal>) -> (value: Option<String>)
    ensures
        value.deep_view() == number.deep_view(),
{
    match number {
        Some(n) => Some(n.text),
        None => None,
    }
}

fn bleedout_option(mode: Option<PilotBleedout>) -> (value: Option<String>)
    ensures
        value.deep_view() == bleedout_value(mode),
{
    match mode {
        Some(m) => Some(decimal_text(m.number())),
        None => None,
    }
}

fn overdrive_option(setting: Option<BoostMeterOverdrive>) -> (value: Option<String>)
    ensures
        value.deep_view() == overdrive_value(setting),
{
    match setting {
        Some(s) => Some(decimal_text(s.number())),
        None => None,
    }
}

fn riff_option(on: bool) -> (value: Option<String>)
    ensures
        value.deep_view() == riff_value(on),
{
    if on {
        Some(flag_string(true))
    } else {
        None
    }
}

fn list_position(list: &Vec<String>, text: &str) -> (found: Option<usize>)
    ensures
        found matches Some(i) ==> i < list.len() && list@[i as int]@ == text@,
        found is None ==> !texts(list@).contains(text@),
{
    let wanted = String::from_str(text);
    let mut i: usize = 0;
    while i < list.len()
        invariant
            i <= list.len(),
            wanted@ == text@,
            forall|k: int| 0 <= k < i ==> texts(list@)[k] != text@,
        decreases list.len() - i,
    {
        if list[i] == wanted {
            return Some(i);
        }
        i = i + 1;
    }
    None
}

/// Takes every copy of the text out of the list.
fn remove_text(list: Vec<String>, text: &str) -> (kept: Vec<String>)
    ensures
        texts(kept@) == without_text(texts(list@), text@),
{
    let wanted = String::from_str(text);
    let ghost all = texts(list@);
    let ghost mut n: int = 0;
    let mut rest = list;
    let mut kept: Vec<String> = Vec::new();
    assert(texts(kept@) =~= without_text(all.take(0), text@));
    while rest.len() > 0
        invariant
            0 <= n,
            wanted@ == text@,
            n + rest.len() == all.len(),
            texts(rest@) =~= all.skip(n),
            texts(kept@) == without_text(all.take(n), text@),
        decreases rest.len(),
    {
        let ghost before = rest@;
        let item = rest.remove(0);
        proof {
            assert(texts(before)[0] == all.skip(n)[0]);
            assert forall|i: int| 0 <= i < rest@.len() implies texts(rest@)[i] == all.skip(n + 1)[i] by {
                assert(rest@[i] == before[i + 1]);
                assert(texts(before)[i + 1] == all.skip(n)[i + 1]);
            }
            assert(texts(rest@) =~= all.skip(n + 1));
            assert(all.take(n + 1).drop_last() =~= all.take(n));
            assert(all.take(n + 1).last() == item@);
        }
        if !(item == wanted) {
            let ghost held = texts(kept@);
            kept.push(item);
            assert(texts(kept@) =~= held.push(item@));
        }
        proof {
            n = n + 1;
        }
    }
    assert(all.take(n) =~= all);
    kept
}

/// Appends each name and its value to the list.
fn push_flattened(list: &mut Vec<String>, pairs: Vec<(String, String)>)
    ensures
        texts(final(list)@) == texts(old(list)@) + flattened(pair_texts(pairs@)),
{
    let ghost start = texts(list@);
    let ghost all = pair_texts(pairs@);
    let ghost mut n: int = 0;
    let mut rest = pairs;
    assert(start + flattened(all.take(0)) =~= start);
    while rest.len() > 0
        invariant
            0 <= n,
            n + rest.len() == all.len(),
            pair_texts(rest@) =~= all.skip(n),
            texts(list@) == start + flattened(all.take(n)),
        decreases rest.len(),
    {
        let ghost before = rest@;
        let ghost held = texts(list@);
        let pair = rest.remove(0);
        proof {
            assert(pair_texts(before)[0] == all.skip(n)[0]);
            assert forall|i: int| 0 <= i < rest@.len() implies pair_texts(rest@)[i] == all.skip(
                n + 1,
            )[i] by {
                assert(rest@[i] == before[i + 1]);
                assert(pair_texts(before)[i + 1] == all.skip(n)[i + 1]);
            }
            assert(pair_texts(rest@) =~= all.skip(n + 1));
            assert(all.take(n + 1).drop_last() =~= all.take(n));
            assert(all.take(n + 1).last() == (pair.0@, pair.1@));
        }
        list.push(pair.0);
        list.push(pair.1);
        proof {
            assert(texts(list@) =~= held.push(pair.0@).push(pair.1@));
            assert(start + flattened(all.take(n + 1)) =~= held.push(pair.0@).push(pair.1@));
            n = n + 1;
        }
    }
    assert(all.take(n) =~= all);
}

/// Builds the environment of a game server's container.
#[derive(Debug)]
pub struct ArgBuilder {
    kv_env_args: LinkedHashMap<String, String>,
    flag_args: Vec<String>,
    kv_args: LinkedHashMap<String, String>,
    playlist_vars: LinkedHashMap<String, String>,
}

impl View for ArgBuilder {
    type V = ArgBuilderView;

    closed spec fn view(&self) -> ArgBuilderView {
        ArgBuilderView {
            env: entries(self.kv_env_args),
            flags: texts(self.flag_args@),
            args: entries(self.kv_args),
            playlist: entries(self.playlist_vars),
        }
    }
}

impl Clone for ArgBuilder {
    fn clone(&self) -> (copy: Self)
        ensures
            copy@ == self@,
    {
        ArgBuilder {
            kv_env_args: crate::ordered_map::clone_map(&self.kv_env_args),
            flag_args: crate::config::clone_list(&self.flag_args),
            kv_args: crate::ordered_map::clone_map(&self.kv_args),
            playlist_vars: crate::ordered_map::clone_map(&self.playlist_vars),
        }
    }
}

impl ArgBuilder {
    /// A builder that holds nothing but the switch that keeps the game from
    /// logging to its console.
    pub fn new() -> (builder: Self)
        ensures
            builder@ == ArgBuilderView::start(),
    {
        let builder = ArgBuilder {
            kv_env_args: new_map(),
            flag_args: Vec::new(),
            kv_args: new_map(),
            playlist_vars: new_map(),
        };
        assert(texts(builder.flag_args@) =~= Seq::empty());
        builder.set_kv("+spewlog_enable", Some(flag_string(false)))
    }

    fn set_flag(self, key: &str, is_enabled: bool) -> (builder: Self)
        ensures
            builder@ == self@.set_flag(key@, is_enabled),
    {
        let mut builder = self;
        if is_enabled {
            match list_position(&builder.flag_args, key) {
                Some(i) => {
                    assert(texts(builder.flag_args@)[i as int] == key@);
                },
                None => {
                    let ghost held = texts(builder.flag_args@);
                    builder.flag_args.push(String::from_str(key));
                    assert(texts(builder.flag_args@) =~= held.push(key@));
                },
            }
        } else {
            builder.flag_args = remove_text(builder.flag_args, key);
        }
        builder
    }

    fn set_kv_env(self, key: &str, value: Option<String>) -> (builder: Self)
        ensures
            builder@ == self@.set_env(key@, value.deep_view()),
    {
        let mut builder = self;
        match value {
            Some(val) => insert(&mut builder.kv_env_args, String::from_str(key), val),
            None => remove(&mut builder.kv_env_args, key),
        }
        builder
    }

    fn set_kv(self, key: &str, value: Option<String>) -> (builder: Self)
        ensures
            builder@ == self@.set_arg(key@, value.deep_view()),
    {
        let mut builder = self;
        match value {
            Some(val) => insert(&mut builder.kv_args, String::from_str(key), val),
            None => remove(&mut builder.kv_args, key),
        }
        builder
    }

    fn set_playlist_var(self, key: &str, value: Option<String>) -> (builder: Self)
        ensures
            builder@ == self@.set_var(key@, value.deep_view()),
    {
        let mut builder = self;
        match value {
            Some(val) => insert(&mut builder.playlist_vars, String::from_str(key), val),
            None => remove(&mut builder.playlist_vars, key),
        }
        builder
    }

    /// The name that players see.
    pub fn set_name(self, name: String) -> (builder: Self)
        ensures
            builder@ == self@.set_env("NS_SERVER_NAME"@, Some(name@)),
    {
        self.set_kv_env("NS_SERVER_NAME", Some(name))
    }

    /// The port on which players are authenticated.
    pub fn set_auth_port(self, auth_port: u16) -> (builder: Self)
        ensures
            builder@ == self@.set_env("NS_PORT_AUTH"@, Some(decimal(auth_port as nat))),
    {
        self.set_kv_env("NS_PORT_AUTH", Some(decimal_text(auth_port as u64)))
    }

    /// The port on which the game is played.
    pub fn set_game_port(self, game_port: u16) -> (builder: Self)
        ensures
            builder@ == self@.set_env("NS_PORT"@, Some(decimal(game_port as nat))),
    {
        self.set_kv_env("NS_PORT", Some(decimal_text(game_port as u64)))
    }

    /// What players read about the server.
    pub fn set_description(self, description: String) -> (builder: Self)
        ensures
            builder@ == self@.set_env("NS_SERVER_DESC"@, Some(description@)),
    {
        self.set_kv_env("NS_SERVER_DESC", Some(description))
    }

    /// The password that players must give.
    pub fn set_password(self, password: String) -> (builder: Self)
        ensures
            builder@ == self@.set_env("NS_SERVER_PASSWORD"@, Some(password@)),
    {
        self.set_kv_env("NS_SERVER_PASSWORD", Some(password))
    }

    /// The tick rate. The game is told the length of one tick.
    pub fn set_tick_rate(self, tick_rate: TickRate) -> (builder: Self)
        ensures
            builder@ == self@.set_arg("+base_tickinterval_mp"@, Some(tick_rate@.interval)),
    {
        self.set_kv("+base_tickinterval_mp", Some(tick_rate.interval.text))
    }

    /// The update rate, and with it the number of snapshots that the game
    /// keeps: fifteen times the rate.
    pub fn set_update_rate(self, update_rate: u32) -> (builder: Self)
        ensures
            builder@ == self@.set_update_rate(update_rate),
    {
        let snapshots: u64 = (update_rate as u64) * 15;
        self.set_kv("+sv_updaterate_mp", Some(decimal_text(update_rate as u64))).set_kv(
            "+sv_max_snapshots_multiplayer",
            Some(decimal_text(snapshots)),
        )
    }

    /// The lowest update rate that a player may ask for.
    pub fn set_min_update_rate(self, min_update_rate: u32) -> (builder: Self)
        ensures
            builder@ == self@.set_arg("+sv_minupdaterate"@, Some(decimal(min_update_rate as nat))),
    {
        self.set_kv("+sv_minupdaterate", Some(decimal_text(min_update_rate as u64)))
    }

    /// Whether the server registers with the master server.
    pub fn set_report_to_master(self, report_to_master: bool) -> (builder: Self)
        ensures
            builder@ == self@.set_env(
                "NS_MASTERSERVER_REGISTER"@,
                Some(flag_text(report_to_master)),
            ),
    {
        self.set_kv_env("NS_MASTERSERVER_REGISTER", Some(flag_string(report_to_master)))
    }

    /// Where the master server is.
    pub fn set_master_url(self, master_url: String) -> (builder: Self)
        ensures
            builder@ == self@.set_env("NS_MASTERSERVER_URL"@, Some(master_url@)),
    {
        self.set_kv_env("NS_MASTERSERVER_URL", Some(master_url))
    }

    /// Whether players may join whom the master server does not vouch for.
    pub fn set_allow_insecure(self, allow_insecure: bool) -> (builder: Self)
        ensures
            builder@ == self@.set_env("NS_INSECURE"@, Some(flag_text(allow_insecure))),
    {
        self.set_kv_env("NS_INSECURE", Some(flag_string(allow_insecure)))
    }

    /// Whether the server talks to itself over sockets.
    pub fn set_use_sockets_for_loopback(self, use_sockets_for_loopback: bool) -> (builder: Self)
        ensures
            builder@ == self@.set_arg(
                "+net_usesocketsforloopback"@,
                Some(flag_text(use_sockets_for_loopback)),
            ),
    {
        self.set_kv("+net_usesocketsforloopback", Some(flag_string(use_sockets_for_loopback)))
    }

    /// Whether every item is unlocked for every player.
    pub fn set_everything_unlocked(self, everything_unlocked: bool) -> (builder: Self)
        ensures
            builder@ == self@.set_arg(
                "+everything_unlocked"@,
                Some(flag_text(everything_unlocked)),
            ),
    {
        self.set_kv("+everything_unlocked", Some(flag_string(everything_unlocked)))
    }

    /// Whether the server goes back to the lobby after a match.
    pub fn set_should_return_to_lobby(self, should_return_to_lobby: bool) -> (builder: Self)
        ensures
            builder@ == self@.set_arg(
                "+ns_should_return_to_lobby"@,
                Some(flag_text(should_return_to_lobby)),
            ),
    {
        self.set_kv("+ns_should_return_to_lobby", Some(flag_string(should_return_to_lobby)))
    }

    /// What players may change in the lobby, by its number.
    pub fn set_player_permissions(self, player_permissions: PrivateLobbyPlayerPermissions) -> (builder:
        Self)
        ensures
            builder@ == self@.set_arg(
                "+ns_private_match_only_host_can_change_settings"@,
                Some(decimal(player_permissions.code())),
            ),
    {
        self.set_kv(
            "+ns_private_match_only_host_can_change_settings",
            Some(decimal_text(player_permissions.number())),
        )
    }

    /// Whether only the host may start the match.
    pub fn set_only_host_can_start(self, only_host_can_start: bool) -> (builder: Self)
        ensures
            builder@ == self@.set_arg(
                "+ns_private_match_only_host_can_start"@,
                Some(flag_text(only_host_can_start)),
            ),
    {
        self.set_kv("+ns_private_match_only_host_can_start", Some(flag_string(only_host_can_start)))
    }

    /// How long the lobby counts down before a match.
    pub fn set_countdown_length_seconds(self, countdown_length_seconds: u32) -> (builder: Self)
        ensures
            builder@ == self@.set_arg(
                "+ns_private_match_countdown_length"@,
                Some(decimal(countdown_length_seconds as nat)),
            ),
    {
        self.set_kv(
            "+ns_private_match_countdown_length",
            Some(decimal_text(countdown_length_seconds as u64)),
        )
    }

    /// How the server renders: rendering in software is a flag.
    pub fn set_graphics_mode(self, graphics_mode: GraphicsMode) -> (builder: Self)
        ensures
            builder@ == self@.set_flag("-softwared3d11"@, graphics_mode == GraphicsMode::Software),
    {
        self.set_flag("-softwared3d11", graphics_mode == GraphicsMode::Software)
    }

    /// The playlist that the server runs.
    pub fn set_playlist(self, playlist: String) -> (builder: Self)
        ensures
            builder@ == self@.set_arg("+setplaylist"@, Some(playlist@)),
    {
        self.set_kv("+setplaylist", Some(playlist))
    }

    /// The game mode to start in.
    pub fn set_mode(self, mode: Option<String>) -> (builder: Self)
        ensures
            builder@ == self@.set_arg("+mp_gamemode"@, mode.deep_view()),
    {
        self.set_kv("+mp_gamemode", mode)
    }

    /// The map to start on.
    pub fn set_map(self, map: Option<String>) -> (builder: Self)
        ensures
            builder@ == self@.set_arg("+map"@, map.deep_view()),
    {
        self.set_kv("+map", map)
    }

    /// The game mode that the lobby proposes.
    pub fn set_default_mode(self, default_mode: Option<String>) -> (builder: Self)
        ensures
            builder@ == self@.set_arg("+ns_private_match_last_mode"@, default_mode.deep_view()),
    {
        self.set_kv("+ns_private_match_last_mode", default_mode)
    }

    /// The map that the lobby proposes.
    pub fn set_default_map(self, default_map: Option<String>) -> (builder: Self)
        ensures
            builder@ == self@.set_arg("+ns_private_match_last_map"@, default_map.deep_view()),
    {
        self.set_kv("+ns_private_match_last_map", default_map)
    }

    fn set_riffs(self, riffs: crate::config::RiffSet) -> (builder: Self)
        ensures
            builder@ == self@.set_riffs(riffs@),
    {
        self
            .set_playlist_var("riff_floorislava", riff_option(riffs.contains(Riff::FloorIsLava)))
            .set_playlist_var(
                "featured_mode_all_holopilot",
                riff_option(riffs.contains(Riff::AllHolopilot)),
            )
            .set_playlist_var(
                "featured_mode_all_grapple",
                riff_option(riffs.contains(Riff::AllGrapple)),
            )
            .set_playlist_var(
                "featured_mode_all_phase",
                riff_option(riffs.contains(Riff::AllPhase)),
            )
            .set_playlist_var(
                "featured_mode_all_ticks",
                riff_option(riffs.contains(Riff::AllTicks)),
            )
            .set_playlist_var(
                "featured_mode_tactikill",
                riff_option(riffs.contains(Riff::Tactikill)),
            )
            .set_playlist_var(
                "featured_mode_amped_tacticals",
                riff_option(riffs.contains(Riff::AmpedTacticals)),
            )
            .set_playlist_var(
                "featured_mode_rocket_arena",
                riff_option(riffs.contains(Riff::RocketArena)),
            )
            .set_playlist_var(
                "featured_mode_shotguns_snipers",
                riff_option(riffs.contains(Riff::ShotgunsSnipers)),
            )
            .set_playlist_var("iron_rules", riff_option(riffs.contains(Riff::IronRules)))
            .set_playlist_var(
                "fp_embark_enabled",
                riff_option(riffs.contains(Riff::FirstPersonEmbark)),
            )
            .set_playlist_var("riff_instagib", riff_option(riffs.contains(Riff::Instagib)))
    }

    /// The tuning of the playlist.
    pub fn set_playlist_overrides(self, playlist_overrides: PlaylistOverrides) -> (builder: Self)
        ensures
            builder@ == self@.set_playlist_overrides(playlist_overrides@),
    {
        let o = playlist_overrides;
        let ghost v = o@;
        let builder = self.set_riffs(o.riffs);
        // the match
        let builder = builder
            .set_playlist_var("classic_mp", flag_option(o.match_classic_mp_enabled))
            .set_playlist_var("run_epilogue", flag_option(o.match_epilogue_enabled))
            .set_playlist_var("scorelimit", decimal_option(o.match_scorelimit))
            .set_playlist_var("roundscorelimit", decimal_option(o.match_round_scorelimit))
            .set_playlist_var("timelimit", decimal_option(o.match_timelimit))
            .set_playlist_var("roundtimelimit", decimal_option(o.match_round_timelimit))
            .set_playlist_var("oob_timer_enabled", flag_option(o.match_oob_timer_enabled))
            .set_playlist_var("max_players", count_option(o.match_max_players))
            .set_flag("-maxplayersplaylist", o.match_max_players.is_some());
        // titans
        let builder = builder
            .set_playlist_var(
                "earn_meter_titan_multiplier",
                decimal_option(o.titan_boost_meter_multiplier),
            )
            .set_playlist_var("aegis_upgrades", flag_option(o.titan_aegis_upgrades_enabled))
            .set_playlist_var(
                "infinite_doomed_state",
                flag_option(o.titan_infinite_doomed_state_enabled),
            )
            .set_playlist_var("titan_shield_regen", flag_option(o.titan_shield_regen_enabled))
            .set_playlist_var("classic_rodeo", flag_option(o.titan_classic_rodeo_enabled));
        // bleeding out
        let builder = builder
            .set_playlist_var("riff_player_bleedout", bleedout_option(o.pilot_bleedout_mode))
            .set_playlist_var(
                "player_bleedout_forceHolster",
                flag_option(o.pilot_bleedout_holster_when_down),
            )
            .set_playlist_var(
                "player_bleedout_forceDeathOnTeamBleedout",
                flag_option(o.pilot_bleedout_die_on_team_bleedout),
            )
            .set_playlist_var(
                "player_bleedout_bleedoutTime",
                decimal_option(o.pilot_bleedout_bleedout_time),
            )
            .set_playlist_var(
                "player_bleedout_firstAidTime",
                decimal_option(o.pilot_bleedout_firstaid_time),
            )
            .set_playlist_var(
                "player_bleedout_firstAidTimeSelf",
                decimal_option(o.pilot_bleedout_selfres_time),
            )
            .set_playlist_var(
                "player_bleedout_firstAidHealPercent",
                decimal_option(o.pilot_bleedout_firstaid_heal_percent),
            )
            .set_playlist_var("player_bleedout_aiBleedingPlayerMissChance", decimal_option(o.pilot_bleedout_down_ai_miss_chance));
        // pilots
        let builder = builder
            .set_playlist_var("promode_enable", flag_option(o.promode_weapons_enabled))
            .set_playlist_var("pilot_health_multiplier", decimal_option(o.pilot_health_multiplier))
            .set_playlist_var("respawn_delay", decimal_option(o.pilot_respawn_delay))
            .set_playlist_var("boosts_enabled", flag_option(negate(o.pilot_boosts_enabled)))
            .set_playlist_var(
                "earn_meter_pilot_overdrive",
                overdrive_option(o.pilot_boost_meter_overdrive),
            )
            .set_playlist_var(
                "earn_meter_pilot_multiplier",
                decimal_option(o.pilot_boost_meter_multiplier),
            )
            .set_playlist_var("custom_air_accel_pilot", decimal_option(o.pilot_air_acceleration))
            .set_playlist_var("no_pilot_collision", flag_option(negate(o.pilot_collision_enabled)));
        builder
    }

    /// Further playlist variables, set over those that are there.
    pub fn add_extra_playlist_vars(self, playlist_vars: LinkedHashMap<String, String>) -> (builder:
        Self)
        ensures
            builder@ == self@.add_extra_playlist_vars(entries(playlist_vars)),
    {
        let mut builder = self;
        insert_all(&mut builder.playlist_vars, to_pairs(&playlist_vars));
        builder
    }

    /// Further console variables, each with a plus sign before its name.
    pub fn add_extra_vars(self, extra_vars: LinkedHashMap<String, String>) -> (builder: Self)
        ensures
            builder@ == self@.add_extra_vars(entries(extra_vars)),
    {
        let mut builder = self;
        let pairs = to_pairs(&extra_vars);
        let mut named: Vec<(String, String)> = Vec::new();
        let mut i: usize = 0;
        while i < pairs.len()
            invariant
                i <= pairs.len(),
                named@.len() == i,
                forall|k: int|
                    0 <= k < i ==> (#[trigger] named@[k]).0@ == "+"@ + pairs@[k].0@ && named@[k].1@
                        == pairs@[k].1@,
            decreases pairs.len() - i,
        {
            named.push((concat2("+", pairs[i].0.as_str()), pairs[i].1.clone()));
            i = i + 1;
        }
        assert(pair_texts(named@) =~= plus_names(pair_texts(pairs@)));
        insert_all(&mut builder.kv_args, named);
        builder
    }

    /// The whole configuration of a server.
    pub fn set_game_config(self, game_config: FilledGameConfig) -> (builder: Self)
        ensures
            builder@ == self@.set_game_config(game_config@),
    {
        let ghost v = game_config@;
        let builder = self.set_description(game_config.description).set_password(
            game_config.password,
        ).set_tick_rate(game_config.tick_rate).set_update_rate(
            game_config.update_rate,
        ).set_report_to_master(game_config.report_to_master).set_master_url(
            game_config.master_url,
        ).set_allow_insecure(game_config.allow_insecure).set_use_sockets_for_loopback(
            game_config.use_sockets_for_loopback,
        ).set_everything_unlocked(game_config.everything_unlocked).set_should_return_to_lobby(
            game_config.should_return_to_lobby,
        ).set_player_permissions(game_config.player_permissions).set_only_host_can_start(
            game_config.only_host_can_start,
        ).set_countdown_length_seconds(game_config.countdown_length_seconds).set_graphics_mode(
            game_config.graphics_mode,
        );
        assert(builder@ == self@.set_server_settings(v));
        let builder = builder.set_playlist(game_config.playlist).set_mode(game_config.mode).set_map(
            game_config.map,
        ).set_default_mode(game_config.default_mode).set_default_map(game_config.default_map);
        assert(builder@ == self@.set_server_settings(v).set_match_settings(v));
        builder.set_playlist_overrides(game_config.playlist_overrides).add_extra_playlist_vars(
            game_config.extra_playlist_vars,
        ).add_extra_vars(game_config.extra_vars)
    }

    /// Writes the environment behind `out_envs`, one line for each variable.
    pub fn build(self, out_envs: &mut Vec<String>)
        ensures
            texts(final(out_envs)@) == texts(old(out_envs)@) + self@.lines(),
    {
        let ghost v = self@;
        let ghost start = texts(out_envs@);
        let mut extra_args: Vec<String> = self.flag_args;
        push_flattened(&mut extra_args, to_pairs(&self.kv_args));
        let ghost tokens = texts(extra_args@);
        extra_args.push(String::from_str("+setplaylistvaroverrides"));
        assert(texts(extra_args@) =~= tokens.push("+setplaylistvaroverrides"@));
        let mut playlist_args_list: Vec<String> = Vec::new();
        assert(texts(playlist_args_list@) =~= Seq::empty());
        push_flattened(&mut playlist_args_list, to_pairs(&self.playlist_vars));
        assert(texts(playlist_args_list@) =~= flattened(v.playlist));
        let ghost tokens = texts(extra_args@);
        extra_args.push(join_strings(&playlist_args_list, " "));
        assert(texts(extra_args@) =~= tokens.push(join(flattened(v.playlist), " "@)));
        assert(texts(extra_args@) == v.extra_arguments());

        let mut quoted_args: Vec<String> = Vec::new();
        let mut i: usize = 0;
        while i < extra_args.len()
            invariant
                i <= extra_args.len(),
                quoted_args@.len() == i,
                forall|k: int| 0 <= k < i ==> (#[trigger] quoted_args@[k])@ == quoted(extra_args@[k]@),
            decreases extra_args.len() - i,
        {
            quoted_args.push(quote(extra_args[i].as_str()));
            i = i + 1;
        }
        assert(texts(quoted_args@) =~= quoted_all(texts(extra_args@)));

        let mut env_args = self.kv_env_args;
        insert(
            &mut env_args,
            String::from_str("NS_EXTRA_ARGUMENTS"),
            join_strings(&quoted_args, " "),
        );
        assert(entries(env_args) == v.environment());
        let pairs = to_pairs(&env_args);
        let mut k: usize = 0;
        while k < pairs.len()
            invariant
                k <= pairs.len(),
                out_envs@.len() == old(out_envs)@.len() + k,
                forall|j: int| 0 <= j < old(out_envs)@.len() ==> out_envs@[j] == old(out_envs)@[j],
                forall|j: int|
                    0 <= j < k ==> (#[trigger] out_envs@[old(out_envs)@.len() + j])@ == pairs@[j].0@
                        + "="@ + pairs@[j].1@,
            decreases pairs.len() - k,
        {
            out_envs.push(concat3(pairs[k].0.as_str(), "=", pairs[k].1.as_str()));
            k = k + 1;
        }
        proof {
            let n = old(out_envs)@.len() as int;
            let lines = env_lines(pair_texts(pairs@));
            assert forall|i: int| n <= i < out_envs@.len() implies texts(out_envs@)[i] == lines[i
                - n] by {
                let j = i - n;
                assert(out_envs@[n + j]@ == pairs@[j].0@ + "="@ + pairs@[j].1@);
            }
            assert(texts(out_envs@) =~= start + lines);
        }
    }
}

} // verus!
