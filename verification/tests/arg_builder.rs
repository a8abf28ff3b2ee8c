use linked_hash_map::LinkedHashMap;
use r2wraith::arg_builder::ArgBuilder;
use r2wraith::config::{
    BoostMeterOverdrive, Decimal, FilledGameConfig, GameConfig, GraphicsMode, PilotBleedout,
    PlaylistOverrides, PrivateLobbyPlayerPermissions, Riff, TickRate,
};

fn built(builder: ArgBuilder) -> Vec<String> {
    let mut lines = Vec::new();
    builder.build(&mut lines);
    lines
}

/// The tokens behind `NS_EXTRA_ARGUMENTS`, without their quotes.
fn extra_arguments(lines: &[String]) -> Vec<String> {
    let line = lines.last().unwrap();
    let value = line.strip_prefix("NS_EXTRA_ARGUMENTS=").unwrap();
    let inner = value.strip_prefix('"').unwrap().strip_suffix('"').unwrap();
    inner.split("\" \"").map(|token| token.to_string()).collect()
}

fn value_after<'a>(tokens: &'a [String], name: &str) -> Option<&'a str> {
    let at = tokens.iter().position(|token| token == name)?;
    tokens.get(at + 1).map(|token| token.as_str())
}

fn playlist_vars(lines: &[String]) -> String {
    let tokens = extra_arguments(lines);
    value_after(&tokens, "+setplaylistvaroverrides").unwrap().to_string()
}

fn default_config() -> FilledGameConfig {
    GameConfig::default().fill("alpha", "/srv")
}

fn decimal(text: &str) -> Option<Decimal> {
    Some(Decimal::new(text.to_string()))
}

#[test]
fn a_new_builder_switches_console_logging_off() {
    let lines = built(ArgBuilder::new());
    assert_eq!(
        lines,
        vec!["NS_EXTRA_ARGUMENTS=\"+spewlog_enable\" \"0\" \"+setplaylistvaroverrides\" \"\""]
    );
}

#[test]
fn build_appends_to_what_is_there() {
    let mut lines = vec!["PATH=/bin".to_string()];
    ArgBuilder::new().set_name("Alpha".to_string()).build(&mut lines);
    assert_eq!(lines.len(), 3);
    assert_eq!(lines[0], "PATH=/bin");
    assert_eq!(lines[1], "NS_SERVER_NAME=Alpha");
    assert!(lines[2].starts_with("NS_EXTRA_ARGUMENTS="));
}

#[test]
fn the_environment_of_a_default_server() {
    let lines = built(
        ArgBuilder::new()
            .set_name("Alpha".to_string())
            .set_game_port(37015)
            .set_game_config(default_config()),
    );
    let interval: f64 = 1.0 / 60.0;
    let expected_arguments = format!(
        "NS_EXTRA_ARGUMENTS=\"+spewlog_enable\" \"0\" \"+base_tickinterval_mp\" \"{}\" \
         \"+sv_updaterate_mp\" \"20\" \"+sv_max_snapshots_multiplayer\" \"300\" \
         \"+net_usesocketsforloopback\" \"1\" \"+everything_unlocked\" \"1\" \
         \"+ns_should_return_to_lobby\" \"1\" \
         \"+ns_private_match_only_host_can_change_settings\" \"0\" \
         \"+ns_private_match_only_host_can_start\" \"0\" \
         \"+ns_private_match_countdown_length\" \"15\" \"+setplaylist\" \"private_match\" \
         \"+setplaylistvaroverrides\" \"\"",
        interval
    );
    assert_eq!(
        lines,
        vec![
            "NS_SERVER_NAME=Alpha".to_string(),
            "NS_PORT=37015".to_string(),
            "NS_SERVER_DESC=Your favourite R2Wraith server".to_string(),
            "NS_SERVER_PASSWORD=".to_string(),
            "NS_MASTERSERVER_REGISTER=1".to_string(),
            "NS_MASTERSERVER_URL=https://northstar.tf".to_string(),
            "NS_INSECURE=0".to_string(),
            expected_arguments,
        ]
    );
}

#[test]
fn every_token_of_the_extra_arguments_is_quoted() {
    let mut config = default_config();
    config.mode = Some("tdm".to_string());
    config.graphics_mode = GraphicsMode::Software;
    config.playlist_overrides.match_max_players = Some(8);
    let lines = built(ArgBuilder::new().set_game_config(config));
    let line = lines.last().unwrap();
    let value = line.strip_prefix("NS_EXTRA_ARGUMENTS=").unwrap();
    assert_eq!(
        value,
        format!(
            "\"-softwared3d11\" \"-maxplayersplaylist\" \"+spewlog_enable\" \"0\" \
             \"+base_tickinterval_mp\" \"{}\" \"+sv_updaterate_mp\" \"20\" \
             \"+sv_max_snapshots_multiplayer\" \"300\" \"+net_usesocketsforloopback\" \"1\" \
             \"+everything_unlocked\" \"1\" \"+ns_should_return_to_lobby\" \"1\" \
             \"+ns_private_match_only_host_can_change_settings\" \"0\" \
             \"+ns_private_match_only_host_can_start\" \"0\" \
             \"+ns_private_match_countdown_length\" \"15\" \"+setplaylist\" \
             \"private_match\" \"+mp_gamemode\" \"tdm\" \"+setplaylistvaroverrides\" \
             \"max_players 8\"",
            1.0f64 / 60.0
        )
    );
    // between each two tokens stands a quote, a space and a quote
    let quotes = value.chars().filter(|c| *c == '"').count();
    assert_eq!(quotes, 2 * extra_arguments(&lines).len());
}

#[test]
fn environment_variables_get_lines_of_their_own() {
    let lines = built(
        ArgBuilder::new()
            .set_name("Alpha".to_string())
            .set_auth_port(8081)
            .set_game_port(37015)
            .set_description("desc".to_string())
            .set_password("pw".to_string())
            .set_report_to_master(false)
            .set_master_url("https://example.org".to_string())
            .set_allow_insecure(true),
    );
    assert_eq!(
        &lines[..8],
        &[
            "NS_SERVER_NAME=Alpha",
            "NS_PORT_AUTH=8081",
            "NS_PORT=37015",
            "NS_SERVER_DESC=desc",
            "NS_SERVER_PASSWORD=pw",
            "NS_MASTERSERVER_REGISTER=0",
            "NS_MASTERSERVER_URL=https://example.org",
            "NS_INSECURE=1",
        ]
    );
    assert_eq!(lines.len(), 9);
}

#[test]
fn setting_a_variable_again_moves_it_behind_the_others() {
    let lines = built(
        ArgBuilder::new()
            .set_name("first".to_string())
            .set_game_port(1)
            .set_name("second".to_string()),
    );
    assert_eq!(&lines[..2], &["NS_PORT=1", "NS_SERVER_NAME=second"]);
}

#[test]
fn the_playlist_overrides_are_always_there() {
    let tokens = extra_arguments(&built(ArgBuilder::new().set_game_config(default_config())));
    let n = tokens.len();
    assert_eq!(tokens[n - 2], "+setplaylistvaroverrides");
    assert_eq!(tokens[n - 1], "");
}

#[test]
fn the_tick_rate_is_told_as_the_length_of_a_tick() {
    let rate = TickRate { per_second: 20, interval: Decimal::new("0.05".to_string()) };
    let tokens = extra_arguments(&built(ArgBuilder::new().set_tick_rate(rate)));
    assert_eq!(value_after(&tokens, "+base_tickinterval_mp"), Some("0.05"));
}

#[test]
fn the_update_rate_sets_the_snapshots_too() {
    let tokens = extra_arguments(&built(ArgBuilder::new().set_update_rate(20)));
    assert_eq!(value_after(&tokens, "+sv_updaterate_mp"), Some("20"));
    assert_eq!(value_after(&tokens, "+sv_max_snapshots_multiplayer"), Some("300"));
}

#[test]
fn the_largest_update_rate_does_not_overflow() {
    let tokens = extra_arguments(&built(ArgBuilder::new().set_update_rate(u32::MAX)));
    assert_eq!(value_after(&tokens, "+sv_updaterate_mp"), Some("4294967295"));
    assert_eq!(value_after(&tokens, "+sv_max_snapshots_multiplayer"), Some("64424509425"));
}

#[test]
fn the_minimum_update_rate_is_a_console_variable() {
    let tokens = extra_arguments(&built(ArgBuilder::new().set_min_update_rate(10)));
    assert_eq!(value_after(&tokens, "+sv_minupdaterate"), Some("10"));
}

#[test]
fn the_game_config_does_not_tell_the_minimum_update_rate() {
    let tokens = extra_arguments(&built(ArgBuilder::new().set_game_config(default_config())));
    assert_eq!(value_after(&tokens, "+sv_minupdaterate"), None);
}

#[test]
fn flags_are_written_as_zero_and_one() {
    let tokens = extra_arguments(&built(
        ArgBuilder::new()
            .set_use_sockets_for_loopback(false)
            .set_everything_unlocked(true)
            .set_should_return_to_lobby(false)
            .set_only_host_can_start(true)
            .set_countdown_length_seconds(30),
    ));
    assert_eq!(value_after(&tokens, "+net_usesocketsforloopback"), Some("0"));
    assert_eq!(value_after(&tokens, "+everything_unlocked"), Some("1"));
    assert_eq!(value_after(&tokens, "+ns_should_return_to_lobby"), Some("0"));
    assert_eq!(value_after(&tokens, "+ns_private_match_only_host_can_start"), Some("1"));
    assert_eq!(value_after(&tokens, "+ns_private_match_countdown_length"), Some("30"));
}

#[test]
fn player_permissions_are_written_by_number() {
    let key = "+ns_private_match_only_host_can_change_settings";
    let all = extra_arguments(&built(
        ArgBuilder::new().set_player_permissions(PrivateLobbyPlayerPermissions::All),
    ));
    assert_eq!(value_after(&all, key), Some("0"));
    let map_mode = extra_arguments(&built(
        ArgBuilder::new().set_player_permissions(PrivateLobbyPlayerPermissions::MapModeOnly),
    ));
    assert_eq!(value_after(&map_mode, key), Some("1"));
    let nothing = extra_arguments(&built(
        ArgBuilder::new().set_player_permissions(PrivateLobbyPlayerPermissions::Nothing),
    ));
    assert_eq!(value_after(&nothing, key), Some("2"));
}

#[test]
fn software_rendering_is_a_flag() {
    let software =
        extra_arguments(&built(ArgBuilder::new().set_graphics_mode(GraphicsMode::Software)));
    assert_eq!(software[0], "-softwared3d11");
    let default =
        extra_arguments(&built(ArgBuilder::new().set_graphics_mode(GraphicsMode::Default)));
    assert!(!default.contains(&"-softwared3d11".to_string()));
    let back = extra_arguments(&built(
        ArgBuilder::new()
            .set_graphics_mode(GraphicsMode::Software)
            .set_graphics_mode(GraphicsMode::Default),
    ));
    assert!(!back.contains(&"-softwared3d11".to_string()));
    let twice = extra_arguments(&built(
        ArgBuilder::new()
            .set_graphics_mode(GraphicsMode::Software)
            .set_graphics_mode(GraphicsMode::Software),
    ));
    assert_eq!(twice.iter().filter(|token| *token == "-softwared3d11").count(), 1);
}

#[test]
fn unset_match_settings_are_left_out() {
    let tokens = extra_arguments(&built(
        ArgBuilder::new()
            .set_playlist("aitdm".to_string())
            .set_mode(Some("tdm".to_string()))
            .set_map(None)
            .set_default_mode(None)
            .set_default_map(Some("mp_glitch".to_string())),
    ));
    assert_eq!(value_after(&tokens, "+setplaylist"), Some("aitdm"));
    assert_eq!(value_after(&tokens, "+mp_gamemode"), Some("tdm"));
    assert_eq!(value_after(&tokens, "+ns_private_match_last_map"), Some("mp_glitch"));
    assert!(!tokens.contains(&"+map".to_string()));
    assert!(!tokens.contains(&"+ns_private_match_last_mode".to_string()));
}

#[test]
fn setting_a_variable_to_nothing_takes_it_out() {
    let tokens = extra_arguments(&built(
        ArgBuilder::new().set_map(Some("mp_glitch".to_string())).set_map(None),
    ));
    assert!(!tokens.contains(&"+map".to_string()));
}

#[test]
fn riffs_that_are_on_are_written_and_others_are_not() {
    let mut overrides = PlaylistOverrides::default();
    overrides.riffs.insert(Riff::Instagib);
    overrides.riffs.insert(Riff::FloorIsLava);
    let lines = built(ArgBuilder::new().set_playlist_overrides(overrides));
    assert_eq!(playlist_vars(&lines), "riff_floorislava 1 riff_instagib 1");
}

#[test]
fn every_riff_has_its_variable() {
    let riffs = [
        (Riff::FloorIsLava, "riff_floorislava"),
        (Riff::AllHolopilot, "featured_mode_all_holopilot"),
        (Riff::AllGrapple, "featured_mode_all_grapple"),
        (Riff::AllPhase, "featured_mode_all_phase"),
        (Riff::AllTicks, "featured_mode_all_ticks"),
        (Riff::Tactikill, "featured_mode_tactikill"),
        (Riff::AmpedTacticals, "featured_mode_amped_tacticals"),
        (Riff::RocketArena, "featured_mode_rocket_arena"),
        (Riff::ShotgunsSnipers, "featured_mode_shotguns_snipers"),
        (Riff::IronRules, "iron_rules"),
        (Riff::FirstPersonEmbark, "fp_embark_enabled"),
        (Riff::Instagib, "riff_instagib"),
    ];
    for (riff, name) in riffs {
        let mut overrides = PlaylistOverrides::default();
        overrides.riffs.insert(riff);
        let lines = built(ArgBuilder::new().set_playlist_overrides(overrides));
        assert_eq!(playlist_vars(&lines), format!("{} 1", name));
    }
}

#[test]
fn boosts_and_collisions_are_written_the_other_way_round() {
    let mut overrides = PlaylistOverrides::default();
    overrides.pilot_boosts_enabled = Some(true);
    overrides.pilot_collision_enabled = Some(false);
    let lines = built(ArgBuilder::new().set_playlist_overrides(overrides));
    assert_eq!(playlist_vars(&lines), "boosts_enabled 0 no_pilot_collision 1");
}

#[test]
fn a_limit_on_players_switches_the_playlist_flag_on() {
    let mut overrides = PlaylistOverrides::default();
    overrides.match_max_players = Some(12);
    let lines = built(ArgBuilder::new().set_playlist_overrides(overrides));
    let tokens = extra_arguments(&lines);
    assert_eq!(tokens[0], "-maxplayersplaylist");
    assert_eq!(playlist_vars(&lines), "max_players 12");

    let without = built(ArgBuilder::new().set_playlist_overrides(PlaylistOverrides::default()));
    assert!(!extra_arguments(&without).contains(&"-maxplayersplaylist".to_string()));
}

#[test]
fn playlist_variables_come_in_their_order() {
    let mut overrides = PlaylistOverrides::default();
    overrides.match_classic_mp_enabled = Some(true);
    overrides.match_epilogue_enabled = Some(false);
    overrides.match_scorelimit = decimal("150");
    overrides.match_round_scorelimit = decimal("5");
    overrides.match_timelimit = decimal("12.5");
    overrides.match_round_timelimit = decimal("3");
    overrides.match_oob_timer_enabled = Some(true);
    overrides.titan_boost_meter_multiplier = decimal("2");
    overrides.titan_aegis_upgrades_enabled = Some(true);
    overrides.titan_infinite_doomed_state_enabled = Some(false);
    overrides.titan_shield_regen_enabled = Some(true);
    overrides.titan_classic_rodeo_enabled = Some(false);
    overrides.pilot_bleedout_mode = Some(PilotBleedout::Enabled);
    overrides.pilot_bleedout_holster_when_down = Some(true);
    overrides.pilot_bleedout_die_on_team_bleedout = Some(false);
    overrides.pilot_bleedout_bleedout_time = decimal("30");
    overrides.pilot_bleedout_firstaid_time = decimal("2.5");
    overrides.pilot_bleedout_selfres_time = decimal("7");
    overrides.pilot_bleedout_firstaid_heal_percent = decimal("0.5");
    overrides.pilot_bleedout_down_ai_miss_chance = decimal("0.25");
    overrides.promode_weapons_enabled = Some(true);
    overrides.pilot_health_multiplier = decimal("1.5");
    overrides.pilot_respawn_delay = decimal("4");
    overrides.pilot_boost_meter_overdrive = Some(BoostMeterOverdrive::Disabled);
    overrides.pilot_boost_meter_multiplier = decimal("3");
    overrides.pilot_air_acceleration = decimal("500");
    let lines = built(ArgBuilder::new().set_playlist_overrides(overrides));
    assert_eq!(
        playlist_vars(&lines),
        "classic_mp 1 run_epilogue 0 scorelimit 150 roundscorelimit 5 timelimit 12.5 \
         roundtimelimit 3 oob_timer_enabled 1 earn_meter_titan_multiplier 2 aegis_upgrades 1 \
         infinite_doomed_state 0 titan_shield_regen 1 classic_rodeo 0 riff_player_bleedout 2 \
         player_bleedout_forceHolster 1 player_bleedout_forceDeathOnTeamBleedout 0 \
         player_bleedout_bleedoutTime 30 player_bleedout_firstAidTime 2.5 \
         player_bleedout_firstAidTimeSelf 7 player_bleedout_firstAidHealPercent 0.5 \
         player_bleedout_aiBleedingPlayerMissChance 0.25 promode_enable 1 \
         pilot_health_multiplier 1.5 respawn_delay 4 earn_meter_pilot_overdrive 1 \
         earn_meter_pilot_multiplier 3 custom_air_accel_pilot 500"
    );
}

#[test]
fn bleedout_and_overdrive_are_written_by_number() {
    for (mode, number) in
        [(PilotBleedout::Default, "0"), (PilotBleedout::Disabled, "1"), (PilotBleedout::Enabled, "2")]
    {
        let mut overrides = PlaylistOverrides::default();
        overrides.pilot_bleedout_mode = Some(mode);
        let lines = built(ArgBuilder::new().set_playlist_overrides(overrides));
        assert_eq!(playlist_vars(&lines), format!("riff_player_bleedout {}", number));
    }
    for (setting, number) in [
        (BoostMeterOverdrive::Enabled, "0"),
        (BoostMeterOverdrive::Disabled, "1"),
        (BoostMeterOverdrive::Only, "2"),
    ] {
        let mut overrides = PlaylistOverrides::default();
        overrides.pilot_boost_meter_overdrive = Some(setting);
        let lines = built(ArgBuilder::new().set_playlist_overrides(overrides));
        assert_eq!(playlist_vars(&lines), format!("earn_meter_pilot_overdrive {}", number));
    }
}

#[test]
fn extra_playlist_vars_are_set_over_the_others() {
    let mut overrides = PlaylistOverrides::default();
    overrides.match_scorelimit = decimal("150");
    overrides.match_timelimit = decimal("10");
    let mut extra = LinkedHashMap::new();
    extra.insert("custom".to_string(), "x".to_string());
    extra.insert("scorelimit".to_string(), "99".to_string());
    let lines = built(
        ArgBuilder::new().set_playlist_overrides(overrides).add_extra_playlist_vars(extra),
    );
    assert_eq!(playlist_vars(&lines), "timelimit 10 custom x scorelimit 99");
}

#[test]
fn extra_vars_get_a_plus_sign() {
    let mut extra = LinkedHashMap::new();
    extra.insert("sv_cheats".to_string(), "1".to_string());
    extra.insert("spewlog_enable".to_string(), "1".to_string());
    let tokens = extra_arguments(&built(ArgBuilder::new().add_extra_vars(extra)));
    assert_eq!(
        tokens,
        vec![
            "+sv_cheats",
            "1",
            "+spewlog_enable",
            "1",
            "+setplaylistvaroverrides",
            ""
        ]
    );
}

#[test]
fn the_game_config_passes_overrides_and_extras_on() {
    let mut config = default_config();
    config.playlist_overrides.riffs.insert(Riff::Instagib);
    config.playlist_overrides.match_max_players = Some(10);
    config.extra_playlist_vars.insert("custom".to_string(), "v".to_string());
    config.extra_vars.insert("sv_cheats".to_string(), "1".to_string());
    config.extra_args = vec!["-ignored".to_string()];
    let lines = built(ArgBuilder::new().set_game_config(config));
    let tokens = extra_arguments(&lines);
    assert_eq!(tokens[0], "-maxplayersplaylist");
    assert_eq!(value_after(&tokens, "+sv_cheats"), Some("1"));
    assert_eq!(playlist_vars(&lines), "riff_instagib 1 max_players 10 custom v");
    // the further arguments of the configuration are not passed on
    assert!(!tokens.contains(&"-ignored".to_string()));
}

#[test]
fn a_clone_builds_the_same_environment() {
    let builder = ArgBuilder::new()
        .set_name("Alpha".to_string())
        .set_graphics_mode(GraphicsMode::Software)
        .set_game_config(default_config());
    let copy = builder.clone();
    assert_eq!(built(copy), built(builder));
}
