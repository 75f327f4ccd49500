use autoplayer::config::{
    debug_enabled, env_i32, env_string, env_u32, load_config, Config, EnvVars, DEFAULT_LANES,
    VAR_BRIGHTNESS_THRESH, VAR_DEBUG, VAR_FOCUS_POLL_MS, VAR_HIT_ZONE_Y, VAR_LANES,
    VAR_LOOP_YIELD_EVERY, VAR_MIN_HOLD_MS, VAR_NOT_FOCUSED_SLEEP_MS, VAR_RELEASE_DEBOUNCE_MS,
    VAR_TITLE_SUBSTR, VAR_TOLERANCE,
};
use autoplayer::error::ConfigError;
use autoplayer::lanes::{parse_entry, parse_lanes, parse_vk, Lane};

fn text(s: &str) -> Option<String> {
    Some(s.to_string())
}

fn lane(x: i32, key: char) -> Lane {
    Lane { x, vk: key as u16, scan: 0 }
}

#[test]
fn parse_vk_gives_the_capital_code_of_a_letter() {
    assert_eq!(parse_vk("e"), Ok(0x45));
    assert_eq!(parse_vk("E"), Ok(0x45));
    assert_eq!(parse_vk("a"), Ok(0x41));
    assert_eq!(parse_vk("z"), Ok(0x5A));
    assert_eq!(parse_vk("A"), Ok(0x41));
    assert_eq!(parse_vk("Z"), Ok(0x5A));
    assert_eq!(parse_vk(" r "), Ok(0x52));
}

#[test]
fn parse_vk_gives_the_code_of_a_digit() {
    assert_eq!(parse_vk("0"), Ok(0x30));
    assert_eq!(parse_vk("9"), Ok(0x39));
    assert_eq!(parse_vk("\t5\n"), Ok(0x35));
}

#[test]
fn parse_vk_refuses_more_or_less_than_one_character() {
    assert_eq!(parse_vk("shift"), Err(ConfigError::KeyNotSingleChar("shift".to_string())));
    assert_eq!(parse_vk(" ab "), Err(ConfigError::KeyNotSingleChar("ab".to_string())));
    assert_eq!(parse_vk(""), Err(ConfigError::KeyNotSingleChar(String::new())));
    assert_eq!(parse_vk("   "), Err(ConfigError::KeyNotSingleChar(String::new())));
    assert_eq!(parse_vk("é"), Err(ConfigError::KeyNotSingleChar("é".to_string())));
    assert_eq!(parse_vk("字"), Err(ConfigError::KeyNotSingleChar("字".to_string())));
}

#[test]
fn parse_vk_refuses_what_is_neither_letter_nor_digit() {
    assert_eq!(parse_vk("-"), Err(ConfigError::KeyNotAlphanumeric("-".to_string())));
    assert_eq!(parse_vk(" ; "), Err(ConfigError::KeyNotAlphanumeric(";".to_string())));
    assert_eq!(parse_vk("@"), Err(ConfigError::KeyNotAlphanumeric("@".to_string())));
    assert_eq!(parse_vk("["), Err(ConfigError::KeyNotAlphanumeric("[".to_string())));
    assert_eq!(parse_vk("`"), Err(ConfigError::KeyNotAlphanumeric("`".to_string())));
    assert_eq!(parse_vk("{"), Err(ConfigError::KeyNotAlphanumeric("{".to_string())));
    assert_eq!(parse_vk("/"), Err(ConfigError::KeyNotAlphanumeric("/".to_string())));
    assert_eq!(parse_vk(":"), Err(ConfigError::KeyNotAlphanumeric(":".to_string())));
    assert_eq!(parse_vk("\u{7F}"), Err(ConfigError::KeyNotAlphanumeric("\u{7F}".to_string())));
}

#[test]
fn parse_vk_agrees_with_the_character_classes_of_the_standard_library() {
    let mut code: u32 = 0;
    while code < 0x80 {
        let c = char::from_u32(code).unwrap();
        let s = c.to_string();
        if !c.is_whitespace() {
            if c.is_ascii_alphanumeric() {
                assert_eq!(parse_vk(&s), Ok(c.to_ascii_uppercase() as u16));
            } else {
                assert_eq!(parse_vk(&s), Err(ConfigError::KeyNotAlphanumeric(s.clone())));
            }
        }
        code += 1;
    }
}

#[test]
fn parse_entry_reads_coordinate_and_key() {
    assert_eq!(parse_entry("731:e"), Ok(lane(731, 'E')));
    assert_eq!(parse_entry(" 731 : e "), Ok(lane(731, 'E')));
    assert_eq!(parse_entry("-5:0"), Ok(lane(-5, '0')));
    assert_eq!(parse_entry("+12:Q"), Ok(lane(12, 'Q')));
    assert_eq!(parse_entry("2147483647:a"), Ok(lane(i32::MAX, 'A')));
}

#[test]
fn parse_entry_reports_the_first_fault() {
    assert_eq!(parse_entry("731"), Err(ConfigError::BadLaneEntry("731".to_string())));
    assert_eq!(parse_entry(""), Err(ConfigError::BadLaneEntry(String::new())));
    assert_eq!(parse_entry("abc:shift"), Err(ConfigError::BadCoordinate("abc".to_string())));
    assert_eq!(parse_entry(":e"), Err(ConfigError::BadCoordinate(String::new())));
    assert_eq!(parse_entry("1:e:f"), Err(ConfigError::KeyNotSingleChar("e:f".to_string())));
    assert_eq!(parse_entry("1:"), Err(ConfigError::KeyNotSingleChar(String::new())));
    assert_eq!(parse_entry("2147483648:e"), Err(ConfigError::BadCoordinate("2147483648".to_string())));
}

#[test]
fn parse_lanes_reads_the_default_list() {
    assert_eq!(DEFAULT_LANES, "731:e,881:r,1031:t,1181:y");
    assert_eq!(
        parse_lanes(DEFAULT_LANES),
        Ok(vec![lane(731, 'E'), lane(881, 'R'), lane(1031, 'T'), lane(1181, 'Y')])
    );
}

#[test]
fn parse_lanes_trims_entries_and_skips_empty_ones() {
    assert_eq!(parse_lanes(" 731 : e , 881:r "), Ok(vec![lane(731, 'E'), lane(881, 'R')]));
    assert_eq!(parse_lanes(",,731:e,,"), Ok(vec![lane(731, 'E')]));
    assert_eq!(parse_lanes("731:e, ,\t,881:r,"), Ok(vec![lane(731, 'E'), lane(881, 'R')]));
    assert_eq!(parse_lanes("5:a"), Ok(vec![lane(5, 'A')]));
    assert_eq!(parse_lanes("5:a,5:a"), Ok(vec![lane(5, 'A'), lane(5, 'A')]));
}

#[test]
fn parse_lanes_refuses_a_list_without_lanes() {
    assert_eq!(parse_lanes(""), Err(ConfigError::NoLanes));
    assert_eq!(parse_lanes("   "), Err(ConfigError::NoLanes));
    assert_eq!(parse_lanes(",,,"), Err(ConfigError::NoLanes));
    assert_eq!(parse_lanes(" , \t, "), Err(ConfigError::NoLanes));
}

#[test]
fn parse_lanes_refuses_an_entry_without_a_colon() {
    assert_eq!(parse_lanes("731"), Err(ConfigError::BadLaneEntry("731".to_string())));
    assert_eq!(parse_lanes("731:e, 881r "), Err(ConfigError::BadLaneEntry("881r".to_string())));
    assert_eq!(parse_lanes("731;e"), Err(ConfigError::BadLaneEntry("731;e".to_string())));
}

#[test]
fn parse_lanes_refuses_a_coordinate_that_is_no_number() {
    assert_eq!(parse_lanes("abc:e"), Err(ConfigError::BadCoordinate("abc".to_string())));
    assert_eq!(parse_lanes("1:e, abc :r"), Err(ConfigError::BadCoordinate("abc ".to_string())));
    assert_eq!(parse_lanes("7.5:e"), Err(ConfigError::BadCoordinate("7.5".to_string())));
    assert_eq!(
        parse_lanes("99999999999:e"),
        Err(ConfigError::BadCoordinate("99999999999".to_string()))
    );
}

#[test]
fn parse_lanes_refuses_an_unsupported_key() {
    assert_eq!(parse_lanes("100:shift"), Err(ConfigError::KeyNotSingleChar("shift".to_string())));
    assert_eq!(parse_lanes("100:#"), Err(ConfigError::KeyNotAlphanumeric("#".to_string())));
    assert_eq!(parse_lanes("100: "), Err(ConfigError::KeyNotSingleChar(String::new())));
}

#[test]
fn parse_lanes_reports_the_first_faulty_entry() {
    assert_eq!(parse_lanes("x:e,100:shift"), Err(ConfigError::BadCoordinate("x".to_string())));
    assert_eq!(parse_lanes("100:shift,x:e"), Err(ConfigError::KeyNotSingleChar("shift".to_string())));
    assert_eq!(parse_lanes("1:a,2:b,oops,x:e"), Err(ConfigError::BadLaneEntry("oops".to_string())));
}

#[test]
fn error_messages_name_the_fault() {
    assert_eq!(
        ConfigError::BadLaneEntry("731".to_string()).message(),
        "Bad lane entry (expected x:key): 731"
    );
    assert_eq!(ConfigError::BadCoordinate("abc".to_string()).message(), "Bad x coordinate: abc");
    assert_eq!(
        ConfigError::KeyNotSingleChar("shift".to_string()).message(),
        "Unsupported key (expected single char): shift"
    );
    assert_eq!(
        ConfigError::KeyNotAlphanumeric("#".to_string()).message(),
        "Unsupported key (a-z/0-9 only): #"
    );
    assert_eq!(ConfigError::NoLanes.message(), "No lanes parsed from LANES");
}

#[test]
fn the_variables_have_their_names() {
    assert_eq!(VAR_LANES, "LANES");
    assert_eq!(VAR_HIT_ZONE_Y, "HIT_ZONE_Y");
    assert_eq!(VAR_BRIGHTNESS_THRESH, "BRIGHTNESS_THRESH");
    assert_eq!(VAR_TOLERANCE, "TOLERANCE");
    assert_eq!(VAR_MIN_HOLD_MS, "MIN_HOLD_MS");
    assert_eq!(VAR_RELEASE_DEBOUNCE_MS, "RELEASE_DEBOUNCE_MS");
    assert_eq!(VAR_FOCUS_POLL_MS, "FOCUS_POLL_MS");
    assert_eq!(VAR_NOT_FOCUSED_SLEEP_MS, "NOT_FOCUSED_SLEEP_MS");
    assert_eq!(VAR_LOOP_YIELD_EVERY, "LOOP_YIELD_EVERY");
    assert_eq!(VAR_TITLE_SUBSTR, "ROBLOX_TITLE_SUBSTR");
    assert_eq!(VAR_DEBUG, "DEBUG");
}

#[test]
fn env_u32_reads_a_number_or_falls_back() {
    assert_eq!(env_u32(&None, 20), 20);
    assert_eq!(env_u32(&text("35"), 20), 35);
    assert_eq!(env_u32(&text("  35\n"), 20), 35);
    assert_eq!(env_u32(&text("0"), 20), 0);
    assert_eq!(env_u32(&text("4294967295"), 20), u32::MAX);
    assert_eq!(env_u32(&text("4294967296"), 20), 20);
    assert_eq!(env_u32(&text("-1"), 20), 20);
    assert_eq!(env_u32(&text(""), 20), 20);
    assert_eq!(env_u32(&text("fast"), 20), 20);
}

#[test]
fn env_i32_reads_a_number_or_falls_back() {
    assert_eq!(env_i32(&None, 880), 880);
    assert_eq!(env_i32(&text("900"), 880), 900);
    assert_eq!(env_i32(&text(" -12 "), 880), -12);
    assert_eq!(env_i32(&text("2147483648"), 880), 880);
    assert_eq!(env_i32(&text("- 12"), 880), 880);
    assert_eq!(env_i32(&text(""), 880), 880);
}

#[test]
fn env_string_takes_the_text_as_it_stands() {
    assert_eq!(env_string(&None, "Roblox"), "Roblox");
    assert_eq!(env_string(&text("Notepad"), "Roblox"), "Notepad");
    assert_eq!(env_string(&text("  spaced  "), "Roblox"), "  spaced  ");
    assert_eq!(env_string(&text(""), "Roblox"), "");
}

#[test]
fn debug_is_on_for_a_number_other_than_zero() {
    let mut env = EnvVars::default();
    assert!(!debug_enabled(&env));
    env.debug = text("1");
    assert!(debug_enabled(&env));
    env.debug = text(" 7 ");
    assert!(debug_enabled(&env));
    env.debug = text("0");
    assert!(!debug_enabled(&env));
    env.debug = text("yes");
    assert!(!debug_enabled(&env));
}

#[test]
fn load_config_uses_the_defaults_where_nothing_is_set() {
    let cfg = load_config(&EnvVars::default()).unwrap();
    assert_eq!(
        cfg.lanes(),
        &vec![lane(731, 'E'), lane(881, 'R'), lane(1031, 'T'), lane(1181, 'Y')]
    );
    assert_eq!(cfg.lane_count(), 4);
    assert_eq!(cfg.hit_zone_y(), 880);
    assert_eq!(cfg.brightness_thresh(), 240);
    assert_eq!(cfg.tolerance(), 120);
    assert_eq!(cfg.brightness_thresh3(), 720);
    assert_eq!(cfg.white_min(), 135);
    assert_eq!(cfg.min_hold_ms(), 20);
    assert_eq!(cfg.release_debounce_ms(), 12);
    assert_eq!(cfg.focus_poll_ms(), 50);
    assert_eq!(cfg.not_focused_sleep_ms(), 100);
    assert_eq!(cfg.loop_yield_every(), 0);
    assert_eq!(cfg.title_substr(), "Roblox");
}

#[test]
fn load_config_takes_every_variable_that_is_set() {
    let env = EnvVars {
        lanes: text("10:a, 20:b"),
        hit_zone_y: text("500"),
        brightness_thresh: text("200"),
        tolerance: text("55"),
        min_hold_ms: text("30"),
        release_debounce_ms: text("15"),
        focus_poll_ms: text("75"),
        not_focused_sleep_ms: text("250"),
        loop_yield_every: text("16"),
        roblox_title_substr: text("Game"),
        debug: text("1"),
    };
    let cfg = load_config(&env).unwrap();
    assert_eq!(cfg.lanes(), &vec![lane(10, 'A'), lane(20, 'B')]);
    assert_eq!(cfg.hit_zone_y(), 500);
    assert_eq!(cfg.brightness_thresh(), 200);
    assert_eq!(cfg.tolerance(), 55);
    assert_eq!(cfg.brightness_thresh3(), 600);
    assert_eq!(cfg.white_min(), 200);
    assert_eq!(cfg.min_hold_ms(), 30);
    assert_eq!(cfg.release_debounce_ms(), 15);
    assert_eq!(cfg.focus_poll_ms(), 75);
    assert_eq!(cfg.not_focused_sleep_ms(), 250);
    assert_eq!(cfg.loop_yield_every(), 16);
    assert_eq!(cfg.title_substr(), "Game");
}

#[test]
fn load_config_falls_back_on_numbers_that_do_not_parse() {
    let env = EnvVars {
        hit_zone_y: text("low"),
        brightness_thresh: text(""),
        tolerance: text("1e2"),
        min_hold_ms: text("-20"),
        release_debounce_ms: text("12ms"),
        focus_poll_ms: text("4294967296"),
        not_focused_sleep_ms: text("0x64"),
        loop_yield_every: text("never"),
        ..EnvVars::default()
    };
    let cfg = load_config(&env).unwrap();
    assert_eq!(cfg.hit_zone_y(), 880);
    assert_eq!(cfg.brightness_thresh(), 240);
    assert_eq!(cfg.tolerance(), 120);
    assert_eq!(cfg.min_hold_ms(), 20);
    assert_eq!(cfg.release_debounce_ms(), 12);
    assert_eq!(cfg.focus_poll_ms(), 50);
    assert_eq!(cfg.not_focused_sleep_ms(), 100);
    assert_eq!(cfg.loop_yield_every(), 0);
}

#[test]
fn load_config_fails_on_a_coordinate_that_is_no_number() {
    let env = EnvVars { lanes: text("abc:e"), ..EnvVars::default() };
    let err = load_config(&env).unwrap_err();
    assert_eq!(err, ConfigError::BadCoordinate("abc".to_string()));
    assert_eq!(err.message(), "Bad x coordinate: abc");
}

#[test]
fn load_config_fails_on_a_key_of_several_characters() {
    let env = EnvVars { lanes: text("100:shift"), ..EnvVars::default() };
    let err = load_config(&env).unwrap_err();
    assert_eq!(err, ConfigError::KeyNotSingleChar("shift".to_string()));
    assert_eq!(err.message(), "Unsupported key (expected single char): shift");
}

#[test]
fn load_config_fails_on_an_empty_lane_list() {
    let env = EnvVars { lanes: text(""), ..EnvVars::default() };
    assert_eq!(load_config(&env).unwrap_err(), ConfigError::NoLanes);
    let env = EnvVars { lanes: text("731"), ..EnvVars::default() };
    assert_eq!(load_config(&env).unwrap_err(), ConfigError::BadLaneEntry("731".to_string()));
}

#[test]
fn config_new_refuses_an_empty_lane_list() {
    let r = Config::new(Vec::new(), 880, 240, 120, 20, 12, 50, 100, 0, "Roblox".to_string());
    assert_eq!(r.unwrap_err(), ConfigError::NoLanes);
}

#[test]
fn config_new_keeps_its_values() {
    let lanes = vec![lane(1, 'A'), lane(2, 'B')];
    let cfg = Config::new(lanes.clone(), -3, 7, -9, 1, 2, 3, 4, 5, "t".to_string()).unwrap();
    assert_eq!(cfg.lanes(), &lanes);
    assert_eq!(cfg.lane_count(), 2);
    assert_eq!(cfg.hit_zone_y(), -3);
    assert_eq!(cfg.brightness_thresh(), 7);
    assert_eq!(cfg.tolerance(), -9);
    assert_eq!(cfg.brightness_thresh3(), 21);
    assert_eq!(cfg.white_min(), 264);
    assert_eq!(cfg.min_hold_ms(), 1);
    assert_eq!(cfg.release_debounce_ms(), 2);
    assert_eq!(cfg.focus_poll_ms(), 3);
    assert_eq!(cfg.not_focused_sleep_ms(), 4);
    assert_eq!(cfg.loop_yield_every(), 5);
    assert_eq!(cfg.title_substr(), "t");
}

#[test]
fn clone_keeps_every_value() {
    let env = EnvVars { lanes: text("10:a,20:b"), tolerance: text("7"), ..EnvVars::default() };
    let cfg = load_config(&env).unwrap();
    let copy = cfg.clone();
    assert_eq!(copy.lanes(), cfg.lanes());
    assert_eq!(copy.hit_zone_y(), cfg.hit_zone_y());
    assert_eq!(copy.brightness_thresh(), cfg.brightness_thresh());
    assert_eq!(copy.tolerance(), 7);
    assert_eq!(copy.brightness_thresh3(), cfg.brightness_thresh3());
    assert_eq!(copy.white_min(), 248);
    assert_eq!(copy.min_hold_ms(), cfg.min_hold_ms());
    assert_eq!(copy.release_debounce_ms(), cfg.release_debounce_ms());
    assert_eq!(copy.focus_poll_ms(), cfg.focus_poll_ms());
    assert_eq!(copy.not_focused_sleep_ms(), cfg.not_focused_sleep_ms());
    assert_eq!(copy.loop_yield_every(), cfg.loop_yield_every());
    assert_eq!(copy.title_substr(), cfg.title_substr());
}

#[test]
fn scan_codes_are_set_lane_by_lane() {
    let cfg = load_config(&EnvVars::default()).unwrap();
    let cfg = cfg.with_scan_codes(&vec![0x12, 0x13, 0, 0x15]);
    assert_eq!(
        cfg.lanes(),
        &vec![
            Lane { x: 731, vk: 0x45, scan: 0x12 },
            Lane { x: 881, vk: 0x52, scan: 0x13 },
            Lane { x: 1031, vk: 0x54, scan: 0 },
            Lane { x: 1181, vk: 0x59, scan: 0x15 },
        ]
    );
    assert_eq!(cfg.hit_zone_y(), 880);
    assert_eq!(cfg.brightness_thresh3(), 720);
    assert_eq!(cfg.title_substr(), "Roblox");
}

#[test]
fn scan_codes_beyond_the_lanes_are_ignored_and_missing_ones_leave_the_lane() {
    let env = EnvVars { lanes: text("1:a,2:b"), ..EnvVars::default() };
    let cfg = load_config(&env).unwrap().with_scan_codes(&vec![0x1E]);
    assert_eq!(
        cfg.lanes(),
        &vec![Lane { x: 1, vk: 0x41, scan: 0x1E }, Lane { x: 2, vk: 0x42, scan: 0 }]
    );
    let cfg = cfg.with_scan_codes(&vec![0x20, 0x30, 0x40]);
    assert_eq!(
        cfg.lanes(),
        &vec![Lane { x: 1, vk: 0x41, scan: 0x20 }, Lane { x: 2, vk: 0x42, scan: 0x30 }]
    );
    let cfg = cfg.with_scan_codes(&Vec::new());
    assert_eq!(
        cfg.lanes(),
        &vec![Lane { x: 1, vk: 0x41, scan: 0x20 }, Lane { x: 2, vk: 0x42, scan: 0x30 }]
    );
}
