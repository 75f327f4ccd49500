//! The configuration: the lanes, the thresholds and the timings, and how
//! they are read from the text of the environment's variables.

use crate::error::{ConfigError, ConfigErrorView};
use crate::lanes::{
    is_parsed_lane, lemma_parse_lanes_gives_parsed_lanes, parse_lanes, parse_lanes_spec, Lane,
};
use crate::text::{parse_i32, parse_i32_spec, parse_u32, parse_u32_spec, trim, trim_str};
use vstd::prelude::*;
use vstd::string::StringExecFns;

verus! {

/// The lane list used where none is given.
pub const DEFAULT_LANES: &'static str = "731:e,881:r,1031:t,1181:y";

/// The window title looked for where none is given.
pub const DEFAULT_TITLE_SUBSTR: &'static str = "Roblox";

/// The sample row used where none is given.
pub const DEFAULT_HIT_ZONE_Y: i32 = 880;

/// The brightness threshold used where none is given.
pub const DEFAULT_BRIGHTNESS_THRESH: i32 = 240;

/// The colour tolerance used where none is given.
pub const DEFAULT_TOLERANCE: i32 = 120;

/// The minimum hold, in milliseconds, used where none is given.
pub const DEFAULT_MIN_HOLD_MS: u32 = 20;

/// The release debounce, in milliseconds, used where none is given.
pub const DEFAULT_RELEASE_DEBOUNCE_MS: u32 = 12;

/// The focus poll interval, in milliseconds, used where none is given.
pub const DEFAULT_FOCUS_POLL_MS: u32 = 50;

/// The sleep while unfocused, in milliseconds, used where none is given.
pub const DEFAULT_NOT_FOCUSED_SLEEP_MS: u32 = 100;

/// The yield cadence used where none is given: never yield.
pub const DEFAULT_LOOP_YIELD_EVERY: u32 = 0;

/// The name of the variable that holds the lane list.
pub const VAR_LANES: &'static str = "LANES";

/// The name of the variable that holds the sample row.
pub const VAR_HIT_ZONE_Y: &'static str = "HIT_ZONE_Y";

/// The name of the variable that holds the brightness threshold.
pub const VAR_BRIGHTNESS_THRESH: &'static str = "BRIGHTNESS_THRESH";

/// The name of the variable that holds the colour tolerance.
pub const VAR_TOLERANCE: &'static str = "TOLERANCE";

/// The name of the variable that holds the minimum hold.
pub const VAR_MIN_HOLD_MS: &'static str = "MIN_HOLD_MS";

/// The name of the variable that holds the release debounce.
pub const VAR_RELEASE_DEBOUNCE_MS: &'static str = "RELEASE_DEBOUNCE_MS";

/// The name of the variable that holds the focus poll interval.
pub const VAR_FOCUS_POLL_MS: &'static str = "FOCUS_POLL_MS";

/// The name of the variable that holds the sleep while unfocused.
pub const VAR_NOT_FOCUSED_SLEEP_MS: &'static str = "NOT_FOCUSED_SLEEP_MS";

/// The name of the variable that holds the yield cadence.
pub const VAR_LOOP_YIELD_EVERY: &'static str = "LOOP_YIELD_EVERY";

/// The name of the variable that holds the window title looked for.
pub const VAR_TITLE_SUBSTR: &'static str = "ROBLOX_TITLE_SUBSTR";

/// The name of the variable that holds the trace toggle.
pub const VAR_DEBUG: &'static str = "DEBUG";

/// The text of each configuration variable as the environment gave it;
/// `None` where the variable is not set.
#[derive(Clone, Debug, Default)]
pub struct EnvVars {
    /// The lane list, from `VAR_LANES`.
    pub lanes: Option<String>,
    /// The sample row, from `VAR_HIT_ZONE_Y`.
    pub hit_zone_y: Option<String>,
    /// The brightness threshold, from `VAR_BRIGHTNESS_THRESH`.
    pub brightness_thresh: Option<String>,
    /// The colour tolerance, from `VAR_TOLERANCE`.
    pub tolerance: Option<String>,
    /// The minimum hold in milliseconds, from `VAR_MIN_HOLD_MS`.
    pub min_hold_ms: Option<String>,
    /// The release debounce in milliseconds, from `VAR_RELEASE_DEBOUNCE_MS`.
    pub release_debounce_ms: Option<String>,
    /// The focus poll interval in milliseconds, from `VAR_FOCUS_POLL_MS`.
    pub focus_poll_ms: Option<String>,
    /// The sleep while unfocused in milliseconds, from
    /// `VAR_NOT_FOCUSED_SLEEP_MS`.
    pub not_focused_sleep_ms: Option<String>,
    /// The yield cadence, from `VAR_LOOP_YIELD_EVERY`.
    pub loop_yield_every: Option<String>,
    /// The window title looked for, from `VAR_TITLE_SUBSTR`.
    pub roblox_title_substr: Option<String>,
    /// The trace toggle, from `VAR_DEBUG`.
    pub debug: Option<String>,
}

/// The value of an unsigned variable: the number that its trimmed text
/// writes, or `default` where it is not set or writes none.
pub open spec fn u32_or(value: Option<String>, default: u32) -> u32 {
    match value {
        Some(text) => match parse_u32_spec(trim(text@)) {
            Some(x) => x,
            None => default,
        },
        None => default,
    }
}

/// The value of a signed variable: the number that its trimmed text writes,
/// or `default` where it is not set or writes none.
pub open spec fn i32_or(value: Option<String>, default: i32) -> i32 {
    match value {
        Some(text) => match parse_i32_spec(trim(text@)) {
            Some(x) => x,
            None => default,
        },
        None => default,
    }
}

/// The value of a text variable: its text as it stands, or `default` where it
/// is not set.
pub open spec fn text_or(value: Option<String>, default: Seq<char>) -> Seq<char> {
    match value {
        Some(text) => text@,
        None => default,
    }
}

/// Reads an unsigned variable, falling back to `default`.
pub fn env_u32(value: &Option<String>, default: u32) -> (r: u32)
    ensures
        r == u32_or(*value, default),
{
    match value {
        Some(text) => match parse_u32(trim_str(text.as_str())) {
            Some(x) => x,
            None => default,
        },
        None => default,
    }
}

/// Reads a signed variable, falling back to `default`.
pub fn env_i32(value: &Option<String>, default: i32) -> (r: i32)
    ensures
        r == i32_or(*value, default),
{
    match value {
        Some(text) => match parse_i32(trim_str(text.as_str())) {
            Some(x) => x,
            None => default,
        },
        None => default,
    }
}

/// Reads a text variable, falling back to `default`.
pub fn env_string(value: &Option<String>, default: &str) -> (r: String)
    ensures
        r@ == text_or(*value, default@),
{
    match value {
        Some(text) => text.clone(),
        None => String::from_str(default),
    }
}

/// Whether the trace toggle is on: its variable writes a number other than 0.
pub fn debug_enabled(env: &EnvVars) -> (on: bool)
    ensures
        on == (u32_or(env.debug, 0) != 0),
{
    env_u32(&env.debug, 0) != 0
}

/// What a `Config` holds, as plain values.
pub struct ConfigView {
    /// The lanes, in the order of the lane list; at least one.
    pub lanes: Seq<Lane>,
    /// The vertical screen coordinate that every lane samples.
    pub hit_zone_y: i32,
    /// The brightness threshold of the classifier.
    pub brightness_thresh: i32,
    /// The colour tolerance of the classifier.
    pub tolerance: i32,
    /// The shortest time a key stays down, in milliseconds.
    pub min_hold_ms: u32,
    /// How long the marker must be gone before a release, in milliseconds.
    pub release_debounce_ms: u32,
    /// The pause between two focus checks, in milliseconds.
    pub focus_poll_ms: u32,
    /// The pause of a lane while the target is unfocused, in milliseconds.
    pub not_focused_sleep_ms: u32,
    /// Yield after every so many samples; 0 for never.
    pub loop_yield_every: u32,
    /// The text that the target window's title holds.
    pub title_substr: Seq<char>,
}

impl ConfigView {
    /// The channel sum above which a colour is bright.
    pub open spec fn brightness_thresh3(self) -> int {
        3 * self.brightness_thresh
    }

    /// The least channel value of a near-white colour.
    pub open spec fn white_min(self) -> int {
        255 - self.tolerance
    }
}

/// The configuration of one run. It is made once and never changed; it holds
/// at least one lane.
#[derive(Debug)]
pub struct Config {
    lanes: Vec<Lane>,
    hit_zone_y: i32,
    brightness_thresh: i32,
    tolerance: i32,
    brightness_thresh3: i64,
    white_min: i64,
    min_hold_ms: u32,
    release_debounce_ms: u32,
    focus_poll_ms: u32,
    not_focused_sleep_ms: u32,
    loop_yield_every: u32,
    title_substr: String,
}

impl View for Config {
    type V = ConfigView;

    closed spec fn view(&self) -> ConfigView {
        ConfigView {
            lanes: self.lanes@,
            hit_zone_y: self.hit_zone_y,
            brightness_thresh: self.brightness_thresh,
            tolerance: self.tolerance,
            min_hold_ms: self.min_hold_ms,
            release_debounce_ms: self.release_debounce_ms,
            focus_poll_ms: self.focus_poll_ms,
            not_focused_sleep_ms: self.not_focused_sleep_ms,
            loop_yield_every: self.loop_yield_every,
            title_substr: self.title_substr@,
        }
    }
}

impl Clone for Config {
    fn clone(&self) -> (copy: Config)
        ensures
            copy@ == self@,
    {
        proof {
            use_type_invariant(self);
        }
        let n: usize = self.lanes.len();
        let mut lanes: Vec<Lane> = Vec::new();
        let mut i: usize = 0;
        while i < n
            invariant
                n == self.lanes@.len(),
                i <= n,
                lanes@ == self.lanes@.take(i as int),
            decreases n - i,
        {
            lanes.push(self.lanes[i]);
            i = i + 1;
        }
        assert(lanes@ == self.lanes@);
        Config {
            lanes,
            hit_zone_y: self.hit_zone_y,
            brightness_thresh: self.brightness_thresh,
            tolerance: self.tolerance,
            brightness_thresh3: self.brightness_thresh3,
            white_min: self.white_min,
            min_hold_ms: self.min_hold_ms,
            release_debounce_ms: self.release_debounce_ms,
            focus_poll_ms: self.focus_poll_ms,
            not_focused_sleep_ms: self.not_focused_sleep_ms,
            loop_yield_every: self.loop_yield_every,
            title_substr: self.title_substr.clone(),
        }
    }
}

impl Config {
    #[verifier::type_invariant]
    spec fn well_formed(&self) -> bool {
        &&& self.lanes@.len() > 0
        &&& self.brightness_thresh3 == 3 * self.brightness_thresh
        &&& self.white_min == 255 - self.tolerance
    }

    /// Makes a configuration from its values. An empty lane list is refused.
    pub fn new(
        lanes: Vec<Lane>,
        hit_zone_y: i32,
        brightness_thresh: i32,
        tolerance: i32,
        min_hold_ms: u32,
        release_debounce_ms: u32,
        focus_poll_ms: u32,
        not_focused_sleep_ms: u32,
        loop_yield_every: u32,
        title_substr: String,
    ) -> (r: Result<Config, ConfigError>)
        ensures
            match r {
                Ok(cfg) => lanes@.len() > 0 && cfg@ == (ConfigView {
                    lanes: lanes@,
                    hit_zone_y,
                    brightness_thresh,
                    tolerance,
                    min_hold_ms,
                    release_debounce_ms,
                    focus_poll_ms,
                    not_focused_sleep_ms,
                    loop_yield_every,
                    title_substr: title_substr@,
                }),
                Err(e) => lanes@.len() == 0 && e@ == ConfigErrorView::NoLanes,
            },
    {
        if lanes.len() == 0 {
            return Err(ConfigError::NoLanes);
        }
        Ok(
            Config {
                lanes,
                hit_zone_y,
                brightness_thresh,
                tolerance,
                brightness_thresh3: 3 * (brightness_thresh as i64),
                white_min: 255 - (tolerance as i64),
                min_hold_ms,
                release_debounce_ms,
                focus_poll_ms,
                not_focused_sleep_ms,
                loop_yield_every,
                title_substr,
            },
        )
    }
}

impl Config {
    /// The lanes, in the order of the lane list; at least one.
    pub fn lanes(&self) -> (lanes: &Vec<Lane>)
        ensures
            lanes@ == self@.lanes,
            lanes@.len() > 0,
    {
        proof {
            use_type_invariant(self);
        }
        &self.lanes
    }

    /// The number of lanes; at least one.
    pub fn lane_count(&self) -> (n: usize)
        ensures
            n == self@.lanes.len(),
            n > 0,
    {
        proof {
            use_type_invariant(self);
        }
        self.lanes.len()
    }

    /// The vertical screen coordinate that every lane samples.
    pub fn hit_zone_y(&self) -> (y: i32)
        ensures
            y == self@.hit_zone_y,
    {
        self.hit_zone_y
    }

    /// The brightness threshold of the classifier.
    pub fn brightness_thresh(&self) -> (t: i32)
        ensures
            t == self@.brightness_thresh,
    {
        self.brightness_thresh
    }

    /// The colour tolerance of the classifier.
    pub fn tolerance(&self) -> (t: i32)
        ensures
            t == self@.tolerance,
    {
        self.tolerance
    }

    /// The channel sum above which a colour is bright: three times the
    /// brightness threshold.
    pub fn brightness_thresh3(&self) -> (t: i64)
        ensures
            t == self@.brightness_thresh3(),
            t == 3 * self@.brightness_thresh,
    {
        proof {
            use_type_invariant(self);
        }
        self.brightness_thresh3
    }

    /// The least channel value of a near-white colour: 255 less the
    /// tolerance.
    pub fn white_min(&self) -> (m: i64)
        ensures
            m == self@.white_min(),
            m == 255 - self@.tolerance,
    {
        proof {
            use_type_invariant(self);
        }
        self.white_min
    }

    /// The shortest time a key stays down, in milliseconds.
    pub fn min_hold_ms(&self) -> (ms: u32)
        ensures
            ms == self@.min_hold_ms,
    {
        self.min_hold_ms
    }

    /// How long the marker must be gone before a release, in milliseconds.
    pub fn release_debounce_ms(&self) -> (ms: u32)
        ensures
            ms == self@.release_debounce_ms,
    {
        self.release_debounce_ms
    }

    /// The pause between two focus checks, in milliseconds.
    pub fn focus_poll_ms(&self) -> (ms: u32)
        ensures
            ms == self@.focus_poll_ms,
    {
        self.focus_poll_ms
    }

    /// The pause of a lane while the target is unfocused, in milliseconds.
    pub fn not_focused_sleep_ms(&self) -> (ms: u32)
        ensures
            ms == self@.not_focused_sleep_ms,
    {
        self.not_focused_sleep_ms
    }

    /// Yield after every so many samples; 0 for never.
    pub fn loop_yield_every(&self) -> (n: u32)
        ensures
            n == self@.loop_yield_every,
    {
        self.loop_yield_every
    }

    /// The text that the target window's title holds.
    pub fn title_substr(&self) -> (text: &str)
        ensures
            text@ == self@.title_substr,
    {
        self.title_substr.as_str()
    }

    /// The same configuration with the scan code of each lane set from
    /// `scans`, lane by lane. A lane beyond the end of `scans` keeps the scan
    /// code it has.
    pub fn with_scan_codes(self, scans: &Vec<u16>) -> (cfg: Config)
        ensures
            cfg@ == (ConfigView { lanes: with_scans(self@.lanes, scans@), ..self@ }),
    {
        proof {
            use_type_invariant(&self);
        }
        let n: usize = self.lanes.len();
        let mut lanes: Vec<Lane> = Vec::new();
        let mut i: usize = 0;
        while i < n
            invariant
                n == self.lanes@.len(),
                i <= n,
                lanes@ == with_scans(self.lanes@, scans@).take(i as int),
            decreases n - i,
        {
            let lane = self.lanes[i];
            let scan: u16 = if i < scans.len() {
                scans[i]
            } else {
                lane.scan
            };
            lanes.push(Lane { x: lane.x, vk: lane.vk, scan });
            i = i + 1;
        }
        assert(lanes@ == with_scans(self.lanes@, scans@));
        Config {
            lanes,
            hit_zone_y: self.hit_zone_y,
            brightness_thresh: self.brightness_thresh,
            tolerance: self.tolerance,
            brightness_thresh3: self.brightness_thresh3,
            white_min: self.white_min,
            min_hold_ms: self.min_hold_ms,
            release_debounce_ms: self.release_debounce_ms,
            focus_poll_ms: self.focus_poll_ms,
            not_focused_sleep_ms: self.not_focused_sleep_ms,
            loop_yield_every: self.loop_yield_every,
            title_substr: self.title_substr,
        }
    }
}

/// `lanes` with the scan code of each lane taken from `scans` at the same
/// place; a lane beyond the end of `scans` is unchanged.
pub open spec fn with_scans(lanes: Seq<Lane>, scans: Seq<u16>) -> Seq<Lane> {
    Seq::new(
        lanes.len(),
        |i: int|
            if i < scans.len() {
                Lane { x: lanes[i].x, vk: lanes[i].vk, scan: scans[i] }
            } else {
                lanes[i]
            },
    )
}

/// The configuration that the variables describe. Only the lane list can
/// fail; every other variable falls back to its default where it is not set
/// or, for a number, does not parse.
pub open spec fn load_config_spec(env: EnvVars) -> Result<ConfigView, ConfigErrorView> {
    match parse_lanes_spec(text_or(env.lanes, DEFAULT_LANES@)) {
        Err(e) => Err(e),
        Ok(lanes) => Ok(
            ConfigView {
                lanes,
                hit_zone_y: i32_or(env.hit_zone_y, DEFAULT_HIT_ZONE_Y),
                brightness_thresh: i32_or(env.brightness_thresh, DEFAULT_BRIGHTNESS_THRESH),
                tolerance: i32_or(env.tolerance, DEFAULT_TOLERANCE),
                min_hold_ms: u32_or(env.min_hold_ms, DEFAULT_MIN_HOLD_MS),
                release_debounce_ms: u32_or(env.release_debounce_ms, DEFAULT_RELEASE_DEBOUNCE_MS),
                focus_poll_ms: u32_or(env.focus_poll_ms, DEFAULT_FOCUS_POLL_MS),
                not_focused_sleep_ms: u32_or(
                    env.not_focused_sleep_ms,
                    DEFAULT_NOT_FOCUSED_SLEEP_MS,
                ),
                loop_yield_every: u32_or(env.loop_yield_every, DEFAULT_LOOP_YIELD_EVERY),
                title_substr: text_or(env.roblox_title_substr, DEFAULT_TITLE_SUBSTR@),
            },
        ),
    }
}

/// The core never gets an empty or malformed lane list: a configuration that
/// is accepted holds at least one lane, and every lane has a supported key.
pub proof fn lemma_load_config_gives_lanes(env: EnvVars)
    ensures
        load_config_spec(env) matches Ok(cfg) ==> cfg.lanes.len() > 0 && forall|i: int|
            0 <= i < cfg.lanes.len() ==> is_parsed_lane(#[trigger] cfg.lanes[i]),
{
    lemma_parse_lanes_gives_parsed_lanes(text_or(env.lanes, DEFAULT_LANES@));
}

/// Makes the configuration from the text of the variables. The lanes come
/// without scan codes.
pub fn load_config(env: &EnvVars) -> (r: Result<Config, ConfigError>)
    ensures
        match r {
            Ok(cfg) => load_config_spec(*env) == Ok::<ConfigView, ConfigErrorView>(cfg@),
            Err(e) => load_config_spec(*env) == Err::<ConfigView, ConfigErrorView>(e@),
        },
{
    let lanes_spec = env_string(&env.lanes, DEFAULT_LANES);
    let lanes = match parse_lanes(lanes_spec.as_str()) {
        Ok(lanes) => lanes,
        Err(e) => {
            return Err(e);
        },
    };
    let hit_zone_y = env_i32(&env.hit_zone_y, DEFAULT_HIT_ZONE_Y);
    let brightness_thresh = env_i32(&env.brightness_thresh, DEFAULT_BRIGHTNESS_THRESH);
    let tolerance = env_i32(&env.tolerance, DEFAULT_TOLERANCE);
    let min_hold_ms = env_u32(&env.min_hold_ms, DEFAULT_MIN_HOLD_MS);
    let release_debounce_ms = env_u32(&env.release_debounce_ms, DEFAULT_RELEASE_DEBOUNCE_MS);
    let focus_poll_ms = env_u32(&env.focus_poll_ms, DEFAULT_FOCUS_POLL_MS);
    let not_focused_sleep_ms = env_u32(&env.not_focused_sleep_ms, DEFAULT_NOT_FOCUSED_SLEEP_MS);
    let loop_yield_every = env_u32(&env.loop_yield_every, DEFAULT_LOOP_YIELD_EVERY);
    let title_substr = env_string(&env.roblox_title_substr, DEFAULT_TITLE_SUBSTR);
    Config::new(
        lanes,
        hit_zone_y,
        brightness_thresh,
        tolerance,
        min_hold_ms,
        release_debounce_ms,
        focus_poll_ms,
        not_focused_sleep_ms,
        loop_yield_every,
        title_substr,
    )
}

} // verus!
