//! The lane worker: the press/release state machine of one lane.
//!
//! A worker is driven from outside, one observation at a time. It answers
//! each with the key action to inject and with how to pause before the next
//! observation. Times are monotonic nanoseconds on a clock of the caller's
//! choosing.

use crate::classify::{is_active, is_white, Rgb};
use crate::config::{Config, ConfigView};
use crate::lanes::Lane;
use crate::keys::{lane_key_event, lane_key_event_spec, KeyEvent};
use vstd::prelude::*;

verus! {

/// Nanoseconds in one millisecond.
pub const NANOS_PER_MILLI: u64 = 1_000_000;

/// What a worker sees at the start of one iteration.
#[derive(Clone, Copy, Debug, PartialEq, Eq, Structural)]
pub enum Observation {
    /// The run has been stopped.
    Stopped,
    /// The target window does not have the focus. No pixel is sampled then.
    Unfocused,
    /// The target window has the focus. The lane's pixel was sampled at time
    /// `now`; `sample` is its colour, or `None` where the sample failed.
    Focused { now: u64, sample: Option<Rgb> },
}

impl Observation {
    /// The observation that the two shared flags decide without a sample:
    /// the stop where the run is over, the lost focus where the target is
    /// not focused. `None` where the lane is to sample its pixel.
    pub fn from_flags(running: bool, focused: bool) -> (obs: Option<Observation>)
        ensures
            !running ==> obs == Some(Observation::Stopped),
            running && !focused ==> obs == Some(Observation::Unfocused),
            running && focused ==> obs is None,
    {
        if !running {
            Some(Observation::Stopped)
        } else if !focused {
            Some(Observation::Unfocused)
        } else {
            None
        }
    }
}

/// What a worker injects.
#[derive(Clone, Copy, Debug, PartialEq, Eq, Structural)]
pub enum KeyAction {
    /// No event.
    Nothing,
    /// A key-down event.
    Press,
    /// A key-up event.
    Release,
}

/// How a worker pauses after an iteration.
#[derive(Clone, Copy, Debug, PartialEq, Eq, Structural)]
pub enum Pause {
    /// Go on at once.
    Continue,
    /// Yield the processor, then go on.
    Yield,
    /// Sleep for so many milliseconds, then go on.
    Sleep(u32),
    /// Leave the loop: the worker is done.
    Exit,
}

/// A worker's answer to one observation.
#[derive(Clone, Copy, Debug, PartialEq, Eq, Structural)]
pub struct StepOutput {
    pub action: KeyAction,
    pub pause: Pause,
}

/// The state of one lane between two iterations.
#[derive(Clone, Copy, Debug, PartialEq, Eq, Structural)]
pub struct LaneState {
    /// Whether the lane's key is held down.
    pub held: bool,
    /// The time of the latest sample that showed the marker.
    pub last_white: u64,
    /// The time at which the key last went down.
    pub press_time: u64,
    /// The number of samples taken, wrapping at the 32-bit limit.
    pub iters: u32,
}

/// The time from `since` to `now`; zero where `now` is the earlier.
pub open spec fn elapsed(now: u64, since: u64) -> int {
    if now >= since {
        now - since
    } else {
        0
    }
}

/// So many milliseconds in nanoseconds.
pub open spec fn millis(ms: u32) -> int {
    ms * NANOS_PER_MILLI
}

/// Whether a held key may go up at `now`: the marker has been gone for the
/// release debounce, and the key has been down for the minimum hold. Both
/// must hold.
pub open spec fn may_release(cfg: ConfigView, s: LaneState, now: u64) -> bool {
    &&& elapsed(now, s.last_white) >= millis(cfg.release_debounce_ms)
    &&& elapsed(now, s.press_time) >= millis(cfg.min_hold_ms)
}

/// Whether `color` is the active marker under `cfg`.
pub open spec fn shows_marker(cfg: ConfigView, color: Rgb) -> bool {
    is_active(
        cfg.brightness_thresh as int,
        cfg.tolerance as int,
        color.r as int,
        color.g as int,
        color.b as int,
    )
}

/// The sample count after one more sample.
pub open spec fn next_iters(iters: u32) -> u32 {
    if iters == u32::MAX {
        0
    } else {
        (iters + 1) as u32
    }
}

/// The pause after the sample that brought the count to `iters`: a yield at
/// every multiple of a nonzero cadence.
pub open spec fn pause_after(cfg: ConfigView, iters: u32) -> Pause {
    if cfg.loop_yield_every != 0 && iters % cfg.loop_yield_every == 0 {
        Pause::Yield
    } else {
        Pause::Continue
    }
}

/// The key action that a focused lane takes on a sample at `now`.
pub open spec fn sample_action(cfg: ConfigView, s: LaneState, now: u64, sample: Option<Rgb>)
    -> KeyAction {
    match sample {
        None => KeyAction::Nothing,
        Some(color) => if shows_marker(cfg, color) {
            if s.held {
                KeyAction::Nothing
            } else {
                KeyAction::Press
            }
        } else if s.held && may_release(cfg, s, now) {
            KeyAction::Release
        } else {
            KeyAction::Nothing
        },
    }
}

/// One iteration of a lane: the state after `obs` and the answer to it.
pub open spec fn step_spec(cfg: ConfigView, s: LaneState, obs: Observation) -> (
    LaneState,
    StepOutput,
) {
    match obs {
        Observation::Stopped => (
            LaneState { held: false, ..s },
            StepOutput {
                action: if s.held {
                    KeyAction::Release
                } else {
                    KeyAction::Nothing
                },
                pause: Pause::Exit,
            },
        ),
        Observation::Unfocused => (
            LaneState { held: false, ..s },
            StepOutput {
                action: if s.held {
                    KeyAction::Release
                } else {
                    KeyAction::Nothing
                },
                pause: Pause::Sleep(cfg.not_focused_sleep_ms),
            },
        ),
        Observation::Focused { now, sample } => {
            let action = sample_action(cfg, s, now, sample);
            let iters = next_iters(s.iters);
            let marker = sample matches Some(color) && shows_marker(cfg, color);
            (
                LaneState {
                    held: match action {
                        KeyAction::Press => true,
                        KeyAction::Release => false,
                        KeyAction::Nothing => s.held,
                    },
                    last_white: if marker {
                        now
                    } else {
                        s.last_white
                    },
                    press_time: if action == KeyAction::Press {
                        now
                    } else {
                        s.press_time
                    },
                    iters,
                },
                StepOutput { action, pause: pause_after(cfg, iters) },
            )
        },
    }
}

/// The worker of one lane. It owns the lane and its state; nothing else can
/// change them.
#[derive(Debug)]
pub struct LaneWorker {
    lane: Lane,
    state: LaneState,
}

impl View for LaneWorker {
    type V = LaneState;

    closed spec fn view(&self) -> LaneState {
        self.state
    }
}

/// The time from `since` to `now`; zero where `now` is the earlier.
fn elapsed_since(now: u64, since: u64) -> (d: u64)
    ensures
        d == elapsed(now, since),
{
    if now >= since {
        now - since
    } else {
        0
    }
}

impl LaneWorker {
    /// The lane that this worker serves.
    pub closed spec fn spec_lane(&self) -> Lane {
        self.lane
    }

    /// A worker for `lane`, started at time `now` with the key up.
    pub fn new(lane: Lane, now: u64) -> (w: LaneWorker)
        ensures
            w.spec_lane() == lane,
            w@ == (LaneState { held: false, last_white: now, press_time: now, iters: 0 }),
    {
        LaneWorker {
            lane,
            state: LaneState { held: false, last_white: now, press_time: now, iters: 0 },
        }
    }

    /// The lane that this worker serves.
    pub fn lane(&self) -> (lane: Lane)
        ensures
            lane == self.spec_lane(),
    {
        self.lane
    }

    /// The worker's state.
    pub fn state(&self) -> (s: LaneState)
        ensures
            s == self@,
    {
        self.state
    }

    /// Whether the lane's key is held down.
    pub fn is_held(&self) -> (held: bool)
        ensures
            held == self@.held,
    {
        self.state.held
    }

    /// The screen point that this lane samples: its own column, on the row
    /// that all lanes share.
    pub fn sample_point(&self, cfg: &Config) -> (p: (i32, i32))
        ensures
            p == (self.spec_lane().x, cfg@.hit_zone_y),
    {
        (self.lane.x, cfg.hit_zone_y())
    }

    /// The event to inject for `action` on this lane's key, if any.
    pub fn key_event(&self, action: KeyAction) -> (ev: Option<KeyEvent>)
        ensures
            ev == match action {
                KeyAction::Nothing => None,
                KeyAction::Press => Some(lane_key_event_spec(self.spec_lane(), true)),
                KeyAction::Release => Some(lane_key_event_spec(self.spec_lane(), false)),
            },
    {
        match action {
            KeyAction::Nothing => None,
            KeyAction::Press => Some(lane_key_event(&self.lane, true)),
            KeyAction::Release => Some(lane_key_event(&self.lane, false)),
        }
    }

    /// Whether the held key may go up at `now`.
    fn release_due(&self, cfg: &Config, now: u64) -> (due: bool)
        ensures
            due == may_release(cfg@, self@, now),
    {
        let debounce: u64 = (cfg.release_debounce_ms() as u64) * NANOS_PER_MILLI;
        let min_hold: u64 = (cfg.min_hold_ms() as u64) * NANOS_PER_MILLI;
        elapsed_since(now, self.state.last_white) >= debounce && elapsed_since(
            now,
            self.state.press_time,
        ) >= min_hold
    }

    /// Runs one iteration on the observation `obs`.
    ///
    /// Stopped or unfocused, a held key goes up at once, whatever the
    /// timers say. Focused, a sample that shows the marker presses a key
    /// that is up; one that does not releases a held key only when both the
    /// release debounce and the minimum hold have passed; a failed sample
    /// changes nothing. Only focused iterations count towards the yield
    /// cadence.
    pub fn step(&mut self, cfg: &Config, obs: Observation) -> (out: StepOutput)
        ensures
            (final(self)@, out) == step_spec(cfg@, old(self)@, obs),
            final(self).spec_lane() == old(self).spec_lane(),
            out.action == KeyAction::Press ==> !old(self)@.held && final(self)@.held,
            out.action == KeyAction::Release ==> old(self)@.held && !final(self)@.held,
            out.action == KeyAction::Nothing && obs is Focused ==> final(self)@.held == old(
                self,
            )@.held,
            !(obs is Focused) ==> !final(self)@.held && (out.action == KeyAction::Release
                <==> old(self)@.held),
            obs is Stopped <==> out.pause == Pause::Exit,
            obs matches Observation::Focused { sample: Some(color), .. } && shows_marker(
                cfg@,
                color,
            ) ==> (out.action == KeyAction::Press <==> !old(self)@.held) && final(self)@.held,
            obs matches Observation::Focused { now, sample: Some(color) } && !shows_marker(
                cfg@,
                color,
            ) && elapsed(now, old(self)@.last_white) < millis(cfg@.release_debounce_ms)
                ==> out.action == KeyAction::Nothing,
            obs matches Observation::Focused { now, sample: Some(color) } && !shows_marker(
                cfg@,
                color,
            ) && elapsed(now, old(self)@.press_time) < millis(cfg@.min_hold_ms) ==> out.action
                == KeyAction::Nothing,
            obs matches Observation::Focused { now, sample: Some(color) } && !shows_marker(
                cfg@,
                color,
            ) && old(self)@.held && may_release(cfg@, old(self)@, now) ==> out.action
                == KeyAction::Release,
    {
        match obs {
            Observation::Stopped => {
                let action = if self.state.held {
                    KeyAction::Release
                } else {
                    KeyAction::Nothing
                };
                self.state.held = false;
                StepOutput { action, pause: Pause::Exit }
            },
            Observation::Unfocused => {
                let action = if self.state.held {
                    KeyAction::Release
                } else {
                    KeyAction::Nothing
                };
                self.state.held = false;
                StepOutput { action, pause: Pause::Sleep(cfg.not_focused_sleep_ms()) }
            },
            Observation::Focused { now, sample } => {
                let mut action = KeyAction::Nothing;
                match sample {
                    None => {},
                    Some(color) => {
                        if is_white(cfg, color.r as i32, color.g as i32, color.b as i32) {
                            self.state.last_white = now;
                            if !self.state.held {
                                action = KeyAction::Press;
                                self.state.held = true;
                                self.state.press_time = now;
                            }
                        } else if self.state.held && self.release_due(cfg, now) {
                            action = KeyAction::Release;
                            self.state.held = false;
                        }
                    },
                }
                self.state.iters = self.state.iters.wrapping_add(1);
                let every: u32 = cfg.loop_yield_every();
                let pause = if every != 0 && self.state.iters % every == 0 {
                    Pause::Yield
                } else {
                    Pause::Continue
                };
                StepOutput { action, pause }
            },
        }
    }
}

/// The processor that a lane is pinned to: its index modulo the number of
/// logical processors.
pub open spec fn lane_core(lane_index: usize, core_count: usize) -> int {
    lane_index as int % core_count as int
}

/// The affinity mask that pins lane `lane_index` to its processor: the one
/// bit of `lane_core`. There is none where no processor is known, or where
/// the processor's bit does not fit the mask.
pub fn affinity_mask(lane_index: usize, core_count: usize) -> (mask: Option<usize>)
    ensures
        match mask {
            Some(m) => core_count > 0 && lane_core(lane_index, core_count) < usize::BITS && m
                == 1usize << (lane_core(lane_index, core_count) as usize),
            None => core_count == 0 || lane_core(lane_index, core_count) >= usize::BITS,
        },
{
    if core_count == 0 {
        return None;
    }
    let core: usize = lane_index % core_count;
    if core >= usize::BITS as usize {
        return None;
    }
    Some(1usize << core)
}

} // verus!
