//! Runs of a lane: what holds of the key actions over any sequence of
//! observations.

use crate::config::ConfigView;
use crate::worker::{
    elapsed, millis, shows_marker, step_spec, KeyAction, LaneState, Observation,
};
use vstd::prelude::*;

verus! {

/// A lane run from `start` over the observations `obs`, one iteration each:
/// the state at the end, and the key action of every iteration.
pub open spec fn run(cfg: ConfigView, start: LaneState, obs: Seq<Observation>) -> (
    LaneState,
    Seq<KeyAction>,
)
    decreases obs.len(),
{
    if obs.len() == 0 {
        (start, Seq::empty())
    } else {
        let (mid, actions) = run(cfg, start, obs.drop_last());
        let (end, out) = step_spec(cfg, mid, obs.last());
        (end, actions.push(out.action))
    }
}

/// The state of the run before iteration `k`.
pub open spec fn state_at(cfg: ConfigView, start: LaneState, obs: Seq<Observation>, k: int)
    -> LaneState {
    run(cfg, start, obs.take(k)).0
}

/// The key actions of the run, one for each observation.
pub open spec fn actions_of(cfg: ConfigView, start: LaneState, obs: Seq<Observation>) -> Seq<
    KeyAction,
> {
    run(cfg, start, obs).1
}

/// Whether `obs` is a sample that shows the marker.
pub open spec fn is_marker_sample(cfg: ConfigView, obs: Observation) -> bool {
    obs matches Observation::Focused { sample: Some(color), .. } && shows_marker(cfg, color)
}

/// A run has one action for each observation.
pub proof fn lemma_run_len(cfg: ConfigView, start: LaneState, obs: Seq<Observation>)
    ensures
        actions_of(cfg, start, obs).len() == obs.len(),
    decreases obs.len(),
{
    if obs.len() > 0 {
        lemma_run_len(cfg, start, obs.drop_last());
    }
}

/// Iteration `k` of a run is one step: from the state before it, on the
/// observation `obs[k]`, to the state before the next, with the action that
/// the run lists at `k`.
pub proof fn lemma_run_step(cfg: ConfigView, start: LaneState, obs: Seq<Observation>, k: int)
    requires
        0 <= k < obs.len(),
    ensures
        actions_of(cfg, start, obs).len() == obs.len(),
        step_spec(cfg, state_at(cfg, start, obs, k), obs[k]).0 == state_at(cfg, start, obs, k + 1),
        step_spec(cfg, state_at(cfg, start, obs, k), obs[k]).1.action == actions_of(
            cfg,
            start,
            obs,
        )[k],
    decreases obs.len(),
{
    lemma_run_len(cfg, start, obs);
    lemma_run_len(cfg, start, obs.drop_last());
    if k == obs.len() - 1 {
        assert(obs.take(k) == obs.drop_last());
        assert(obs.take(k + 1) == obs);
    } else {
        lemma_run_step(cfg, start, obs.drop_last(), k);
        assert(obs.drop_last().take(k) == obs.take(k));
        assert(obs.drop_last().take(k + 1) == obs.take(k + 1));
    }
}

/// The ends of a run: it starts in `start`, and the state after the last
/// iteration is the state that `run` gives.
pub proof fn lemma_run_ends(cfg: ConfigView, start: LaneState, obs: Seq<Observation>)
    ensures
        state_at(cfg, start, obs, 0) == start,
        state_at(cfg, start, obs, obs.len() as int) == run(cfg, start, obs).0,
{
    assert(obs.take(0) == Seq::<Observation>::empty());
    assert(obs.take(obs.len() as int) == obs);
}

/// The key follows the actions: a press finds the key up and leaves it
/// down, a release finds it down and leaves it up, and without an action the
/// key stays as it was.
pub proof fn lemma_held_follows_action(
    cfg: ConfigView,
    start: LaneState,
    obs: Seq<Observation>,
    k: int,
)
    requires
        0 <= k < obs.len(),
    ensures
        match actions_of(cfg, start, obs)[k] {
            KeyAction::Press => !state_at(cfg, start, obs, k).held && state_at(
                cfg,
                start,
                obs,
                k + 1,
            ).held,
            KeyAction::Release => state_at(cfg, start, obs, k).held && !state_at(
                cfg,
                start,
                obs,
                k + 1,
            ).held,
            KeyAction::Nothing => state_at(cfg, start, obs, k + 1).held == state_at(
                cfg,
                start,
                obs,
                k,
            ).held,
        },
{
    lemma_run_step(cfg, start, obs, k);
}

/// Where the key is down before iteration `a` and up before a later
/// iteration `b`, a release lies between.
proof fn lemma_release_between(
    cfg: ConfigView,
    start: LaneState,
    obs: Seq<Observation>,
    a: int,
    b: int,
) -> (k: int)
    requires
        0 <= a <= b <= obs.len(),
        state_at(cfg, start, obs, a).held,
        !state_at(cfg, start, obs, b).held,
    ensures
        a <= k < b,
        actions_of(cfg, start, obs)[k] == KeyAction::Release,
    decreases b - a,
{
    if state_at(cfg, start, obs, b - 1).held {
        lemma_held_follows_action(cfg, start, obs, b - 1);
        b - 1
    } else {
        lemma_release_between(cfg, start, obs, a, b - 1)
    }
}

/// Where the key is up before iteration `a` and down before a later
/// iteration `b`, a press lies between.
proof fn lemma_press_between(
    cfg: ConfigView,
    start: LaneState,
    obs: Seq<Observation>,
    a: int,
    b: int,
) -> (k: int)
    requires
        0 <= a <= b <= obs.len(),
        !state_at(cfg, start, obs, a).held,
        state_at(cfg, start, obs, b).held,
    ensures
        a <= k < b,
        actions_of(cfg, start, obs)[k] == KeyAction::Press,
    decreases b - a,
{
    if !state_at(cfg, start, obs, b - 1).held {
        lemma_held_follows_action(cfg, start, obs, b - 1);
        b - 1
    } else {
        lemma_press_between(cfg, start, obs, a, b - 1)
    }
}

/// A press is idempotent: in any run, between two presses of a lane lies a
/// release. No two key-down events follow one another.
pub proof fn lemma_no_double_press(
    cfg: ConfigView,
    start: LaneState,
    obs: Seq<Observation>,
    i: int,
    j: int,
)
    requires
        0 <= i < j < obs.len(),
        actions_of(cfg, start, obs)[i] == KeyAction::Press,
        actions_of(cfg, start, obs)[j] == KeyAction::Press,
    ensures
        exists|k: int| i < k < j && actions_of(cfg, start, obs)[k] == KeyAction::Release,
{
    lemma_held_follows_action(cfg, start, obs, i);
    lemma_held_follows_action(cfg, start, obs, j);
    let k = lemma_release_between(cfg, start, obs, i + 1, j);
    assert(i < k < j && actions_of(cfg, start, obs)[k] == KeyAction::Release);
}

/// In any run, between two releases of a lane lies a press. No two key-up
/// events follow one another.
pub proof fn lemma_no_double_release(
    cfg: ConfigView,
    start: LaneState,
    obs: Seq<Observation>,
    i: int,
    j: int,
)
    requires
        0 <= i < j < obs.len(),
        actions_of(cfg, start, obs)[i] == KeyAction::Release,
        actions_of(cfg, start, obs)[j] == KeyAction::Release,
    ensures
        exists|k: int| i < k < j && actions_of(cfg, start, obs)[k] == KeyAction::Press,
{
    lemma_held_follows_action(cfg, start, obs, i);
    lemma_held_follows_action(cfg, start, obs, j);
    let k = lemma_press_between(cfg, start, obs, i + 1, j);
    assert(i < k < j && actions_of(cfg, start, obs)[k] == KeyAction::Press);
}

/// A run that starts with the key up injects a key-down before any key-up:
/// every release has a press before it.
pub proof fn lemma_press_before_release(
    cfg: ConfigView,
    start: LaneState,
    obs: Seq<Observation>,
    j: int,
)
    requires
        !start.held,
        0 <= j < obs.len(),
        actions_of(cfg, start, obs)[j] == KeyAction::Release,
    ensures
        exists|k: int| 0 <= k < j && actions_of(cfg, start, obs)[k] == KeyAction::Press,
{
    lemma_run_ends(cfg, start, obs);
    lemma_held_follows_action(cfg, start, obs, j);
    let k = lemma_press_between(cfg, start, obs, 0, j);
    assert(0 <= k < j && actions_of(cfg, start, obs)[k] == KeyAction::Press);
}

/// The key is held exactly when the last event injected was a key-down: at
/// the end of a run, the state says what the latest action left behind.
pub proof fn lemma_held_iff_last_event_down(
    cfg: ConfigView,
    start: LaneState,
    obs: Seq<Observation>,
    i: int,
)
    requires
        0 <= i < obs.len(),
        actions_of(cfg, start, obs)[i] != KeyAction::Nothing,
        forall|j: int| i < j < obs.len() ==> actions_of(cfg, start, obs)[j] == KeyAction::Nothing,
    ensures
        run(cfg, start, obs).0.held == (actions_of(cfg, start, obs)[i] == KeyAction::Press),
{
    lemma_run_ends(cfg, start, obs);
    lemma_held_follows_action(cfg, start, obs, i);
    let end = run(cfg, start, obs).0;
    if end.held != state_at(cfg, start, obs, i + 1).held {
        if end.held {
            let k = lemma_press_between(cfg, start, obs, i + 1, obs.len() as int);
        } else {
            let k = lemma_release_between(cfg, start, obs, i + 1, obs.len() as int);
        }
    }
}

/// A run without any event leaves the key as it was.
pub proof fn lemma_no_event_keeps_key(cfg: ConfigView, start: LaneState, obs: Seq<Observation>)
    requires
        forall|j: int| 0 <= j < obs.len() ==> actions_of(cfg, start, obs)[j] == KeyAction::Nothing,
    ensures
        run(cfg, start, obs).0.held == start.held,
{
    lemma_run_ends(cfg, start, obs);
    let end = run(cfg, start, obs).0;
    if end.held != start.held {
        if end.held {
            let k = lemma_press_between(cfg, start, obs, 0, obs.len() as int);
        } else {
            let k = lemma_release_between(cfg, start, obs, 0, obs.len() as int);
        }
    }
}

/// No key is left stuck down: a run that ends with the stop leaves the key
/// up, and every press in it has a release after it.
pub proof fn lemma_stop_releases(cfg: ConfigView, start: LaneState, obs: Seq<Observation>)
    requires
        obs.len() > 0,
        obs.last() is Stopped,
    ensures
        !run(cfg, start, obs).0.held,
        forall|i: int|
            0 <= i < obs.len() && actions_of(cfg, start, obs)[i] == KeyAction::Press ==> exists|
                k: int,
            |
                i < k < obs.len() && actions_of(cfg, start, obs)[k] == KeyAction::Release,
{
    lemma_run_ends(cfg, start, obs);
    lemma_run_step(cfg, start, obs, obs.len() - 1);
    assert forall|i: int|
        0 <= i < obs.len() && actions_of(cfg, start, obs)[i] == KeyAction::Press implies exists|
        k: int,
    |
        i < k < obs.len() && actions_of(cfg, start, obs)[k] == KeyAction::Release by {
        lemma_held_follows_action(cfg, start, obs, i);
        let k = lemma_release_between(cfg, start, obs, i + 1, obs.len() as int);
        assert(i < k < obs.len() && actions_of(cfg, start, obs)[k] == KeyAction::Release);
    }
}

/// Losing the focus releases at once: an unfocused iteration that finds the
/// key down injects the key-up in that very iteration, whatever the timers
/// say.
pub proof fn lemma_focus_loss_releases(
    cfg: ConfigView,
    start: LaneState,
    obs: Seq<Observation>,
    k: int,
)
    requires
        0 <= k < obs.len(),
        obs[k] is Unfocused,
        state_at(cfg, start, obs, k).held,
    ensures
        actions_of(cfg, start, obs)[k] == KeyAction::Release,
        !state_at(cfg, start, obs, k + 1).held,
{
    lemma_run_step(cfg, start, obs, k);
}

/// Between two iterations without a marker sample in between, the time of
/// the latest marker stays.
proof fn lemma_last_white_stays(
    cfg: ConfigView,
    start: LaneState,
    obs: Seq<Observation>,
    a: int,
    b: int,
)
    requires
        0 <= a <= b <= obs.len(),
        forall|k: int| a <= k < b ==> !is_marker_sample(cfg, #[trigger] obs[k]),
    ensures
        state_at(cfg, start, obs, b).last_white == state_at(cfg, start, obs, a).last_white,
    decreases b - a,
{
    if a < b {
        lemma_last_white_stays(cfg, start, obs, a, b - 1);
        lemma_run_step(cfg, start, obs, b - 1);
        assert(!is_marker_sample(cfg, obs[b - 1]));
    }
}

/// Between two iterations without a press in between, the time of the
/// latest press stays.
proof fn lemma_press_time_stays(
    cfg: ConfigView,
    start: LaneState,
    obs: Seq<Observation>,
    a: int,
    b: int,
)
    requires
        0 <= a <= b <= obs.len(),
        forall|k: int| a <= k < b ==> actions_of(cfg, start, obs)[k] != KeyAction::Press,
    ensures
        state_at(cfg, start, obs, b).press_time == state_at(cfg, start, obs, a).press_time,
    decreases b - a,
{
    if a < b {
        lemma_press_time_stays(cfg, start, obs, a, b - 1);
        lemma_run_step(cfg, start, obs, b - 1);
    }
}

/// The release debounce: a sample without the marker, taken less than the
/// release debounce after the latest sample with the marker, releases
/// nothing, however long the key has been down.
pub proof fn lemma_debounce_holds_key(
    cfg: ConfigView,
    start: LaneState,
    obs: Seq<Observation>,
    i: int,
    j: int,
)
    requires
        0 <= i < j < obs.len(),
        is_marker_sample(cfg, obs[i]),
        forall|k: int| i < k < j ==> !is_marker_sample(cfg, #[trigger] obs[k]),
        obs[j] is Focused,
        !is_marker_sample(cfg, obs[j]),
        elapsed(obs[j]->now, obs[i]->now) < millis(cfg.release_debounce_ms),
    ensures
        actions_of(cfg, start, obs)[j] == KeyAction::Nothing,
        state_at(cfg, start, obs, j + 1).held == state_at(cfg, start, obs, j).held,
{
    lemma_run_step(cfg, start, obs, i);
    lemma_last_white_stays(cfg, start, obs, i + 1, j);
    lemma_run_step(cfg, start, obs, j);
}

/// The minimum hold: a sample without the marker, taken less than the
/// minimum hold after the latest press, releases nothing, however long the
/// marker has been gone.
pub proof fn lemma_min_hold_holds_key(
    cfg: ConfigView,
    start: LaneState,
    obs: Seq<Observation>,
    i: int,
    j: int,
)
    requires
        0 <= i < j < obs.len(),
        actions_of(cfg, start, obs)[i] == KeyAction::Press,
        forall|k: int| i < k < j ==> actions_of(cfg, start, obs)[k] != KeyAction::Press,
        obs[j] is Focused,
        !is_marker_sample(cfg, obs[j]),
        elapsed(obs[j]->now, obs[i]->now) < millis(cfg.min_hold_ms),
    ensures
        actions_of(cfg, start, obs)[j] == KeyAction::Nothing,
        state_at(cfg, start, obs, j + 1).held == state_at(cfg, start, obs, j).held,
{
    lemma_run_step(cfg, start, obs, i);
    lemma_press_time_stays(cfg, start, obs, i + 1, j);
    lemma_run_step(cfg, start, obs, j);
}

/// Once both timers have run out, the key goes up: a sample without the
/// marker that finds the key down, at least the release debounce after the
/// latest marker and at least the minimum hold after the latest press,
/// releases it.
pub proof fn lemma_release_when_due(
    cfg: ConfigView,
    start: LaneState,
    obs: Seq<Observation>,
    i: int,
    p: int,
    j: int,
)
    requires
        0 <= p <= i < j < obs.len(),
        actions_of(cfg, start, obs)[p] == KeyAction::Press,
        forall|k: int| p < k < j ==> actions_of(cfg, start, obs)[k] == KeyAction::Nothing,
        is_marker_sample(cfg, obs[i]),
        forall|k: int| i < k < j ==> !is_marker_sample(cfg, #[trigger] obs[k]),
        obs[j] matches Observation::Focused { sample: Some(_), .. },
        !is_marker_sample(cfg, obs[j]),
        elapsed(obs[j]->now, obs[i]->now) >= millis(cfg.release_debounce_ms),
        elapsed(obs[j]->now, obs[p]->now) >= millis(cfg.min_hold_ms),
    ensures
        actions_of(cfg, start, obs)[j] == KeyAction::Release,
        !state_at(cfg, start, obs, j + 1).held,
{
    lemma_run_step(cfg, start, obs, p);
    lemma_run_step(cfg, start, obs, i);
    lemma_last_white_stays(cfg, start, obs, i + 1, j);
    lemma_press_time_stays(cfg, start, obs, p + 1, j);
    lemma_held_follows_action(cfg, start, obs, p);
    if !state_at(cfg, start, obs, j).held {
        let k = lemma_release_between(cfg, start, obs, p + 1, j);
    }
    lemma_run_step(cfg, start, obs, j);
}

/// One turn of a schedule of several lanes: lane `lane` runs one iteration
/// on `obs`.
pub struct Turn {
    pub lane: int,
    pub obs: Observation,
}

/// The states of all lanes after the turns of `schedule`, taken in order.
/// Each turn moves its own lane by one step; a turn of a lane that does not
/// exist moves nothing.
pub open spec fn run_all(cfg: ConfigView, starts: Seq<LaneState>, schedule: Seq<Turn>) -> Seq<
    LaneState,
>
    decreases schedule.len(),
{
    if schedule.len() == 0 {
        starts
    } else {
        let mid = run_all(cfg, starts, schedule.drop_last());
        let turn = schedule.last();
        if 0 <= turn.lane < mid.len() {
            mid.update(turn.lane, step_spec(cfg, mid[turn.lane], turn.obs).0)
        } else {
            mid
        }
    }
}

/// The observations that `schedule` gives to lane `lane`, in order.
pub open spec fn turns_of(schedule: Seq<Turn>, lane: int) -> Seq<Observation>
    decreases schedule.len(),
{
    if schedule.len() == 0 {
        Seq::empty()
    } else if schedule.last().lane == lane {
        turns_of(schedule.drop_last(), lane).push(schedule.last().obs)
    } else {
        turns_of(schedule.drop_last(), lane)
    }
}

/// Lanes do not touch one another: however the turns of several lanes are
/// interleaved, each lane ends in the state that it reaches when it runs
/// alone on its own observations.
pub proof fn lemma_lanes_are_independent(
    cfg: ConfigView,
    starts: Seq<LaneState>,
    schedule: Seq<Turn>,
    lane: int,
)
    requires
        0 <= lane < starts.len(),
    ensures
        run_all(cfg, starts, schedule).len() == starts.len(),
        run_all(cfg, starts, schedule)[lane] == run(
            cfg,
            starts[lane],
            turns_of(schedule, lane),
        ).0,
    decreases schedule.len(),
{
    if schedule.len() > 0 {
        lemma_lanes_are_independent(cfg, starts, schedule.drop_last(), lane);
        if schedule.last().lane == lane {
            assert(turns_of(schedule, lane).drop_last() == turns_of(schedule.drop_last(), lane));
        }
    }
}

/// On shutdown every lane lets go, in any interleaving: a lane whose last
/// turn is the stop ends with its key up, whatever the other lanes did and
/// whenever they did it.
pub proof fn lemma_every_lane_released_on_stop(
    cfg: ConfigView,
    starts: Seq<LaneState>,
    schedule: Seq<Turn>,
    lane: int,
)
    requires
        0 <= lane < starts.len(),
        turns_of(schedule, lane).len() > 0,
        turns_of(schedule, lane).last() is Stopped,
    ensures
        !run_all(cfg, starts, schedule)[lane].held,
{
    lemma_lanes_are_independent(cfg, starts, schedule, lane);
    lemma_stop_releases(cfg, starts[lane], turns_of(schedule, lane));
}

} // verus!
