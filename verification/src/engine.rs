//! The decision engine: a pure function of the latest snapshot and the
//! configuration, invoked once per tick, that decides whether to begin
//! timing, split, reset, pause or resume elapsed-time accrual, or override
//! the elapsed time.
//!
//! Priority order within one tick: the loading signal and the elapsed-time
//! override are independent of the structural actions; reset is evaluated
//! before split and suppresses it outright; start is only evaluated while
//! the timer is not running. Every query treats an absent sample as "no
//! signal", never as a value, so a quantity that has not yet been read
//! cannot trigger anything.

use vstd::prelude::*;
use crate::config::Config;
use crate::levels::{spec_story_level_enabled, spec_trip_level_enabled, story_level_enabled,
    trip_level_enabled};
use crate::sampling::Snapshot;

verus! {

broadcast use vstd::laws_eq::group_laws_eq;

/// The game-mode identifier of the story branch.
pub const MODE_STORY: u32 = 0;

/// The game-mode identifier of the alternate story branch.
pub const MODE_TRIP: u32 = 1;

/// The game-mode identifier of the last story, whose entry starts a run.
pub const MODE_LAST_STORY: u32 = 2;

/// The level identifier of the final stage of the two story branches.
pub const FINAL_STAGE: u32 = 110200;

/// The externally owned timer's state, as the host reports it each tick.
#[derive(Clone, Copy, PartialEq, Eq, Structural, Debug)]
pub enum TimerPhase {
    NotRunning,
    Running,
    Paused,
    Ended,
}

/// An elapsed-time override, in milliseconds of game time.
#[derive(Clone, Copy, PartialEq, Eq, Structural, Debug)]
pub struct TimeSpan {
    pub milliseconds: u64,
}

/// What one tick asks of the timer. At most one structural action (reset or
/// split or start) is set; the loading signal and the elapsed-time override
/// are independent and may accompany any of them.
#[derive(Clone, Copy, PartialEq, Eq, Structural, Debug)]
pub struct TickDecision {
    /// Begin timing.
    pub should_start: bool,
    /// Split the current segment.
    pub should_split: bool,
    /// Reset the run.
    pub should_reset: bool,
    /// Pause elapsed-time accrual when `Some(true)`, resume it when
    /// `Some(false)`; no signal when the loading flag was never sampled.
    pub loading: Option<bool>,
    /// Set the elapsed time outright, where the game exposes one.
    pub elapsed_override: Option<TimeSpan>,
}

/// A run begins when any enabled trigger fires: a first-time-play edge of
/// either story branch, or the game mode moving into the last story.
pub open spec fn spec_start(s: Snapshot, c: Config) -> bool {
    ||| c.start_story && s.start_trigger.spec_changed_to(true)
    ||| c.start_trip && s.start_trigger_trip.spec_changed_to(true)
    ||| c.start_last_story && s.game_mode.spec_changed_to(MODE_LAST_STORY)
}

/// The split rule. Nothing splits until the game mode, the level identifier
/// and the goal flag have all been sampled at least once. The final stage's
/// boss-style condition (a boss-defeat edge, or a rising goal edge, seen
/// while the previous tick's level was the final stage) is checked first and
/// settles the story branches outright. Otherwise an ordinary completion is
/// the falling edge of the goal flag, with the level identifier captured on
/// the previous tick looked up in the active branch's table; the last story
/// splits only on its boss-defeat edge.
pub open spec fn spec_split(s: Snapshot, c: Config) -> bool {
    if s.game_mode.current is None || s.level_id.current is None
        || s.goal_ring_flag.current is None {
        false
    } else {
        let mode = s.game_mode.current->Some_0;
        let final_stage_boss = s.level_id.previous == Some(FINAL_STAGE)
            && (s.boss_defeated.spec_changed_to(true) || s.goal_ring_flag.spec_changed_to(true));
        if final_stage_boss && mode == MODE_STORY {
            c.egg_fortress_2
        } else if final_stage_boss && mode == MODE_TRIP {
            c.trip_egg_fortress_2
        } else if mode == MODE_STORY {
            s.goal_ring_flag.spec_changed_to(false)
                && (s.level_id.previous matches Some(level)
                    && spec_story_level_enabled(c, level))
        } else if mode == MODE_TRIP {
            s.goal_ring_flag.spec_changed_to(false)
                && (s.level_id.previous matches Some(level)
                    && spec_trip_level_enabled(c, level))
        } else if mode == MODE_LAST_STORY {
            s.boss_defeated.spec_changed_to(true) && c.black_dragon
        } else {
            false
        }
    }
}

/// No snapshot condition resets a run in this game.
pub open spec fn spec_reset(s: Snapshot, c: Config) -> bool {
    false
}

/// The loading signal: the current value of the loading flag, or no signal
/// while it was never sampled.
pub open spec fn spec_is_loading(s: Snapshot, c: Config) -> Option<bool> {
    s.is_loading.current
}

/// This game exposes no authoritative elapsed time, so the engine never
/// overrides it.
pub open spec fn spec_game_time(s: Snapshot, c: Config) -> Option<TimeSpan> {
    None
}

/// Should a run begin this tick? Caller-gated on the timer not running.
pub fn start(s: &Snapshot, c: &Config) -> (r: bool)
    ensures
        r == spec_start(*s, *c),
{
    (c.start_story && s.start_trigger.changed_to(true))
        || (c.start_trip && s.start_trigger_trip.changed_to(true))
        || (c.start_last_story && s.game_mode.changed_to(MODE_LAST_STORY))
}

/// Should the current segment split this tick? Caller-gated on the timer
/// being active and on [`reset`] not having fired.
pub fn split(s: &Snapshot, c: &Config) -> (r: bool)
    ensures
        r == spec_split(*s, *c),
{
    let mode: u32 = match s.game_mode.current {
        Some(m) => m,
        None => {
            return false;
        }
    };
    if s.level_id.current.is_none() {
        return false;
    }
    if s.goal_ring_flag.current.is_none() {
        return false;
    }

    let final_stage_boss = matches!(s.level_id.previous, Some(FINAL_STAGE))
        && (s.boss_defeated.changed_to(true) || s.goal_ring_flag.changed_to(true));
    if final_stage_boss && mode == MODE_STORY {
        return c.egg_fortress_2;
    }
    if final_stage_boss && mode == MODE_TRIP {
        return c.trip_egg_fortress_2;
    }

    if mode == MODE_STORY {
        s.goal_ring_flag.changed_to(false) && match s.level_id.previous {
            Some(level) => story_level_enabled(c, level),
            None => false,
        }
    } else if mode == MODE_TRIP {
        s.goal_ring_flag.changed_to(false) && match s.level_id.previous {
            Some(level) => trip_level_enabled(c, level),
            None => false,
        }
    } else if mode == MODE_LAST_STORY {
        s.boss_defeated.changed_to(true) && c.black_dragon
    } else {
        false
    }
}

/// Should the run reset this tick? Evaluated before [`split`]; a reset
/// suppresses a split in the same tick.
pub fn reset(s: &Snapshot, c: &Config) -> (r: bool)
    ensures
        r == spec_reset(*s, *c),
{
    false
}

/// The loading signal for this tick.
pub fn is_loading(s: &Snapshot, c: &Config) -> (r: Option<bool>)
    ensures
        r == spec_is_loading(*s, *c),
{
    s.is_loading.current_value()
}

/// The elapsed-time override for this tick.
pub fn game_time(s: &Snapshot, c: &Config) -> (r: Option<TimeSpan>)
    ensures
        r == spec_game_time(*s, *c),
{
    None
}

/// The pause (`Some(true)`) or resume (`Some(false)`) command owed to the
/// timer this tick, given the accrual state the host last issued: a command
/// lands only where the loading signal differs from that state, so a steady
/// signal is never re-issued.
pub open spec fn spec_loading_command(issued: Option<bool>, loading: Option<bool>) -> Option<
    bool,
> {
    match loading {
        Some(pause) => if issued == Some(pause) {
            None
        } else {
            Some(pause)
        },
        None => None,
    }
}

/// Computes the pause or resume command owed this tick; see
/// [`spec_loading_command`].
pub fn loading_command(issued: Option<bool>, loading: Option<bool>) -> (r: Option<bool>)
    ensures
        r == spec_loading_command(issued, loading),
{
    match loading {
        Some(pause) => {
            let repeat = match issued {
                Some(p) => p == pause,
                None => false,
            };
            if repeat {
                None
            } else {
                Some(pause)
            }
        }
        None => None,
    }
}

/// Pause and resume land exactly on the loading flag's transition ticks: for
/// a host whose issued accrual state reflects the flag's previous sample, a
/// tick on which the flag changed commands the new state, and a tick on
/// which it did not change (the flag being sampled) commands nothing.
pub proof fn lemma_loading_commands_follow_transitions(s: Snapshot, c: Config)
    ensures
        s.is_loading.spec_changed() ==> spec_loading_command(
            s.is_loading.previous,
            spec_is_loading(s, c),
        ) == s.is_loading.current,
        !s.is_loading.spec_changed() && s.is_loading.previous is Some && s.is_loading.current
            is Some ==> spec_loading_command(s.is_loading.previous, spec_is_loading(s, c))
            is None,
{
}

/// Is the timer accruing a run (running or paused)?
pub open spec fn spec_timer_active(phase: TimerPhase) -> bool {
    phase == TimerPhase::Running || phase == TimerPhase::Paused
}

/// The whole tick's decision, in the engine's priority order. While the
/// timer is active: the loading signal and the elapsed-time override are
/// emitted, reset is evaluated first, and split only if reset did not fire.
/// While the timer is not running: only start is evaluated, and a starting
/// tick re-evaluates the loading signal at once, so accrual begins in the
/// right paused or running state.
pub open spec fn spec_decide(s: Snapshot, c: Config, phase: TimerPhase) -> TickDecision {
    let active = spec_timer_active(phase);
    let starting = phase == TimerPhase::NotRunning && spec_start(s, c);
    TickDecision {
        should_start: starting,
        should_split: active && !spec_reset(s, c) && spec_split(s, c),
        should_reset: active && spec_reset(s, c),
        loading: if active || starting {
            spec_is_loading(s, c)
        } else {
            None
        },
        elapsed_override: if active {
            spec_game_time(s, c)
        } else {
            None
        },
    }
}

/// Decides one tick.
pub fn decide(s: &Snapshot, c: &Config, phase: TimerPhase) -> (d: TickDecision)
    ensures
        d == spec_decide(*s, *c, phase),
        !(d.should_reset && d.should_split),
        d.should_start ==> phase == TimerPhase::NotRunning,
{
    let active = phase == TimerPhase::Running || phase == TimerPhase::Paused;
    let starting = phase == TimerPhase::NotRunning && start(s, c);
    let should_reset = active && reset(s, c);
    let should_split = active && !should_reset && split(s, c);
    let loading = if active || starting {
        is_loading(s, c)
    } else {
        None
    };
    let elapsed_override = if active {
        game_time(s, c)
    } else {
        None
    };
    TickDecision { should_start: starting, should_split, should_reset, loading, elapsed_override }
}

/// Reset and split are mutually exclusive: one tick's decision never carries
/// both, and whenever the reset condition holds while the timer is active,
/// the tick resets and does not split.
pub proof fn lemma_reset_suppresses_split(s: Snapshot, c: Config, phase: TimerPhase)
    ensures
        !(spec_decide(s, c, phase).should_reset && spec_decide(s, c, phase).should_split),
        spec_timer_active(phase) && spec_reset(s, c) ==> spec_decide(s, c, phase).should_reset
            && !spec_decide(s, c, phase).should_split,
{
}

/// Start is gated on the timer: whenever the timer is already running (or
/// paused, or ended), the decision never starts, whatever the snapshot says.
pub proof fn lemma_start_gated(s: Snapshot, c: Config, phase: TimerPhase)
    ensures
        phase != TimerPhase::NotRunning ==> !spec_decide(s, c, phase).should_start,
{
}

/// Decisions are idempotent under repeated identical snapshots: once each
/// trigger quantity's two samples agree (as they do after a tick whose
/// samples repeat the previous ones, or hold on failure), there is no edge,
/// so no structural action fires in any timer phase.
pub proof fn lemma_unchanged_snapshot_no_action(s: Snapshot, c: Config, phase: TimerPhase)
    requires
        s.start_trigger.previous == s.start_trigger.current,
        s.start_trigger_trip.previous == s.start_trigger_trip.current,
        s.game_mode.previous == s.game_mode.current,
        s.goal_ring_flag.previous == s.goal_ring_flag.current,
        s.boss_defeated.previous == s.boss_defeated.current,
    ensures
        !spec_start(s, c),
        !spec_split(s, c),
        !spec_decide(s, c, phase).should_start,
        !spec_decide(s, c, phase).should_split,
        !spec_decide(s, c, phase).should_reset,
{
}

/// A rising goal edge never splits an ordinary level: as long as the
/// previous tick's level was not the final stage (whose boss-style condition
/// does fire on the rising edge) and no boss-defeat edge fired, a snapshot
/// whose goal flag just became true does not split. Only the later falling
/// edge can.
pub proof fn lemma_goal_rising_edge_no_split(s: Snapshot, c: Config)
    requires
        s.goal_ring_flag.spec_changed_to(true),
        !s.boss_defeated.spec_changed_to(true),
        s.level_id.previous != Some(FINAL_STAGE),
    ensures
        !spec_split(s, c),
{
}

/// The falling goal edge does split an ordinary story-mode level, provided
/// the level captured on the previous tick has its toggle enabled and no
/// boss-defeat edge intervenes.
pub proof fn lemma_goal_falling_edge_splits(s: Snapshot, c: Config, level: u32)
    requires
        s.game_mode.current == Some(MODE_STORY),
        s.level_id.current is Some,
        s.level_id.previous == Some(level),
        spec_story_level_enabled(c, level),
        s.goal_ring_flag.spec_changed_to(false),
        !s.boss_defeated.spec_changed_to(true),
    ensures
        spec_split(s, c),
{
}

} // verus!
