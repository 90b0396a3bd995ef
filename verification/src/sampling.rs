//! The sampling pass: once per tick, every raw read result is folded into
//! the matching watched value.
//!
//! The host walks the resolved pointer chains and delivers whatever it could
//! read as a [`RawTick`]; a failed read is `None`. [`apply_tick`] then
//! absorbs the failures (hold the last good value, or a default before any
//! value exists), gates the level-scoped quantities on the live scene
//! controller's identity, and composes the proxy signals (the goal flag, the
//! boss-defeat flag) out of their raw parts — feeding a composite value only
//! where the reads that came back determine it. Nothing past this pass ever
//! sees a read error, and no read failure ever fabricates an edge.

use vstd::prelude::*;
use crate::scenes::{is_game_scene_name, is_known_boss_name, spec_is_game_scene,
    spec_is_known_boss};
use crate::watched::Watched;

verus! {

/// The watched values of one attached-process session.
pub struct Snapshot {
    /// The story branch's first-time-play flag, negated: it rises when a
    /// fresh story run begins on the current save slot.
    pub start_trigger: Watched<bool>,
    /// The same for the alternate story branch.
    pub start_trigger_trip: Watched<bool>,
    /// The numeric game-mode identifier (story, alternate story, last story).
    pub game_mode: Watched<u32>,
    /// The numeric identifier of the level being played.
    pub level_id: Watched<u32>,
    /// The scene-transition flag, used as the loading signal.
    pub is_loading: Watched<bool>,
    /// The goal sequence is running: raised on entering the results state,
    /// cleared on leaving it.
    pub goal_ring_flag: Watched<bool>,
    /// The tracked final boss has been defeated.
    pub boss_defeated: Watched<bool>,
}

/// The raw read results of one tick; `None` is a failed read.
pub struct RawTick {
    /// The class name of the live scene controller.
    pub scene_controller_name: Option<String>,
    /// The first-time-play flag of the story branch in the current save slot.
    pub is_normal_first_play: Option<bool>,
    /// The first-time-play flag of the alternate story branch.
    pub is_trip_first_play: Option<bool>,
    /// The numeric game-mode identifier.
    pub game_mode: Option<u32>,
    /// The numeric level identifier (only meaningful in a game scene).
    pub level_id: Option<u32>,
    /// The scene-transition flag.
    pub in_transition: Option<bool>,
    /// The time-attack flag of the live scene controller.
    pub is_time_attack: Option<bool>,
    /// The result-sequence flag of the live scene controller.
    pub is_result_sequence: Option<bool>,
    /// The goal-sequence flag of the live scene controller.
    pub is_goal_sequence: Option<bool>,
    /// The class name of the active boss object.
    pub boss_name: Option<String>,
    /// The active boss's state discriminant.
    pub boss_base_type: Option<u8>,
}

/// The boss state discriminant that marks a defeated boss.
pub const BOSS_DEFEATED_STATE: u8 = 3;

/// The tick's reads found a live game-scene controller, so the level-scoped
/// quantities are in context.
pub open spec fn spec_in_game_scene(raw: RawTick) -> bool {
    raw.scene_controller_name matches Some(n) && spec_is_game_scene(n@)
}

/// The tick's reads found a tracked final boss, so its defeat flag is in
/// context.
pub open spec fn spec_boss_recognized(raw: RawTick) -> bool {
    raw.boss_name matches Some(n) && spec_is_known_boss(n@)
}

/// The goal signal composed from what the three backing reads established:
/// suppressed outright when the time-attack flag reads true (time-attack
/// runs are not split-tracked); raised when a sequence flag reads true and
/// time-attack reads false; lowered when both sequence flags read false,
/// whatever time-attack holds. Wherever the failed reads leave the composite
/// undetermined, there is no sample — the watcher holds — so a read failure
/// can never fabricate an edge.
pub open spec fn spec_goal_sample(raw: RawTick) -> Option<bool> {
    if raw.is_time_attack == Some(true) {
        Some(false)
    } else {
        let raised = raw.is_result_sequence == Some(true) || raw.is_goal_sequence == Some(true);
        let lowered = raw.is_result_sequence == Some(false) && raw.is_goal_sequence == Some(false);
        if raised {
            if raw.is_time_attack == Some(false) {
                Some(true)
            } else {
                None
            }
        } else if lowered {
            Some(false)
        } else {
            None
        }
    }
}

/// The boss-defeat signal composed from the raw state discriminant; a failed
/// state read is no sample, so the watcher holds.
pub open spec fn spec_boss_sample(raw: RawTick) -> Option<bool> {
    match raw.boss_base_type {
        Some(state) => Some(state == BOSS_DEFEATED_STATE),
        None => None,
    }
}

/// A sampled flag, negated; a failed read stays failed.
pub open spec fn spec_negated(sample: Option<bool>) -> Option<bool> {
    match sample {
        Some(b) => Some(!b),
        None => None,
    }
}

/// What one tick does to the whole snapshot, watcher by watcher. The
/// save-slot flags, the game mode and the loading flag are sampled
/// unconditionally; the level identifier and the goal signal only while a
/// game-scene controller is live, and the boss-defeat signal only while a
/// tracked boss is active — out of context, and wherever an in-context read
/// failure leaves a signal undetermined, the watcher holds its previous
/// value. The start triggers default to true at a first-ever failed read: an
/// unreadable save slot must count as "no fresh run", so that the slot
/// resolving later on an already-played save cannot fabricate a start edge.
pub open spec fn spec_apply_tick(s: Snapshot, raw: RawTick) -> Snapshot {
    let in_scene = spec_in_game_scene(raw);
    Snapshot {
        start_trigger: s.start_trigger.stepped_or(
            spec_negated(raw.is_normal_first_play),
            true,
        ),
        start_trigger_trip: s.start_trigger_trip.stepped_or(
            spec_negated(raw.is_trip_first_play),
            true,
        ),
        game_mode: s.game_mode.stepped_or(raw.game_mode, 0u32),
        level_id: s.level_id.stepped_or(
            if in_scene {
                raw.level_id
            } else {
                None
            },
            0u32,
        ),
        is_loading: s.is_loading.stepped_or(raw.in_transition, false),
        goal_ring_flag: s.goal_ring_flag.stepped_or(
            if in_scene {
                spec_goal_sample(raw)
            } else {
                None
            },
            false,
        ),
        boss_defeated: s.boss_defeated.stepped_or(
            if spec_boss_recognized(raw) {
                spec_boss_sample(raw)
            } else {
                None
            },
            false,
        ),
    }
}

impl Snapshot {
    /// Every watched value's history is well-formed.
    pub open spec fn wf(self) -> bool {
        &&& self.start_trigger.wf()
        &&& self.start_trigger_trip.wf()
        &&& self.game_mode.wf()
        &&& self.level_id.wf()
        &&& self.is_loading.wf()
        &&& self.goal_ring_flag.wf()
        &&& self.boss_defeated.wf()
    }

    /// A fresh session: nothing sampled yet.
    pub open spec fn spec_empty() -> Snapshot {
        Snapshot {
            start_trigger: Watched { previous: None, current: None },
            start_trigger_trip: Watched { previous: None, current: None },
            game_mode: Watched { previous: None, current: None },
            level_id: Watched { previous: None, current: None },
            is_loading: Watched { previous: None, current: None },
            goal_ring_flag: Watched { previous: None, current: None },
            boss_defeated: Watched { previous: None, current: None },
        }
    }

    /// Builds the fresh session state created on every process attach.
    pub fn new() -> (s: Snapshot)
        ensures
            s == Snapshot::spec_empty(),
    {
        Snapshot {
            start_trigger: Watched::new(),
            start_trigger_trip: Watched::new(),
            game_mode: Watched::new(),
            level_id: Watched::new(),
            is_loading: Watched::new(),
            goal_ring_flag: Watched::new(),
            boss_defeated: Watched::new(),
        }
    }
}

impl Default for Snapshot {
    /// Same as [`Snapshot::new`].
    fn default() -> (s: Snapshot)
        ensures
            s == Snapshot::spec_empty(),
    {
        Snapshot::new()
    }
}

/// Folds one tick's raw read results into the snapshot, exactly as
/// [`spec_apply_tick`] states.
pub fn apply_tick(s: &mut Snapshot, raw: &RawTick)
    ensures
        *final(s) == spec_apply_tick(*old(s), *raw),
        final(s).wf(),
{
    let in_scene: bool = match &raw.scene_controller_name {
        Some(n) => is_game_scene_name(n),
        None => false,
    };
    let boss_recognized: bool = match &raw.boss_name {
        Some(n) => is_known_boss_name(n),
        None => false,
    };

    let start_sample: Option<bool> = match raw.is_normal_first_play {
        Some(b) => Some(!b),
        None => None,
    };
    let start_trip_sample: Option<bool> = match raw.is_trip_first_play {
        Some(b) => Some(!b),
        None => None,
    };
    let level_sample: Option<u32> = if in_scene {
        raw.level_id
    } else {
        None
    };
    let goal_sample: Option<bool> = if in_scene {
        if matches!(raw.is_time_attack, Some(true)) {
            Some(false)
        } else {
            let raised = matches!(raw.is_result_sequence, Some(true))
                || matches!(raw.is_goal_sequence, Some(true));
            let lowered = matches!(raw.is_result_sequence, Some(false))
                && matches!(raw.is_goal_sequence, Some(false));
            if raised {
                if matches!(raw.is_time_attack, Some(false)) {
                    Some(true)
                } else {
                    None
                }
            } else if lowered {
                Some(false)
            } else {
                None
            }
        }
    } else {
        None
    };
    let boss_sample: Option<bool> = if boss_recognized {
        match raw.boss_base_type {
            Some(state) => Some(state == BOSS_DEFEATED_STATE),
            None => None,
        }
    } else {
        None
    };

    s.start_trigger.update_or(start_sample, true);
    s.start_trigger_trip.update_or(start_trip_sample, true);
    s.game_mode.update_or(raw.game_mode, 0u32);
    s.level_id.update_or(level_sample, 0u32);
    s.is_loading.update_or(raw.in_transition, false);
    s.goal_ring_flag.update_or(goal_sample, false);
    s.boss_defeated.update_or(boss_sample, false);
}

} // verus!
