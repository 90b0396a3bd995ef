use superstars_autosplitter::sampling::{apply_tick, RawTick, Snapshot, BOSS_DEFEATED_STATE};
use superstars_autosplitter::scenes::{is_game_scene_name, is_known_boss_name};

fn silent_tick() -> RawTick {
    RawTick {
        scene_controller_name: None,
        is_normal_first_play: None,
        is_trip_first_play: None,
        game_mode: None,
        level_id: None,
        in_transition: None,
        is_time_attack: None,
        is_result_sequence: None,
        is_goal_sequence: None,
        boss_name: None,
        boss_base_type: None,
    }
}

fn game_scene_tick() -> RawTick {
    RawTick {
        scene_controller_name: Some(String::from("GameSceneController")),
        ..silent_tick()
    }
}

#[test]
fn recognizes_every_game_scene_controller() {
    let names = [
        "GameSceneController",
        "BlackDragonBattleGameSceneController",
        "BRMainGameSceneController",
        "BROverallResultSceneController",
        "EndingGameSceneController",
        "MiniActGameSceneController",
        "ShootingGameSceneController",
        "WorldMapGameSceneController",
    ];
    for name in names {
        assert!(is_game_scene_name(&String::from(name)), "{name}");
    }
    assert!(!is_game_scene_name(&String::from("TitleSceneController")));
    assert!(!is_game_scene_name(&String::from("")));
    assert!(!is_game_scene_name(&String::from("GameSceneControllerBase")));
}

#[test]
fn recognizes_tracked_bosses() {
    assert!(is_known_boss_name(&String::from("Bos111")));
    assert!(is_known_boss_name(&String::from("Bos112")));
    assert!(!is_known_boss_name(&String::from("Bos113")));
    assert!(!is_known_boss_name(&String::from("")));
}

#[test]
fn level_id_only_sampled_inside_a_game_scene() {
    let mut s = Snapshot::new();
    apply_tick(&mut s, &RawTick { level_id: Some(10100), ..game_scene_tick() });
    assert_eq!(s.level_id.current_value(), Some(10100));

    // Back on a menu: the stale address must not corrupt the history.
    apply_tick(
        &mut s,
        &RawTick {
            scene_controller_name: Some(String::from("TitleSceneController")),
            level_id: Some(999),
            ..silent_tick()
        },
    );
    assert_eq!(s.level_id.current_value(), Some(10100));
    assert!(!s.level_id.changed());
}

#[test]
fn level_id_defaults_to_zero_before_any_game_scene() {
    let mut s = Snapshot::new();
    apply_tick(&mut s, &RawTick { level_id: Some(777), ..silent_tick() });
    assert_eq!(s.level_id.current_value(), Some(0));
}

#[test]
fn goal_flag_composed_from_result_and_goal_sequences() {
    let mut s = Snapshot::new();
    apply_tick(
        &mut s,
        &RawTick {
            is_time_attack: Some(false),
            is_result_sequence: Some(false),
            is_goal_sequence: Some(false),
            ..game_scene_tick()
        },
    );
    assert_eq!(s.goal_ring_flag.current_value(), Some(false));
    apply_tick(
        &mut s,
        &RawTick {
            is_time_attack: Some(false),
            is_result_sequence: Some(false),
            is_goal_sequence: Some(true),
            ..game_scene_tick()
        },
    );
    assert_eq!(s.goal_ring_flag.current_value(), Some(true));
    assert!(s.goal_ring_flag.changed_to(true));
    apply_tick(
        &mut s,
        &RawTick {
            is_time_attack: Some(false),
            is_result_sequence: Some(true),
            is_goal_sequence: Some(false),
            ..game_scene_tick()
        },
    );
    assert_eq!(s.goal_ring_flag.current_value(), Some(true));
}

#[test]
fn failed_goal_reads_inside_a_game_scene_hold() {
    let mut s = Snapshot::new();
    apply_tick(
        &mut s,
        &RawTick {
            is_time_attack: Some(false),
            is_result_sequence: Some(true),
            is_goal_sequence: Some(false),
            ..game_scene_tick()
        },
    );
    assert_eq!(s.goal_ring_flag.current_value(), Some(true));

    // All three backing reads fail in scene: no fabricated falling edge.
    apply_tick(&mut s, &game_scene_tick());
    assert_eq!(s.goal_ring_flag.current_value(), Some(true));
    assert!(!s.goal_ring_flag.changed());

    // One sequence flag reads false, the other fails: still undetermined.
    apply_tick(
        &mut s,
        &RawTick {
            is_time_attack: Some(false),
            is_result_sequence: Some(false),
            ..game_scene_tick()
        },
    );
    assert_eq!(s.goal_ring_flag.current_value(), Some(true));
    assert!(!s.goal_ring_flag.changed());

    // A raised sequence flag with the time-attack read failed: the composite
    // might be suppressed, so it is undetermined too.
    apply_tick(
        &mut s,
        &RawTick { is_result_sequence: Some(true), ..game_scene_tick() },
    );
    assert_eq!(s.goal_ring_flag.current_value(), Some(true));
    assert!(!s.goal_ring_flag.changed());

    // Both sequence flags reading false settles the composite even with the
    // time-attack read failed.
    apply_tick(
        &mut s,
        &RawTick {
            is_result_sequence: Some(false),
            is_goal_sequence: Some(false),
            ..game_scene_tick()
        },
    );
    assert_eq!(s.goal_ring_flag.current_value(), Some(false));
    assert!(s.goal_ring_flag.changed_to(false));
}

#[test]
fn time_attack_suppresses_goal_flag() {
    let mut s = Snapshot::new();
    apply_tick(
        &mut s,
        &RawTick {
            is_time_attack: Some(true),
            is_result_sequence: Some(true),
            is_goal_sequence: Some(true),
            ..game_scene_tick()
        },
    );
    assert_eq!(s.goal_ring_flag.current_value(), Some(false));
}

#[test]
fn goal_flag_held_outside_game_scenes() {
    let mut s = Snapshot::new();
    apply_tick(
        &mut s,
        &RawTick { is_time_attack: Some(false), is_goal_sequence: Some(true), ..game_scene_tick() },
    );
    assert_eq!(s.goal_ring_flag.current_value(), Some(true));
    apply_tick(&mut s, &silent_tick());
    assert_eq!(s.goal_ring_flag.current_value(), Some(true));
    assert!(!s.goal_ring_flag.changed());
}

#[test]
fn boss_defeat_needs_a_recognized_boss() {
    let mut s = Snapshot::new();
    apply_tick(
        &mut s,
        &RawTick {
            boss_name: Some(String::from("Bos050")),
            boss_base_type: Some(BOSS_DEFEATED_STATE),
            ..game_scene_tick()
        },
    );
    // Unrecognized boss: the read is out of context, default false installed.
    assert_eq!(s.boss_defeated.current_value(), Some(false));

    apply_tick(
        &mut s,
        &RawTick {
            boss_name: Some(String::from("Bos111")),
            boss_base_type: Some(1),
            ..game_scene_tick()
        },
    );
    assert_eq!(s.boss_defeated.current_value(), Some(false));

    apply_tick(
        &mut s,
        &RawTick {
            boss_name: Some(String::from("Bos111")),
            boss_base_type: Some(BOSS_DEFEATED_STATE),
            ..game_scene_tick()
        },
    );
    assert_eq!(s.boss_defeated.current_value(), Some(true));
    assert!(s.boss_defeated.changed_to(true));

    // The boss object going away holds the defeat flag.
    apply_tick(&mut s, &game_scene_tick());
    assert_eq!(s.boss_defeated.current_value(), Some(true));
    assert!(!s.boss_defeated.changed());
}

#[test]
fn failed_boss_state_read_holds() {
    let mut s = Snapshot::new();
    apply_tick(
        &mut s,
        &RawTick {
            boss_name: Some(String::from("Bos112")),
            boss_base_type: Some(BOSS_DEFEATED_STATE),
            ..game_scene_tick()
        },
    );
    assert_eq!(s.boss_defeated.current_value(), Some(true));

    // The boss is still recognized but its state read fails: hold, no edge.
    apply_tick(
        &mut s,
        &RawTick { boss_name: Some(String::from("Bos112")), ..game_scene_tick() },
    );
    assert_eq!(s.boss_defeated.current_value(), Some(true));
    assert!(!s.boss_defeated.changed());
}

#[test]
fn unreadable_save_slot_counts_as_no_fresh_run() {
    let mut s = Snapshot::new();
    // Attached before the save manager exists: the chain is unreadable, and
    // the triggers must default to "no fresh run".
    apply_tick(&mut s, &silent_tick());
    apply_tick(&mut s, &silent_tick());
    assert_eq!(s.start_trigger.current_value(), Some(true));
    assert_eq!(s.start_trigger_trip.current_value(), Some(true));

    // The chain resolves on a save that has already played the story: no
    // rising edge may appear.
    apply_tick(
        &mut s,
        &RawTick { is_normal_first_play: Some(false), is_trip_first_play: Some(false), ..silent_tick() },
    );
    assert_eq!(s.start_trigger.current_value(), Some(true));
    assert!(!s.start_trigger.changed_to(true));
    assert!(!s.start_trigger_trip.changed_to(true));
}

#[test]
fn start_triggers_are_negated_first_play_flags() {
    let mut s = Snapshot::new();
    apply_tick(
        &mut s,
        &RawTick { is_normal_first_play: Some(true), is_trip_first_play: Some(false), ..silent_tick() },
    );
    assert_eq!(s.start_trigger.current_value(), Some(false));
    assert_eq!(s.start_trigger_trip.current_value(), Some(true));
}

#[test]
fn loading_flag_held_on_failed_read() {
    let mut s = Snapshot::new();
    apply_tick(&mut s, &RawTick { in_transition: Some(true), ..silent_tick() });
    assert_eq!(s.is_loading.current_value(), Some(true));
    apply_tick(&mut s, &silent_tick());
    assert_eq!(s.is_loading.current_value(), Some(true));
}

#[test]
fn fresh_snapshot_has_no_samples() {
    let s = Snapshot::new();
    assert_eq!(s.start_trigger.current_value(), None);
    assert_eq!(s.start_trigger_trip.current_value(), None);
    assert_eq!(s.game_mode.current_value(), None);
    assert_eq!(s.level_id.current_value(), None);
    assert_eq!(s.is_loading.current_value(), None);
    assert_eq!(s.goal_ring_flag.current_value(), None);
    assert_eq!(s.boss_defeated.current_value(), None);
}
