use golem_rig::golem::golem_targets;
use golem_rig::movement::{
    blend_offset, blend_target, handle_move_body_key, handle_movement, lower, raise, step_for,
    GolemImpulseMovement, ImpulseTargets, MotorCommand, ALPHA_SPEED, DEFAULT_STIFFNESS, UNIT,
};

fn segment(alpha: u64, blend: u64) -> GolemImpulseMovement {
    GolemImpulseMovement { alpha, blend, index: 0, stiffness: DEFAULT_STIFFNESS }
}

#[test]
fn from_index_rests_at_zero() {
    let made = GolemImpulseMovement::from_index(3);
    assert_eq!(
        made,
        GolemImpulseMovement { alpha: 0, blend: 0, index: 3, stiffness: 1_000_000_000 }
    );
    assert_eq!(GolemImpulseMovement::default(), GolemImpulseMovement::from_index(0));
}

#[test]
fn step_is_rate_times_time() {
    assert_eq!(step_for(ALPHA_SPEED, 100_000), 300_000);
    assert_eq!(step_for(ALPHA_SPEED, 16_667), 50_001);
    assert_eq!(step_for(1, 999_999), 0);
    assert_eq!(step_for(2_500_000, 3), 7);
    assert_eq!(step_for(u64::MAX, u64::MAX), (u64::MAX as u128 * u64::MAX as u128) / 1_000_000);
}

#[test]
fn raise_and_lower_saturate() {
    assert_eq!(raise(200_000, 300_000), 500_000);
    assert_eq!(raise(900_000, 300_000), UNIT);
    assert_eq!(raise(0, u128::MAX), UNIT);
    assert_eq!(raise(u64::MAX, 1), UNIT);
    assert_eq!(lower(500_000, 300_000), 200_000);
    assert_eq!(lower(200_000, 300_000), 0);
    assert_eq!(lower(UNIT, u128::MAX), 0);
    assert_eq!(lower(5_000_000, 4_500_000), 500_000);
    assert_eq!(lower(5_000_000, 1), UNIT);
}

#[test]
fn held_increase_reaches_exactly_one_and_stays() {
    let mut state = GolemImpulseMovement::from_index(1);
    for _ in 0..4 {
        assert!(state.tick(true, false, 100_000));
    }
    assert_eq!((state.alpha, state.blend), (UNIT, UNIT));
    for _ in 0..100 {
        assert!(state.tick(true, false, 250_000));
        assert_eq!((state.alpha, state.blend), (UNIT, UNIT));
    }
}

#[test]
fn ten_ticks_of_a_tenth_of_a_second_saturate() {
    let mut state = segment(0, 0);
    for _ in 0..10 {
        state.tick(true, false, 100_000);
    }
    assert_eq!(state.alpha, 1_000_000);
    assert_eq!(state.blend, 1_000_000);
    let targets = ImpulseTargets { from: vec![0], to: vec![1_000_000] };
    assert_eq!(state.motor_target(&targets), 1_000_000);
}

#[test]
fn sweep_rises_by_three_tenths_each_tick() {
    let mut state = segment(0, 0);
    state.tick(true, false, 100_000);
    assert_eq!((state.alpha, state.blend), (300_000, 300_000));
    state.tick(true, false, 100_000);
    assert_eq!((state.alpha, state.blend), (600_000, 600_000));
    state.tick(true, false, 100_000);
    assert_eq!((state.alpha, state.blend), (900_000, 900_000));
    state.tick(true, false, 100_000);
    assert_eq!((state.alpha, state.blend), (1_000_000, 1_000_000));
}

#[test]
fn reversal_moves_down_from_where_alpha_stands() {
    let mut state = segment(600_000, 400_000);
    assert!(state.tick(false, true, 50_000));
    assert_eq!(state.alpha, 450_000);
    assert_eq!(state.blend, 550_000);
    assert!(state.tick(false, true, 200_000));
    assert_eq!(state.alpha, 0);
    assert_eq!(state.blend, UNIT);
}

#[test]
fn fresh_increase_starts_from_zero_whatever_alpha_was() {
    let mut state = segment(800_000, 0);
    state.tick(true, false, 100_000);
    assert_eq!(state.alpha, 300_000);
    let mut long = segment(123, 0);
    long.tick(true, false, 2_000_000);
    assert_eq!(long.alpha, UNIT);
}

#[test]
fn fresh_decrease_starts_from_one_whatever_alpha_was() {
    let mut state = segment(100_000, 0);
    state.tick(false, true, 100_000);
    assert_eq!(state.alpha, 700_000);
    assert_eq!(state.blend, 300_000);
}

#[test]
fn increase_wins_when_both_keys_are_held() {
    let mut state = segment(500_000, 500_000);
    assert!(state.tick(true, true, 10_000));
    assert_eq!(state.alpha, 530_000);
    assert_eq!(state.blend, 530_000);
}

#[test]
fn no_key_no_change_and_no_notice() {
    let mut state = segment(420_000, 77);
    for _ in 0..50 {
        assert!(!state.tick(false, false, 100_000));
        assert_eq!(state, segment(420_000, 77));
    }
    let mut segments = vec![segment(1, 2), segment(3, 4)];
    for _ in 0..50 {
        let dirty = handle_move_body_key(&mut segments, false, false, 1_000_000);
        assert!(dirty.is_empty());
    }
    assert_eq!(segments, vec![segment(1, 2), segment(3, 4)]);
}

#[test]
fn zero_time_with_a_key_held_still_gives_notice() {
    let mut state = segment(400_000, 0);
    assert!(state.tick(true, false, 0));
    assert_eq!((state.alpha, state.blend), (0, 0));
}

#[test]
fn a_very_long_tick_saturates() {
    let mut up = segment(10, 10);
    up.tick(true, false, u64::MAX);
    assert_eq!((up.alpha, up.blend), (UNIT, UNIT));
    let mut down = segment(999_999, 10);
    down.tick(false, true, u64::MAX);
    assert_eq!((down.alpha, down.blend), (0, UNIT));
}

#[test]
fn weights_out_of_range_are_brought_back() {
    let mut state = segment(5_000_000, 7_000_000);
    state.tick(false, true, 100_000);
    assert_eq!((state.alpha, state.blend), (UNIT, UNIT));
}

#[test]
fn every_segment_moves_and_is_reported_in_order() {
    let mut segments = vec![
        GolemImpulseMovement::from_index(0),
        GolemImpulseMovement { alpha: 500_000, blend: 500_000, index: 1, stiffness: 9 },
        GolemImpulseMovement { alpha: 900_000, blend: 0, index: 3, stiffness: 9 },
    ];
    let dirty = handle_move_body_key(&mut segments, false, true, 100_000);
    assert_eq!(dirty, vec![0, 1, 2]);
    assert_eq!(
        segments,
        vec![
            GolemImpulseMovement { alpha: 700_000, blend: 300_000, index: 0, stiffness: DEFAULT_STIFFNESS },
            GolemImpulseMovement { alpha: 200_000, blend: 800_000, index: 1, stiffness: 9 },
            GolemImpulseMovement { alpha: 700_000, blend: 300_000, index: 3, stiffness: 9 },
        ]
    );
    let mut none: Vec<GolemImpulseMovement> = Vec::new();
    assert!(handle_move_body_key(&mut none, true, false, 5).is_empty());
}

#[test]
fn target_is_the_weighted_sweep() {
    assert_eq!(blend_target(0, 1_000_000, 1_000_000, 1_000_000), 1_000_000);
    assert_eq!(blend_target(0, 1_000_000, 500_000, 500_000), 250_000);
    assert_eq!(blend_target(1_000_000, 0, 300_000, 300_000), 210_000);
    assert_eq!(blend_target(2_000_000, 4_000_000, 250_000, 1_000_000), 2_500_000);
    assert_eq!(blend_target(7, 7, 123_456, 0), 0);
    assert_eq!(blend_target(-3, 0, 0, 500_000), -2);
    assert_eq!(blend_target(3, 0, 0, 500_000), 1);
    assert_eq!(blend_target(i64::MIN, i64::MAX, 0, UNIT), i64::MIN);
    assert_eq!(blend_target(i64::MIN, i64::MAX, UNIT, UNIT), i64::MAX);
}

#[test]
fn offset_blends_each_axis() {
    let offset = blend_offset([0, 1_000_000, -2_000_000], [1_000_000, 0, 2_000_000], 250_000, 500_000);
    assert_eq!(offset, [125_000, 375_000, -500_000]);
}

#[test]
fn commands_follow_the_queue() {
    let targets = golem_targets();
    assert_eq!(targets.from, vec![0, 1_000_000, 1_000_000, 0, 0]);
    assert_eq!(targets.to, vec![0, 0, 0, 1_000_000, 1_000_000]);
    let segments = vec![
        GolemImpulseMovement { alpha: 300_000, blend: 300_000, index: 0, stiffness: 1 },
        GolemImpulseMovement { alpha: 300_000, blend: 300_000, index: 1, stiffness: 2 },
        GolemImpulseMovement { alpha: 500_000, blend: 1_000_000, index: 3, stiffness: 3 },
    ];
    let commands = handle_movement(&segments, &targets, &vec![2, 7, 0, 1, 2]);
    assert_eq!(
        commands,
        vec![
            MotorCommand { segment: 2, target: 500_000, stiffness: 3, damping: 0 },
            MotorCommand { segment: 0, target: 0, stiffness: 1, damping: 0 },
            MotorCommand { segment: 1, target: 210_000, stiffness: 2, damping: 0 },
            MotorCommand { segment: 2, target: 500_000, stiffness: 3, damping: 0 },
        ]
    );
    assert!(handle_movement(&segments, &targets, &Vec::new()).is_empty());
}

#[test]
fn a_tick_then_its_commands() {
    let targets = golem_targets();
    let mut segments =
        vec![GolemImpulseMovement::from_index(1), GolemImpulseMovement::from_index(3)];
    let mut dirty = Vec::new();
    for _ in 0..10 {
        dirty = handle_move_body_key(&mut segments, true, false, 100_000);
    }
    let commands = handle_movement(&segments, &targets, &dirty);
    assert_eq!(
        commands,
        vec![
            MotorCommand { segment: 0, target: 0, stiffness: DEFAULT_STIFFNESS, damping: 0 },
            MotorCommand { segment: 1, target: 1_000_000, stiffness: DEFAULT_STIFFNESS, damping: 0 },
        ]
    );
}
