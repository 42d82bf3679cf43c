use moving_game::health::{EntityLifecycle, Health, BAR_FULL, DECAY_RATE};
use moving_game::types::{MyHealth, RESOLUTION, SCALE};

const SECOND: u64 = RESOLUTION;
const POINT: u64 = RESOLUTION;

#[test]
fn constants_have_their_documented_values() {
    assert_eq!(RESOLUTION, 1_000_000);
    assert_eq!(DECAY_RATE, 5);
    assert_eq!(SCALE, 1000);
    assert_eq!(BAR_FULL, 10_000);
}

#[test]
fn new_health_is_full() {
    let h = Health::new(100 * POINT);
    assert_eq!(h.current(), 100 * POINT);
    assert_eq!(h.max(), 100 * POINT);
    assert_eq!(h.lifecycle(), EntityLifecycle::Active);
}

#[test]
fn with_current_accepts_up_to_max() {
    let h = Health::with_current(50 * POINT, 100 * POINT).unwrap();
    assert_eq!(h.current(), 50 * POINT);
    assert_eq!(h.max(), 100 * POINT);
    assert!(Health::with_current(100, 100).is_some());
    assert!(Health::with_current(0, 100).is_some());
    assert!(Health::with_current(0, 0).is_some());
}

#[test]
fn with_current_rejects_more_than_max() {
    assert!(Health::with_current(101, 100).is_none());
    assert!(Health::with_current(1, 0).is_none());
    assert!(Health::with_current(u64::MAX, u64::MAX - 1).is_none());
}

#[test]
fn one_second_of_movement_costs_five_points() {
    let mut h = Health::new(100 * POINT);
    h.apply_decay(SECOND, true);
    assert_eq!(h.current(), 95 * POINT);
    assert_eq!(h.max(), 100 * POINT);
}

#[test]
fn decay_is_five_sub_units_per_tick() {
    let mut h = Health::new(1_000);
    h.apply_decay(1, true);
    assert_eq!(h.current(), 995);
    h.apply_decay(7, true);
    assert_eq!(h.current(), 960);
    h.apply_decay(16_667, true);
    assert_eq!(h.current(), 0);
}

#[test]
fn decay_without_movement_changes_nothing() {
    let mut h = Health::with_current(42, 100).unwrap();
    let before = h;
    h.apply_decay(SECOND, false);
    assert_eq!(h, before);
    h.apply_decay(u64::MAX, false);
    assert_eq!(h, before);
    h.apply_decay(0, false);
    assert_eq!(h, before);
}

#[test]
fn decay_of_zero_ticks_changes_nothing() {
    let mut h = Health::with_current(42, 100).unwrap();
    h.apply_decay(0, true);
    assert_eq!(h.current(), 42);
}

#[test]
fn decay_stops_at_zero() {
    let mut h = Health::with_current(3, 100).unwrap();
    h.apply_decay(1, true);
    assert_eq!(h.current(), 0);
    assert_eq!(h.max(), 100);
    assert_eq!(h.lifecycle(), EntityLifecycle::Defeated);
}

#[test]
fn decay_that_uses_up_health_exactly_defeats() {
    let mut h = Health::with_current(10, 100).unwrap();
    h.apply_decay(2, true);
    assert_eq!(h.current(), 0);
    assert_eq!(h.lifecycle(), EntityLifecycle::Defeated);
}

#[test]
fn decay_over_the_longest_frame_does_not_overflow() {
    let mut h = Health::new(u64::MAX);
    h.apply_decay(u64::MAX, true);
    assert_eq!(h.current(), 0);
    assert_eq!(h.max(), u64::MAX);

    let mut g = Health::new(u64::MAX);
    g.apply_decay(u64::MAX / 5, true);
    assert_eq!(g.current(), 0);

    let mut k = Health::new(u64::MAX);
    k.apply_decay(u64::MAX / 5 - 1, true);
    assert_eq!(k.current(), 5);
}

#[test]
fn health_stays_in_range_over_many_frames() {
    let mut h = Health::new(100 * POINT);
    let frames: [(u64, bool); 8] = [
        (SECOND, true),
        (0, true),
        (3 * SECOND, false),
        (16_667, true),
        (7 * SECOND, true),
        (u64::MAX, false),
        (12 * SECOND, true),
        (u64::MAX, true),
    ];
    let mut last = h.current();
    for (dt, moved) in frames {
        h.apply_decay(dt, moved);
        assert!(h.current() <= h.max());
        assert!(h.current() <= last);
        assert_eq!(h.max(), 100 * POINT);
        last = h.current();
    }
    assert_eq!(h.current(), 0);
}

#[test]
fn twenty_seconds_of_movement_defeat_a_full_entity() {
    let mut h = Health::new(100 * POINT);
    for frame in 1..=20u64 {
        h.apply_decay(SECOND, true);
        assert_eq!(h.current(), (100 - 5 * frame) * POINT);
        if frame < 20 {
            assert_eq!(h.lifecycle(), EntityLifecycle::Active);
        } else {
            assert_eq!(h.lifecycle(), EntityLifecycle::Defeated);
        }
    }
    for _ in 0..5 {
        h.apply_decay(SECOND, true);
        assert_eq!(h.current(), 0);
        assert_eq!(h.lifecycle(), EntityLifecycle::Defeated);
    }
}

#[test]
fn defeated_health_stays_defeated() {
    let mut h = Health::with_current(0, 100).unwrap();
    assert_eq!(h.lifecycle(), EntityLifecycle::Defeated);
    h.apply_decay(SECOND, true);
    h.apply_decay(SECOND, false);
    h.apply_decay(0, true);
    h.apply_decay(u64::MAX, true);
    assert_eq!(h.current(), 0);
    assert_eq!(h.max(), 100);
    assert_eq!(h.lifecycle(), EntityLifecycle::Defeated);
}

#[test]
fn lifecycle_is_defeated_only_at_zero() {
    assert_eq!(Health::with_current(1, 100).unwrap().lifecycle(), EntityLifecycle::Active);
    assert_eq!(Health::with_current(0, 100).unwrap().lifecycle(), EntityLifecycle::Defeated);
    assert_eq!(Health::new(0).lifecycle(), EntityLifecycle::Defeated);
}

#[test]
fn half_health_encodes_as_five_hundred() {
    let h = Health::with_current(50 * POINT, 100 * POINT).unwrap();
    assert_eq!(h.encode(), MyHealth { health: 500 });
    let small = Health::with_current(50, 100).unwrap();
    assert_eq!(small.encode().health, 500);
}

#[test]
fn full_and_empty_health_encode_as_the_ends_of_the_scale() {
    assert_eq!(Health::new(100 * POINT).encode().health, 1000);
    assert_eq!(Health::new(1).encode().health, 1000);
    assert_eq!(Health::new(u64::MAX).encode().health, 1000);
    assert_eq!(Health::with_current(0, 100).unwrap().encode().health, 0);
    assert_eq!(Health::with_current(0, u64::MAX).unwrap().encode().health, 0);
}

#[test]
fn encoding_rounds_to_the_nearest_integer() {
    // 1/3 of 1000 is 333.33, 2/3 is 666.67.
    assert_eq!(Health::with_current(1, 3).unwrap().encode().health, 333);
    assert_eq!(Health::with_current(2, 3).unwrap().encode().health, 667);
    // 0.4 goes down, 0.5 and 0.6 go up.
    assert_eq!(Health::with_current(4, 10_000).unwrap().encode().health, 0);
    assert_eq!(Health::with_current(5, 10_000).unwrap().encode().health, 1);
    assert_eq!(Health::with_current(6, 10_000).unwrap().encode().health, 1);
    assert_eq!(Health::with_current(9_995, 10_000).unwrap().encode().health, 1000);
    assert_eq!(Health::with_current(9_994, 10_000).unwrap().encode().health, 999);
    assert_eq!(Health::with_current(95 * POINT, 100 * POINT).unwrap().encode().health, 950);
}

#[test]
fn encoding_of_the_largest_values_does_not_overflow() {
    let h = Health::with_current(u64::MAX - 1, u64::MAX).unwrap();
    assert_eq!(h.encode().health, 1000);
    let half = Health::with_current(u64::MAX / 2, u64::MAX).unwrap();
    assert_eq!(half.encode().health, 500);
}

#[test]
fn health_without_a_maximum_encodes_as_zero() {
    let h = Health::new(0);
    assert_eq!(h.encode().health, 0);
    assert_eq!(h.ratio(BAR_FULL), 0);
    assert_eq!(h.ratio(0), 0);
}

#[test]
fn ratio_uses_the_scale_it_is_given() {
    let h = Health::with_current(1, 4).unwrap();
    assert_eq!(h.ratio(100), 25);
    assert_eq!(h.ratio(1000), 250);
    assert_eq!(h.ratio(10_000), 2_500);
    assert_eq!(h.ratio(2), 1);
    assert_eq!(h.ratio(1), 0);
    assert_eq!(h.ratio(0), 0);
    assert_eq!(Health::new(7).ratio(u16::MAX), u16::MAX);
    assert_eq!(Health::with_current(u64::MAX, u64::MAX).unwrap().ratio(u16::MAX), u16::MAX);
}
