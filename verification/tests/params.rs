use twenty::params::{
    Parameters, Setting, DEFAULT_REST_SECONDS, DEFAULT_WORK_MINUTES, MAX_REST_SECONDS,
    MAX_WORK_MINUTES, MILLIS_PER_MINUTE, MILLIS_PER_SECOND, MIN_REST_SECONDS, MIN_WORK_MINUTES,
};

#[test]
fn ranges_are_one_to_sixty_minutes_and_five_to_sixty_seconds() {
    assert_eq!(MIN_WORK_MINUTES, 1);
    assert_eq!(MAX_WORK_MINUTES, 60);
    assert_eq!(MIN_REST_SECONDS, 5);
    assert_eq!(MAX_REST_SECONDS, 60);
    assert_eq!(MILLIS_PER_SECOND, 1_000);
    assert_eq!(MILLIS_PER_MINUTE, 60_000);
}

#[test]
fn default_parameters_are_twenty_and_twenty() {
    let p = Parameters::default();
    assert_eq!(p.work_minutes, 20);
    assert_eq!(p.rest_seconds, 20);
    assert_eq!(DEFAULT_WORK_MINUTES, 20);
    assert_eq!(DEFAULT_REST_SECONDS, 20);
    assert!(p.is_in_range());
}

#[test]
fn new_keeps_values_as_given() {
    let p = Parameters::new(0, 255);
    assert_eq!(p.work_minutes, 0);
    assert_eq!(p.rest_seconds, 255);
    assert!(!p.is_in_range());
}

#[test]
fn in_range_at_both_ends() {
    assert!(Parameters::new(1, 5).is_in_range());
    assert!(Parameters::new(60, 60).is_in_range());
    assert!(!Parameters::new(0, 5).is_in_range());
    assert!(!Parameters::new(61, 5).is_in_range());
    assert!(!Parameters::new(1, 4).is_in_range());
    assert!(!Parameters::new(1, 61).is_in_range());
}

#[test]
fn clamp_raises_values_below_range() {
    assert_eq!(Parameters::new(0, 0).clamped(), Parameters::new(1, 5));
    assert_eq!(Parameters::new(0, 4).clamped(), Parameters::new(1, 5));
}

#[test]
fn clamp_lowers_values_above_range() {
    assert_eq!(Parameters::new(61, 61).clamped(), Parameters::new(60, 60));
    assert_eq!(Parameters::new(255, 255).clamped(), Parameters::new(60, 60));
}

#[test]
fn clamp_leaves_values_in_range() {
    for work in 1..=60u8 {
        for rest in 5..=60u8 {
            let p = Parameters::new(work, rest);
            assert_eq!(p.clamped(), p);
        }
    }
}

#[test]
fn clamp_treats_each_setting_on_its_own() {
    assert_eq!(Parameters::new(0, 30).clamped(), Parameters::new(1, 30));
    assert_eq!(Parameters::new(30, 200).clamped(), Parameters::new(30, 60));
}

#[test]
fn clamp_is_idempotent_on_every_value() {
    for work in 0..=255u8 {
        for rest in [0u8, 4, 5, 6, 59, 60, 61, 255] {
            let once = Parameters::new(work, rest).clamped();
            assert!(once.is_in_range());
            assert_eq!(once.clamped(), once);
        }
    }
}

#[test]
fn with_replaces_one_setting() {
    let p = Parameters::new(20, 20);
    assert_eq!(p.with(Setting::Work, 45), Parameters::new(45, 20));
    assert_eq!(p.with(Setting::Rest, 7), Parameters::new(20, 7));
    assert_eq!(p.with(Setting::Rest, 0), Parameters::new(20, 0));
}

#[test]
fn work_millis_is_minutes_times_sixty_thousand() {
    assert_eq!(Parameters::new(1, 20).work_millis(), 60_000);
    assert_eq!(Parameters::new(20, 20).work_millis(), 1_200_000);
    assert_eq!(Parameters::new(60, 20).work_millis(), 3_600_000);
}

#[test]
fn work_millis_clamps_first() {
    assert_eq!(Parameters::new(0, 20).work_millis(), 60_000);
    assert_eq!(Parameters::new(255, 20).work_millis(), 3_600_000);
}

#[test]
fn rest_millis_is_seconds_times_thousand() {
    assert_eq!(Parameters::new(20, 5).rest_millis(), 5_000);
    assert_eq!(Parameters::new(20, 20).rest_millis(), 20_000);
    assert_eq!(Parameters::new(20, 60).rest_millis(), 60_000);
}

#[test]
fn rest_millis_clamps_first() {
    assert_eq!(Parameters::new(20, 0).rest_millis(), 5_000);
    assert_eq!(Parameters::new(20, 255).rest_millis(), 60_000);
}
