use companion::action::{
    portable_strength, portable_vibrate_duration, ActionValidationError, ResolvedVibrateAction,
    VibrateActionSettings, VibrateMode,
};

#[test]
fn invalid_action_settings_return_typed_validation() {
    let mut settings = VibrateActionSettings::default();
    settings.mode = VibrateMode::Fixed;
    settings.fixed.strength = 21.0f32.to_bits();
    assert_eq!(settings.resolve_checked(), Err(ActionValidationError::InvalidStrength));
}

#[test]
fn resolution_is_a_snapshot() {
    let mut settings = VibrateActionSettings::default();
    settings.mode = VibrateMode::Fixed;
    settings.fixed.strength = 12.0f32.to_bits();
    settings.fixed.duration_seconds = 4.0f32.to_bits();
    let mut rng = rand::rng();
    let resolved = settings.resolve_with(&mut rng).unwrap();
    settings.fixed.strength = 20.0f32.to_bits();
    assert_eq!(f32::from_bits(settings.fixed.strength), 20.0);
    assert_eq!(resolved, ResolvedVibrateAction { strength: 12, duration_secs: 4 });
}

#[test]
fn interval_mode_rejects_inverted_bounds() {
    let mut settings = VibrateActionSettings::default();
    settings.mode = VibrateMode::Interval;
    settings.interval.minimum_strength = 10.0f32.to_bits();
    settings.interval.maximum_strength = 5.0f32.to_bits();
    assert_eq!(settings.resolve_checked(), Err(ActionValidationError::InvalidInterval));
}

#[test]
fn portable_values_are_whole_numbers_in_range() {
    assert_eq!(portable_strength(0.0f32.to_bits()), Some(0));
    assert_eq!(portable_strength(20.0f32.to_bits()), Some(20));
    assert_eq!(portable_strength(20.5f32.to_bits()), None);
    assert_eq!(portable_strength((-1.0f32).to_bits()), None);
    assert_eq!(portable_strength(f32::NAN.to_bits()), None);
    assert_eq!(portable_vibrate_duration(1.0f32.to_bits()), Some(1));
    assert_eq!(portable_vibrate_duration(30.0f32.to_bits()), Some(30));
    assert_eq!(portable_vibrate_duration(0.0f32.to_bits()), None);
    assert_eq!(portable_vibrate_duration(31.0f32.to_bits()), None);
    assert_eq!(portable_vibrate_duration(f32::INFINITY.to_bits()), None);
}

#[test]
fn random_resolution_stays_within_its_ranges() {
    let mut settings = VibrateActionSettings::default();
    settings.interval.minimum_strength = 3.0f32.to_bits();
    settings.interval.maximum_strength = 7.0f32.to_bits();
    settings.interval.minimum_duration_seconds = 2.0f32.to_bits();
    settings.interval.maximum_duration_seconds = 5.0f32.to_bits();
    for _ in 0..50 {
        let action = settings.resolve().expect("valid ranges");
        assert!((3..=7).contains(&action.strength));
        assert!((2..=5).contains(&action.duration_secs));
    }
}

#[test]
fn invalid_durations_are_reported_after_strength() {
    let mut settings = VibrateActionSettings::default();
    settings.mode = VibrateMode::Fixed;
    settings.fixed.duration_seconds = 0.0f32.to_bits();
    assert_eq!(settings.resolve_checked(), Err(ActionValidationError::InvalidDuration));
    assert!(settings.resolve().is_none());
    assert_eq!(
        ActionValidationError::InvalidStrength.message(),
        "vibration strength must be an integer from 0 to 20"
    );
}

#[test]
fn copying_replaces_the_whole_profile() {
    let mut source = VibrateActionSettings::default();
    source.mode = VibrateMode::Fixed;
    source.fixed.strength = 9.0f32.to_bits();
    let mut destination = VibrateActionSettings::default();
    destination.copy_active_from(&source);
    assert_eq!(destination, source);
    assert_eq!(ResolvedVibrateAction { strength: 12, duration_secs: 4 }.summary(), "12/20 for 4 s");
    assert_eq!(VibrateMode::Interval.label(), "Random");
}
