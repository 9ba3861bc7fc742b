use std::collections::BTreeSet;

use companion::action::VibrateMode;
use companion::app::{AbilityFilter, AppState};
use companion::persistence::{
    accept_loaded, canonical_slots, invalid_state_warning, read_failure_warning,
    PersistedAbilityFilter, PersistedAbilityFilterMode, PersistedState, SaveReason, SaveScheduler,
    SAVE_DEBOUNCE_MS, SCHEMA_VERSION,
};
use companion::providers::ProviderKind;

#[test]
fn debounce_writes_once_and_flush_writes_immediately() {
    let initial = PersistedState::default();
    let mut scheduler = SaveScheduler::open(&initial, None);
    let mut changed = initial.copy();
    changed.log_path = "/changed".to_owned();
    let start = 1_000;
    assert!(scheduler.observe(changed.copy(), start).is_none());
    assert_eq!(scheduler.time_until_due(start), Some(SAVE_DEBOUNCE_MS));
    assert!(scheduler.observe(changed.copy(), start + SAVE_DEBOUNCE_MS - 1).is_none());
    let request = scheduler
        .observe(changed.copy(), start + SAVE_DEBOUNCE_MS)
        .expect("due write");
    assert_eq!(request.state.log_path, "/changed");
    assert_eq!(request.reason, SaveReason::Autosave);
    scheduler.finish_write(request.state, request.reason, Ok(()), Some(start + SAVE_DEBOUNCE_MS));
    assert!(scheduler.pending.is_none());
    assert_eq!(scheduler.saved.log_path, "/changed");

    changed.log_path = "/exit-flush".to_owned();
    assert!(scheduler.observe(changed.copy(), start + SAVE_DEBOUNCE_MS * 2).is_none());
    let request = scheduler.flush(&changed).expect("flush writes");
    assert_eq!(request.state.log_path, "/exit-flush");
    scheduler.finish_write(request.state, request.reason, Ok(()), None);
    assert!(scheduler.flush(&changed).is_none());

    changed.log_path = "/save-now".to_owned();
    let request = scheduler.save_reset_now(&changed);
    assert_eq!(request.reason, SaveReason::Reset);
    assert_eq!(request.state.log_path, "/save-now");
}

#[test]
fn failed_reset_save_stays_dirty_and_reports_previous_disk_state() {
    let mut state = PersistedState::default();
    let mut scheduler = SaveScheduler::open(&state, None);
    state.log_path = "/reset-in-memory".to_owned();
    let request = scheduler.save_reset_now(&state);
    scheduler.finish_write(request.state, request.reason, Err("disk full".to_owned()), None);
    assert_eq!(scheduler.pending.as_ref().map(|pending| pending.log_path.as_str()), Some("/reset-in-memory"));
    assert!(scheduler
        .save_error
        .as_deref()
        .unwrap()
        .contains("previous disk state may return"));
}

#[test]
fn unsupported_schema_is_backed_up_like_malformed_json() {
    let state = PersistedState {
        schema_version: SCHEMA_VERSION + 1,
        ..PersistedState::default()
    };
    let error = accept_loaded(Ok(state)).unwrap_err();
    assert_eq!(error, "unsupported schema version 8; expected 7");
    let warning = invalid_state_warning(&error, "/cfg/state.json", Ok("/cfg/state.invalid.json".to_owned()));
    assert_eq!(
        warning,
        "Saved state was invalid (unsupported schema version 8; expected 7). The invalid file was preserved at /cfg/state.invalid.json. Defaults were restored."
    );
    assert_eq!(
        invalid_state_warning("bad", "/cfg/state.json", Err("busy".to_owned())),
        "Saved state was invalid (bad). The invalid file could not be moved to a backup (busy); it remains at /cfg/state.json. Defaults were restored."
    );
}

#[test]
fn round_trip_preserves_setup_profiles_targets_filters_and_actions() {
    let mut app = AppState::default();
    app.provider = ProviderKind::Intiface;
    app.lovense.domain = "lan.example".into();
    app.intiface.websocket_url = "ws://box:9".into();
    app.preferred_target = Some("toy-7".to_owned());
    app.triggers.death.actions.mode = VibrateMode::Fixed;
    app.triggers.death.actions.fixed.strength = 15.0f32.to_bits();
    app.triggers.kill.enabled = true;
    app.triggers.ability_use.trigger.enabled = true;
    app.triggers.ability_use.ability_filter = AbilityFilter::Selected(BTreeSet::from([3, 1, 0]));
    app.log_path = "/games/console.log".to_owned();
    let saved = PersistedState::from_app(&app);
    assert_eq!(saved.schema_version, SCHEMA_VERSION);
    assert_eq!(saved.triggers.ability_used.ability_filter.slots, vec![1, 3]);
    let restored = saved.restore_app();
    assert_eq!(restored.provider, ProviderKind::Intiface);
    assert_eq!(restored.lovense, app.lovense);
    assert_eq!(restored.intiface, app.intiface);
    assert_eq!(restored.preferred_target, app.preferred_target);
    assert_eq!(restored.triggers.death, app.triggers.death);
    assert!(restored.triggers.kill.enabled);
    assert_eq!(
        restored.triggers.ability_use.ability_filter,
        AbilityFilter::Selected(BTreeSet::from([1, 3]))
    );
    assert_eq!(restored.log_path, "/games/console.log");
    assert!(restored.ability_catalog.is_empty());
}

#[test]
fn normalization_canonicalizes_each_profile_and_filter_independently() {
    let mut filter = PersistedAbilityFilter {
        mode: PersistedAbilityFilterMode::Selected,
        slots: vec![4, 0, 2, 4, 1],
    };
    filter.normalize();
    assert_eq!(filter.slots, vec![1, 2, 4]);
    let mut open = PersistedAbilityFilter {
        mode: PersistedAbilityFilterMode::All,
        slots: vec![3],
    };
    open.normalize();
    assert!(open.slots.is_empty());
    assert_eq!(canonical_slots(&vec![9, 9, 0, 5]), vec![5, 9]);
}

#[test]
fn blank_preferred_target_is_refused() {
    let state = PersistedState {
        preferred_target: Some("  ".to_owned()),
        ..PersistedState::default()
    };
    assert_eq!(accept_loaded(Ok(state)).unwrap_err(), "preferred target ID is empty");
    assert_eq!(
        accept_loaded(Err("expected value at line 1".to_owned())).unwrap_err(),
        "expected value at line 1"
    );
}

#[test]
fn returning_to_saved_state_cancels_pending_write() {
    let initial = PersistedState::default();
    let mut scheduler = SaveScheduler::open(&initial, None);
    let mut changed = initial.copy();
    changed.log_path = "/changed".to_owned();
    scheduler.observe(changed.copy(), 0);
    assert!(scheduler.pending.is_some());
    assert!(scheduler.observe(initial.copy(), 10).is_none());
    assert!(scheduler.pending.is_none());
    assert!(scheduler.time_until_due(10).is_none());
}

#[test]
fn failed_autosave_is_retried_after_the_debounce() {
    let initial = PersistedState::default();
    let (mut scheduler, _) = SaveScheduler::unavailable("no config folder.");
    assert_eq!(
        scheduler.load_warning.as_deref(),
        Some("Saved state is unavailable: no config folder. Settings will remain in memory for this session.")
    );
    let mut changed = initial.copy();
    changed.log_path = "/x".to_owned();
    scheduler.observe(changed.copy(), 0);
    let request = scheduler.observe(changed.copy(), SAVE_DEBOUNCE_MS).unwrap();
    let result = scheduler.write_target();
    assert_eq!(result, Err("No per-user saved-state path is available.".to_owned()));
    scheduler.finish_write(request.state, request.reason, result, Some(SAVE_DEBOUNCE_MS));
    assert_eq!(scheduler.time_until_due(SAVE_DEBOUNCE_MS), Some(SAVE_DEBOUNCE_MS));
    assert!(scheduler.save_error.as_deref().unwrap().starts_with("Could not save settings: "));
    assert_eq!(
        read_failure_warning("/cfg/state.json", "permission denied"),
        "Could not read saved state at /cfg/state.json: permission denied. Defaults were restored."
    );
}

#[test]
fn saved_state_loads_back_unchanged_and_checking_twice_changes_nothing() {
    let mut app = AppState::default();
    app.log_path = "/games/console.log".to_owned();
    app.preferred_target = Some("toy-1".to_owned());
    app.triggers.ability_use.ability_filter = AbilityFilter::Selected(BTreeSet::from([5, 0, 2]));
    let saved = PersistedState::from_app(&app);
    assert_eq!(saved.triggers.ability_used.ability_filter.slots, vec![2, 5]);
    let loaded = accept_loaded(Ok(saved.copy())).expect("saved state loads");
    assert!(loaded.same_as(&saved));

    let mut messy = PersistedState::default();
    messy.triggers.ability_cooldown_ready.ability_filter = PersistedAbilityFilter {
        mode: PersistedAbilityFilterMode::Selected,
        slots: vec![9, 3, 9, 0],
    };
    let once = messy.normalized().expect("usable");
    assert_eq!(once.triggers.ability_cooldown_ready.ability_filter.slots, vec![3, 9]);
    let twice = once.copy().normalized().expect("still usable");
    assert!(twice.same_as(&once));
}
