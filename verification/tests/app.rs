use std::collections::BTreeSet;

use companion::action::{ResolvedVibrateAction, VibrateMode};
use companion::app::{bridge_event_description, CountTrigger};
use companion::app::{
    action_job_expired_at, target_for_policy, AbilityCatalog, AbilityCatalogEntry, AbilityFilter,
    AbilityTrigger, ActionCompletionResult, ActionEnqueueResult, ActionRequest, ActionStatus,
    AppState, BridgeEvent, CredentialState, Detection, HookReady, LogDetectionStatus,
    LogListenerStartContext, StartupListenerPlan, TestActionStatus, TriggerIdentity, TriggerKind,
    MAX_ACTION_QUEUE_AGE_MS,
};
use companion::provider::{LovenseSetup, ProviderError, ProviderTarget};
use companion::providers::{ProviderKind, TargetPolicy};

fn trigger(kind: TriggerKind, session_id: &str, sequence: u64) -> TriggerIdentity {
    let is_ability = matches!(kind, TriggerKind::AbilityUse | TriggerKind::AbilityCooldownReady);
    TriggerIdentity {
        kind,
        session_id: session_id.to_owned(),
        sequence,
        client_time_ms: sequence,
        detection: "test".to_owned(),
        ability_slot: if is_ability { Some(2) } else { None },
        ability_name: if is_ability { Some("Test Ability".to_owned()) } else { None },
        charges_before: None,
        charges_after: None,
    }
}

fn resolved(strength: u8, duration_secs: u32) -> ResolvedVibrateAction {
    ResolvedVibrateAction { strength, duration_secs }
}

fn request(kind: TriggerKind) -> ActionRequest {
    ActionRequest {
        provider: ProviderKind::Lovense,
        target: None,
        resolved: resolved(4, 2),
        trigger: trigger(kind, "session", 1),
        queued_at_ms: 0,
    }
}

fn hub() -> ProviderTarget {
    ProviderTarget::new_any("toy-1", "hub")
}

fn skipped_reason(state: &AppState) -> Option<String> {
    match &state.action_status {
        Some(ActionStatus::Skipped { reason, .. }) => Some(reason.clone()),
        _ => None,
    }
}

#[test]
fn provider_setup_retention_uses_only_typed_banks() {
    let mut state = AppState::default();
    state.lovense.domain = "lan.example".into();
    state.lovense.http_port = 4000;
    state.set_provider(ProviderKind::Intiface);
    state.intiface.websocket_url = "ws://device:1".into();
    assert!(state.credentials_present());
    state.set_provider(ProviderKind::Lovense);
    assert_eq!(state.lovense.domain, "lan.example");
    assert_eq!(state.lovense.http_port, 4000);
    assert_eq!(state.intiface.websocket_url, "ws://device:1");
}

#[test]
fn switching_provider_clears_live_and_preferred_targets() {
    let mut state = AppState {
        devices: vec![hub()],
        selected_device: Some("toy-1".to_owned()),
        preferred_target: Some("toy-1".to_owned()),
        ..AppState::default()
    };
    state.set_provider(ProviderKind::Intiface);
    assert!(state.devices.is_empty());
    assert!(state.selected_device.is_none());
    assert!(state.preferred_target.is_none());
}

#[test]
fn invalid_fixed_action_settings_are_skipped_without_fabricating_an_action() {
    let mut state = AppState::default();
    state.triggers.death.actions.mode = VibrateMode::Fixed;
    state.triggers.death.actions.fixed.strength = 21.0f32.to_bits();
    let request = state.queue_trigger_action(trigger(TriggerKind::Death, "session", 1), 0);
    assert!(request.is_none());
    let Some(ActionStatus::Skipped { snapshot, reason }) = state.action_status else {
        panic!("invalid settings should be skipped");
    };
    assert!(snapshot.resolved.is_none());
    assert!(reason.contains("invalid action settings"));
}

#[test]
fn copy_transfers_only_active_action_settings() {
    let mut state = AppState::default();
    state.triggers.death.enabled = false;
    state.triggers.death.actions.mode = VibrateMode::Fixed;
    state.triggers.death.actions.fixed.strength = 12.0f32.to_bits();
    state.triggers.ability_use.trigger.enabled = true;
    state.triggers.ability_use.ability_filter = AbilityFilter::Selected(BTreeSet::from([2]));
    assert!(state.copy_action_settings(TriggerKind::Death, TriggerKind::AbilityUse));
    assert_eq!(
        state.triggers.ability_use.trigger.actions,
        state.triggers.death.actions
    );
    assert!(state.triggers.ability_use.trigger.enabled);
    assert_eq!(
        state.triggers.ability_use.ability_filter,
        AbilityFilter::Selected(BTreeSet::from([2]))
    );
    assert_eq!(
        state.copy_feedback.as_deref(),
        Some("Copied death vibrate settings to ability use.")
    );
    assert!(!state.copy_action_settings(TriggerKind::Kill, TriggerKind::Kill));
}

#[test]
fn queue_outcomes_use_generic_action_statuses() {
    let mut full = AppState::default();
    full.apply_action_enqueue_result(request(TriggerKind::Death), ActionEnqueueResult::Full);
    assert_eq!(skipped_reason(&full).as_deref(), Some("action queue is full"));
    let mut disconnected = AppState::default();
    disconnected.apply_action_enqueue_result(request(TriggerKind::Death), ActionEnqueueResult::Disconnected);
    assert!(matches!(
        disconnected.action_status,
        Some(ActionStatus::Failed { ref error, .. }) if error == "action worker is unavailable"
    ));
    let mut accepted = AppState::default();
    accepted.apply_action_enqueue_result(request(TriggerKind::Death), ActionEnqueueResult::Accepted);
    assert_eq!(accepted.action_in_flight, 1);
    assert!(matches!(accepted.action_status, Some(ActionStatus::Sending(_))));
}

#[test]
fn global_sequence_watermark_is_preserved_across_trigger_kinds() {
    let mut state = AppState::default();
    state.queue_trigger_action(trigger(TriggerKind::AbilityUse, "first", 4), 0);
    assert_eq!(state.last_sequence, Some(("first".to_owned(), 4)));
    state.queue_trigger_action(trigger(TriggerKind::Death, "first", 3), 0);
    state.queue_trigger_action(trigger(TriggerKind::Death, "first", 5), 0);
    assert_eq!(state.last_sequence, Some(("first".to_owned(), 5)));
}

#[test]
fn kill_and_assist_triggers_queue_independently_of_death() {
    let mut state = AppState {
        devices: vec![hub()],
        selected_device: Some("toy-1".to_owned()),
        ..AppState::default()
    };
    state.triggers.kill.enabled = true;
    state.triggers.assist.enabled = true;
    state.queue_trigger_action(trigger(TriggerKind::Kill, "session", 1), 0);
    assert_eq!(skipped_reason(&state).as_deref(), Some("provider is not connected"));
    state.queue_trigger_action(trigger(TriggerKind::Assist, "session", 2), 0);
    assert_eq!(skipped_reason(&state).as_deref(), Some("provider is not connected"));
}

#[test]
fn disabled_kill_trigger_is_ignored() {
    let mut state = AppState::default();
    assert!(!state.triggers.kill.enabled);
    state.queue_trigger_action(trigger(TriggerKind::Kill, "session", 1), 0);
    assert!(state.action_status.is_none());
}

#[test]
fn action_status_contains_provider_target_and_trigger_details() {
    let status = ActionStatus::Sent(ActionRequest {
        provider: ProviderKind::Intiface,
        target: Some(ProviderTarget::new_any("group", "group")),
        resolved: resolved(20, 5),
        trigger: {
            let mut trigger = trigger(TriggerKind::AbilityCooldownReady, "session", 9);
            trigger.detection = "charge_restored".to_owned();
            trigger.charges_before = Some(1);
            trigger.charges_after = Some(2);
            trigger
        },
        queued_at_ms: 0,
    });
    let label = status.label();
    assert!(label.contains("Intiface Central"));
    assert!(label.contains("group"));
    assert!(label.contains("20/20 for 5 s"));
    assert!(label.contains("ability cooldown ready slot 2"));
    assert!(label.contains("charge_restored"));
    assert!(label.contains("charges 1→2"));
    assert_eq!(
        label,
        "Intiface Central: vibrate sent to group at 20/20 for 5 s (ability cooldown ready slot 2 (Test Ability), detection charge_restored, charges 1→2, session#9)."
    );
}

#[test]
fn reset_clears_durable_banks_and_runtime_action_state() {
    let mut state = AppState::default();
    state.lovense.domain = "secret".into();
    state.triggers.death.actions.mode = VibrateMode::Fixed;
    state.last_sequence = Some(("session".to_owned(), 3));
    state.action_status = Some(ActionStatus::Sent(request(TriggerKind::Death)));
    state.ability_catalog.insert(1, None);
    assert!(state.reset_saved_state());
    assert_eq!(state.lovense, LovenseSetup::default());
    assert_eq!(state.triggers.death.actions.mode, VibrateMode::Interval);
    assert!(state.last_bridge_event.is_none());
    assert!(state.last_sequence.is_none());
    assert!(state.ability_catalog.is_empty());
    assert!(state.action_status.is_none());
    assert_eq!(state.action_in_flight, 0);
    assert!(!state.listener_subscribed);
}

#[test]
fn preferred_target_is_reconciled_against_fresh_targets() {
    let mut state = AppState {
        preferred_target: Some("toy-2".to_owned()),
        ..AppState::default()
    };
    state.apply_devices(vec![
        ProviderTarget::new_any("toy-1", "Alpha"),
        ProviderTarget::new_any("toy-2", "Beta"),
    ]);
    assert_eq!(state.selected_device.as_deref(), Some("toy-2"));
    assert_eq!(state.selected_device().map(ProviderTarget::name), Some("Beta"));
    state.reset_connection();
    assert!(state.selected_device.is_none());
    assert_eq!(state.preferred_target.as_deref(), Some("toy-2"));
    state.apply_connection_result(Err(ProviderError::NotConnected));
    assert_eq!(state.preferred_target.as_deref(), Some("toy-2"));
    state.apply_devices(vec![ProviderTarget::new_any("toy-3", "Gamma")]);
    assert_eq!(state.selected_device.as_deref(), Some("toy-3"));
    assert!(!state.select_device("toy-99".to_owned()));
}

#[test]
fn failed_connection_clears_stale_live_targets_but_preserves_preference() {
    let mut state = AppState {
        devices: vec![hub()],
        selected_device: Some("toy-1".to_owned()),
        preferred_target: Some("toy-1".to_owned()),
        ..AppState::default()
    };
    state.apply_connection_result(Err(ProviderError::NotConnected));
    assert!(state.devices.is_empty());
    assert!(state.selected_device.is_none());
    assert_eq!(state.preferred_target.as_deref(), Some("toy-1"));
    assert_eq!(state.credential_state, CredentialState::Invalid);
    assert_eq!(state.connection_error.as_deref(), Some("provider is not connected"));
}

#[test]
fn test_action_status_reports_success_and_failure() {
    let mut state = AppState::default();
    state.apply_test_action_result(Ok(()));
    assert_eq!(state.test_action_status, Some(TestActionStatus::Sent));
    state.apply_test_action_result(Err(ProviderError::NotConnected));
    assert!(matches!(state.test_action_status, Some(TestActionStatus::Failed(_))));
}

#[test]
fn detection_status_updates_path_and_guidance() {
    let path = "/steam/Deadlock/game/citadel/console.log".to_owned();
    let mut state = AppState::default();
    state.apply_log_detection(Ok(Detection::Ready { path: path.clone() }), Ok(()));
    assert_eq!(state.log_path, path);
    assert_eq!(state.log_detection_status, Some(LogDetectionStatus::Found));
    state.apply_log_detection(Ok(Detection::NotCreated { path }), Ok(()));
    assert!(state
        .log_detection_status
        .as_ref()
        .expect("status")
        .label()
        .contains("-condebug"));
    state.log_path = "/manual/console.log".into();
    state.apply_log_detection(Err("Deadlock is not installed".to_owned()), Ok(()));
    assert_eq!(state.log_path, "/manual/console.log");
}

#[test]
fn startup_saved_path_starts_without_detection() {
    let mut state = AppState {
        log_path: "  /games/console.log ".to_owned(),
        ..AppState::default()
    };
    let plan = state.initialize_log_listener();
    assert_eq!(plan, StartupListenerPlan::StartSaved { path: "/games/console.log".to_owned() });
    assert_eq!(state.log_path, "/games/console.log");
    assert!(state.log_detection_status.is_none());
}

#[test]
fn startup_detection_failure_is_non_fatal_and_stays_stopped() {
    let mut state = AppState::default();
    assert_eq!(state.initialize_log_listener(), StartupListenerPlan::Detect);
    let stop = state.apply_log_detection_with_context(
        Err("Deadlock is not installed".to_owned()),
        LogListenerStartContext::Startup,
        Ok(()),
    );
    assert!(stop);
    assert!(state.log_path.is_empty());
    assert!(!state.listener_subscribed);
    assert!(state.listener_action_error.is_none());
    assert!(matches!(state.log_detection_status, Some(LogDetectionStatus::Failed(_))));
}

#[test]
fn expired_completion_is_skipped_and_decrements_in_flight() {
    let mut state = AppState {
        action_in_flight: 1,
        ..AppState::default()
    };
    state.apply_completion(
        request(TriggerKind::Death),
        ActionCompletionResult::Skipped { reason: "expired".to_owned() },
    );
    assert_eq!(state.action_in_flight, 0);
    assert_eq!(skipped_reason(&state).as_deref(), Some("expired"));
}

#[test]
fn actionable_events_share_global_watermark_and_disabled_filtering_advances_it() {
    let mut state = AppState::default();
    state.queue_trigger_action(trigger(TriggerKind::AbilityUse, "first", 4), 0);
    assert_eq!(state.last_sequence, Some(("first".to_owned(), 4)));
    state.queue_trigger_action(trigger(TriggerKind::Death, "first", 3), 0);
    state.triggers.ability_use.trigger.enabled = true;
    state.triggers.ability_use.ability_filter = AbilityFilter::Selected(BTreeSet::new());
    state.queue_trigger_action(trigger(TriggerKind::AbilityUse, "first", 5), 0);
    assert_eq!(state.last_sequence, Some(("first".to_owned(), 5)));
    state.triggers.ability_use.ability_filter = AbilityFilter::All;
    state.queue_trigger_action(trigger(TriggerKind::AbilityUse, "first", 5), 0);
    assert!(state.action_status.is_none());
    state.queue_trigger_action(trigger(TriggerKind::AbilityUse, "first", 6), 0);
    assert_eq!(state.last_sequence, Some(("first".to_owned(), 6)));
}

#[test]
fn parsed_enabled_ability_event_reaches_action_queue_path() {
    let event = BridgeEvent::AbilityCooldownReady(AbilityTrigger {
        session_id: "session".to_owned(),
        sequence: 3,
        client_time_ms: 7,
        ability_slot: 2,
        ability_name: Some("Bookwyrm".to_owned()),
        detection: "charge_restored".to_owned(),
        charges_before: Some(1),
        charges_after: Some(2),
    });
    let mut state = AppState::default();
    state.triggers.ability_cooldown_ready.trigger.enabled = true;
    let request = state.handle_bridge_event(event, 0);
    assert!(request.is_none());
    assert_eq!(state.last_sequence, Some(("session".to_owned(), 3)));
    assert!(matches!(state.action_status, Some(ActionStatus::Skipped { .. })));
    assert_eq!(state.action_in_flight, 0);
}

#[test]
fn hook_ready_and_catalog_events_do_not_advance_actionable_state() {
    let mut state = AppState::default();
    state.ability_catalog.insert(1, Some("Stale name".to_owned()));
    state.handle_bridge_event(
        BridgeEvent::HookReady(HookReady {
            schema: 1,
            session_id: "session".to_owned(),
            client_time_ms: 1,
            poll_interval_ms: 100,
        }),
        0,
    );
    state.handle_bridge_event(
        BridgeEvent::AbilityCatalog(AbilityCatalog {
            schema: 1,
            session_id: "session".to_owned(),
            client_time_ms: 2,
            abilities: vec![AbilityCatalogEntry {
                ability_slot: 2,
                ability_name: Some("Replacement".to_owned()),
            }],
        }),
        0,
    );
    assert!(state.last_sequence.is_none());
    assert_eq!(state.ability_catalog.get(&2), Some(&Some("Replacement".to_owned())));
    assert!(state.ability_catalog.get(&1).is_none());
}

#[test]
fn trigger_routing_resolves_selected_profile_before_status() {
    let mut state = AppState::default();
    state.triggers.ability_use.trigger.enabled = true;
    state.triggers.ability_use.trigger.actions.mode = VibrateMode::Fixed;
    state.triggers.ability_use.trigger.actions.fixed.strength = 13.0f32.to_bits();
    state.triggers.ability_use.trigger.actions.fixed.duration_seconds = 4.0f32.to_bits();
    state.queue_trigger_action(trigger(TriggerKind::AbilityUse, "session", 1), 0);
    let Some(status) = state.action_status.as_ref() else {
        panic!("enabled trigger should record missing-provider status");
    };
    let snapshot = status.snapshot();
    assert_eq!(snapshot.resolved, Some(resolved(13, 4)));
    state.triggers.ability_use.trigger.actions.fixed.strength = 5.0f32.to_bits();
    assert_eq!(state.action_status.as_ref().unwrap().snapshot().resolved, Some(resolved(13, 4)));
}

#[test]
fn ability_filters_cover_all_selected_empty_and_unknown_slots() {
    assert!(AbilityFilter::All.accepts(1));
    assert!(AbilityFilter::All.accepts(999));
    let selected = AbilityFilter::Selected(BTreeSet::from([2, 5]));
    assert!(!selected.accepts(1));
    assert!(selected.accepts(2));
    assert!(!selected.accepts(999));
    assert!(!AbilityFilter::Selected(BTreeSet::new()).accepts(2));
}

#[test]
fn selecting_effect_updates_editor_and_copy_source() {
    let mut state = AppState {
        selected_effect: TriggerKind::Death,
        copy_source: TriggerKind::AbilityUse,
        copy_feedback: Some("old confirmation".to_owned()),
        ..AppState::default()
    };
    state.select_effect(TriggerKind::AbilityUse);
    assert_eq!(state.selected_effect, TriggerKind::AbilityUse);
    assert_eq!(state.copy_source, TriggerKind::Death);
    assert!(state.copy_feedback.is_none());
}

#[test]
fn reset_is_blocked_by_each_in_flight_work_kind() {
    let mut connection_busy = AppState::default();
    connection_busy.lovense.domain = "keep".to_owned();
    connection_busy.connection_pending = true;
    assert!(!connection_busy.reset_saved_state());
    assert_eq!(connection_busy.lovense.domain, "keep");
    let mut test_busy = AppState {
        test_action_pending: true,
        ..AppState::default()
    };
    assert!(!test_busy.reset_saved_state());
    let mut action_busy = AppState {
        action_in_flight: 1,
        ..AppState::default()
    };
    assert!(!action_busy.reset_saved_state());
}

#[test]
fn completed_action_decrements_in_flight_and_records_sent_status() {
    let mut state = AppState {
        action_in_flight: 1,
        ..AppState::default()
    };
    state.apply_completion(request(TriggerKind::Death), ActionCompletionResult::Completed(Ok(())));
    assert_eq!(state.action_in_flight, 0);
    assert!(matches!(state.action_status, Some(ActionStatus::Sent(_))));
}

#[test]
fn no_connection_and_missing_target_paths_report_skips() {
    let mut state = AppState::default();
    state.queue_trigger_action(trigger(TriggerKind::Death, "session", 1), 0);
    assert_eq!(skipped_reason(&state).as_deref(), Some("provider is not connected"));

    let mut connected_shape = AppState {
        devices: vec![hub()],
        selected_device: Some("toy-1".to_owned()),
        ..AppState::default()
    };
    connected_shape.queue_trigger_action(trigger(TriggerKind::Death, "session", 1), 0);
    assert_eq!(skipped_reason(&connected_shape).as_deref(), Some("provider is not connected"));
}

#[test]
fn optional_and_none_target_policies_reach_adapter_boundary() {
    let selected = Some(hub());
    assert!(target_for_policy(TargetPolicy::Optional, None).is_none());
    assert!(target_for_policy(TargetPolicy::Optional, selected.clone()).is_some());
    assert!(target_for_policy(TargetPolicy::NoTarget, selected).is_none());
}

#[test]
fn connected_trigger_hands_out_a_request_for_the_selected_target() {
    let mut state = AppState {
        connected: true,
        devices: vec![hub()],
        selected_device: Some("toy-1".to_owned()),
        ..AppState::default()
    };
    let request = state
        .queue_trigger_action(trigger(TriggerKind::Death, "session", 1), 77)
        .expect("request for the worker");
    assert_eq!(request.target.as_ref().map(ProviderTarget::id).map(String::as_str), Some("toy-1"));
    assert_eq!(request.resolved, resolved(0, 1));
    assert_eq!(request.queued_at_ms, 77);
    assert!(state.action_status.is_none());
    state.apply_action_enqueue_result(request, ActionEnqueueResult::Accepted);
    assert_eq!(state.action_in_flight, 1);
    let label = state.action_status.as_ref().unwrap().label();
    assert_eq!(label, "Lovense: Sending vibrate to hub at 0/20 for 1 s (death session#1)…");
}

#[test]
fn replayed_trigger_is_ignored_after_it_was_handled() {
    let mut state = AppState::default();
    state.triggers.kill.enabled = true;
    state.queue_trigger_action(trigger(TriggerKind::Kill, "s", 2), 0);
    let reason = skipped_reason(&state);
    state.action_status = None;
    assert!(state.queue_trigger_action(trigger(TriggerKind::Kill, "s", 2), 0).is_none());
    assert!(state.action_status.is_none());
    assert!(reason.is_some());
    state.queue_trigger_action(trigger(TriggerKind::Kill, "other", 1), 0);
    assert_eq!(state.last_sequence, Some(("other".to_owned(), 1)));
}

#[test]
fn queued_actions_expire_after_thirty_seconds() {
    assert!(!action_job_expired_at(1_000, 1_000 + MAX_ACTION_QUEUE_AGE_MS - 1));
    assert!(action_job_expired_at(1_000, 1_000 + MAX_ACTION_QUEUE_AGE_MS));
    assert!(!action_job_expired_at(5_000, 1_000));
}

#[test]
fn connection_test_uses_the_active_bank_and_success_selects_first_target() {
    let mut state = AppState::default();
    state.set_provider(ProviderKind::Intiface);
    let settings = state.begin_connection_test();
    assert_eq!(settings.kind(), ProviderKind::Intiface);
    assert_eq!(state.credential_state, CredentialState::Testing);
    assert!(state.connection_pending);
    state.apply_connection_result(Ok(vec![ProviderTarget::new_any("a", "A"), ProviderTarget::new_any("b", "B")]));
    assert!(state.connected);
    assert!(!state.connection_pending);
    assert_eq!(state.selected_device.as_deref(), Some("a"));
    assert_eq!(state.preferred_target.as_deref(), Some("a"));
    assert!(state.select_device("b".to_owned()));
    assert_eq!(state.begin_test_action().unwrap().unwrap().name(), "B");
    assert_eq!(state.test_action_status, Some(TestActionStatus::Sending));
}

#[test]
fn listener_start_failure_is_reported() {
    let mut state = AppState::default();
    assert!(state.start_configured_listener().is_none());
    assert_eq!(
        state.listener_action_error.as_deref(),
        Some("Enter a console.log path before starting the listener.")
    );
    state.log_path = " /tmp/console.log ".to_owned();
    assert_eq!(state.start_configured_listener().as_deref(), Some("/tmp/console.log"));
    state.apply_listener_start(Err("denied".to_owned()));
    assert_eq!(state.listener_action_error.as_deref(), Some("Could not start listener: denied"));
    assert!(state.listener_subscribed);
}

#[test]
fn action_resolution_is_an_immutable_snapshot() {
    let mut settings = companion::action::VibrateActionSettings::default();
    settings.mode = VibrateMode::Fixed;
    settings.fixed.strength = 11.0f32.to_bits();
    settings.fixed.duration_seconds = 3.0f32.to_bits();
    let snapshot = settings.resolve_with(&mut rand::rng()).unwrap();
    settings.fixed.strength = 19.0f32.to_bits();
    assert_eq!(f32::from_bits(settings.fixed.strength), 19.0);
    assert_eq!(snapshot, resolved(11, 3));
}

#[test]
fn action_queue_preserves_capacity_and_expiry() {
    assert_eq!(companion::app::ACTION_QUEUE_CAPACITY, 10);
    let queued_at = 5_000;
    assert!(action_job_expired_at(queued_at, queued_at + MAX_ACTION_QUEUE_AGE_MS));
}

#[test]
fn bridge_events_are_described_with_their_details() {
    let kill = BridgeEvent::LocalPlayerKill(CountTrigger {
        session_id: "s".to_owned(),
        sequence: 1,
        client_time_ms: 1,
        detection: "scoreboard".to_owned(),
        count_before: Some(3),
        count_after: Some(4),
    });
    assert_eq!(bridge_event_description(&kill), "local_player_kill, detection scoreboard, count 3→4");
    let ability = BridgeEvent::AbilityUsed(AbilityTrigger {
        session_id: "s".to_owned(),
        sequence: 2,
        client_time_ms: 2,
        ability_slot: 4,
        ability_name: None,
        detection: "cast".to_owned(),
        charges_before: None,
        charges_after: Some(1),
    });
    assert_eq!(bridge_event_description(&ability), "ability_used, slot 4, detection cast");
    assert_eq!(TriggerKind::AbilityCooldownReady.display_label(), "Cooldown ready");
}

#[test]
fn manual_listener_restart_uses_configured_path() {
    let mut state = AppState {
        log_path: "/games/citadel/console.log".to_owned(),
        ..AppState::default()
    };
    let path = state.start_configured_listener();
    assert_eq!(path.as_deref(), Some("/games/citadel/console.log"));
    state.apply_listener_start(Ok(()));
    assert!(state.listener_subscribed);
    assert!(state.listener_action_error.is_none());
}

#[test]
fn startup_saved_missing_path_waits_without_detection_or_error() {
    let path = "/missing/console.log".to_owned();
    let mut state = AppState {
        log_path: path.clone(),
        ..AppState::default()
    };
    assert_eq!(state.initialize_log_listener(), StartupListenerPlan::StartSaved { path: path.clone() });
    state.apply_listener_start(Ok(()));
    assert_eq!(state.log_path, path);
    assert!(state.log_detection_status.is_none());
    assert!(state.listener_action_error.is_none());
}

#[test]
fn startup_empty_state_ready_detection_starts_listener() {
    let path = "/games/citadel/console.log".to_owned();
    let mut state = AppState::default();
    assert_eq!(state.initialize_log_listener(), StartupListenerPlan::Detect);
    let stop = state.apply_log_detection_with_context(
        Ok(Detection::Ready { path: path.clone() }),
        LogListenerStartContext::Startup,
        Ok(()),
    );
    assert!(!stop);
    assert_eq!(state.log_path, path);
    assert_eq!(state.log_detection_status, Some(LogDetectionStatus::Found));
    assert!(state.listener_subscribed);
}

#[test]
fn startup_empty_state_not_created_detection_waits_with_guidance() {
    let path = "/games/citadel/console.log".to_owned();
    let mut state = AppState::default();
    assert_eq!(state.initialize_log_listener(), StartupListenerPlan::Detect);
    let stop = state.apply_log_detection_with_context(
        Ok(Detection::NotCreated { path: path.clone() }),
        LogListenerStartContext::Startup,
        Ok(()),
    );
    assert!(!stop);
    assert_eq!(state.log_path, path);
    assert_eq!(state.log_detection_status, Some(LogDetectionStatus::NotCreated));
    assert!(state
        .log_detection_status
        .as_ref()
        .expect("not-created status")
        .label()
        .contains("-condebug"));
    assert!(state.listener_subscribed);
}

#[test]
fn startup_reset_stops_listener_without_second_detection() {
    let mut state = AppState::default();
    assert_eq!(state.initialize_log_listener(), StartupListenerPlan::Detect);
    state.apply_log_detection_with_context(
        Ok(Detection::NotCreated { path: "/games/citadel/console.log".to_owned() }),
        LogListenerStartContext::Startup,
        Ok(()),
    );
    assert!(state.listener_subscribed);
    assert!(state.reset_saved_state());
    assert!(!state.listener_subscribed);
    assert!(state.log_path.is_empty());
    assert!(state.log_detection_status.is_none());
}
