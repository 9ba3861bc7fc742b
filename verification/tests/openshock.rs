use companion::json::JsonValue;
use companion::openshock::{decode_groups, decode_token, flatten_permissions, preflight_outcome};
use companion::openshock::{handshake_outcome, shock_command, sound_command, split_records, RECORD_SEPARATOR};
use companion::openshock::{
    available_shockers, check_status, check_token, classify_record, drops_socket, redact,
    shock_group_commands, test_sound_commands, validate_credentials, validate_duration,
    validate_intensity, Credentials, DeviceGroup, Error, InvocationCounter, RecordOutcome, Shocker,
    TokenInfo,
};

const TOKEN: &str = "open-shock-secret";

#[test]
fn credentials_debug_redacts_token() {
    let credentials = Credentials::new("secret-token");
    let debug = credentials.debug_text();
    assert!(!debug.contains("secret-token"));
    assert!(debug.contains("REDACTED"));
}

#[test]
fn command_error_redacts_token() {
    assert_eq!(
        redact(&format!("token {TOKEN} rejected"), TOKEN),
        "token [REDACTED] rejected"
    );
}

#[test]
fn duration_boundaries_are_validated() {
    assert!(validate_duration(300).is_ok());
    assert!(validate_duration(65_535).is_ok());
    assert_eq!(validate_duration(299), Err(Error::InvalidDuration));
    assert_eq!(validate_duration(65_536), Err(Error::InvalidDuration));
}

#[test]
fn intensity_boundaries_are_validated() {
    assert!(validate_intensity(1).is_ok());
    assert!(validate_intensity(100).is_ok());
    assert_eq!(validate_intensity(0), Err(Error::InvalidIntensity));
}

fn shocker(id: &str, paused: bool) -> Shocker {
    Shocker {
        id: id.to_owned(),
        name: id.to_owned(),
        paused,
    }
}

#[test]
fn available_shockers_filter_paused_targets_and_reject_empty_groups() {
    let group = DeviceGroup {
        id: "group".to_owned(),
        name: "Group".to_owned(),
        shockers: vec![
            Shocker {
                id: "active".to_owned(),
                name: "Active".to_owned(),
                paused: false,
            },
            Shocker {
                id: "paused".to_owned(),
                name: "Paused".to_owned(),
                paused: true,
            },
        ],
    };
    let available = available_shockers(&group).expect("active shocker");
    assert_eq!(
        available
            .iter()
            .map(|shocker| shocker.id.as_str())
            .collect::<Vec<_>>(),
        vec!["active"]
    );
    let empty = DeviceGroup {
        id: "empty".to_owned(),
        name: "Empty".to_owned(),
        shockers: vec![Shocker {
            id: "paused".to_owned(),
            name: "Paused".to_owned(),
            paused: true,
        }],
    };
    assert_eq!(available_shockers(&empty), Err(Error::NoAvailableShockers));
}

#[test]
fn credentials_are_trimmed_and_checked_before_networking() {
    let credentials = Credentials::new("  token \n");
    assert_eq!(credentials.token(), "token");
    assert_eq!(validate_credentials(&Credentials::new("  "), "sender"), Err(Error::EmptyToken));
    assert_eq!(validate_credentials(&credentials, " \t"), Err(Error::EmptySender));
    assert_eq!(validate_credentials(&credentials, "sender"), Ok(()));
}

#[test]
fn shock_commands_validate_before_building() {
    let active = DeviceGroup {
        id: "group".to_owned(),
        name: "Group".to_owned(),
        shockers: vec![shocker("active", false), shocker("resting", true), shocker("second", false)],
    };
    assert_eq!(shock_group_commands(&active, 0, 1_000), Err(Error::InvalidIntensity));
    assert_eq!(shock_group_commands(&active, 50, 299), Err(Error::InvalidDuration));
    let paused = DeviceGroup {
        id: "paused".to_owned(),
        name: "Paused".to_owned(),
        shockers: vec![shocker("paused", true)],
    };
    assert_eq!(shock_group_commands(&paused, 50, 1_000), Err(Error::NoAvailableShockers));
    let commands = shock_group_commands(&active, 42, 1_234).unwrap();
    assert_eq!(commands.len(), 2);
    assert_eq!(commands[0].id, "active");
    assert_eq!(commands[1].id, "second");
    assert_eq!(commands[0].signal_type, 1);
    assert_eq!(commands[0].intensity, 42);
    assert_eq!(commands[0].duration_ms, 1_234);
    let sounds = test_sound_commands(&active, 300).unwrap();
    assert_eq!(sounds[0].signal_type, 3);
    assert_eq!(sounds[0].intensity, 0);
}

#[test]
fn token_checks_reject_paused_and_permissionless_tokens() {
    let paused = TokenInfo {
        paused: true,
        permissions: vec!["shockers.use".to_owned()],
    };
    assert_eq!(check_token(paused), Err(Error::TokenPaused));
    let without = TokenInfo {
        paused: false,
        permissions: vec!["shockers.edit".to_owned()],
    };
    assert_eq!(check_token(without), Err(Error::PermissionDenied));
    let allowed = TokenInfo {
        paused: false,
        permissions: vec!["shockers.use".to_owned()],
    };
    assert_eq!(check_token(allowed.clone()), Ok(allowed));
}

#[test]
fn openshock_statuses_map_to_typed_errors() {
    assert_eq!(check_status(200, "device listing"), Ok(()));
    assert_eq!(check_status(401, "token authentication"), Err(Error::AuthenticationRejected));
    assert_eq!(
        check_status(401, "device listing"),
        Err(Error::HttpStatus { operation: "device listing", status: 401 })
    );
    assert_eq!(
        Error::HttpStatus { operation: "device listing", status: 500 }.message(),
        "device listing returned HTTP status 500"
    );
}

#[test]
fn completion_records_end_the_wait_and_redact_errors() {
    assert_eq!(
        classify_record(Some(3), Some("7"), None, "7", TOKEN),
        RecordOutcome::Completed(Ok(()))
    );
    assert_eq!(
        classify_record(Some(3), Some("7"), Some("bad open-shock-secret"), "7", TOKEN),
        RecordOutcome::Completed(Err(Error::CommandRejected { message: "bad [REDACTED]".to_owned() }))
    );
    assert_eq!(classify_record(Some(3), Some("8"), None, "7", TOKEN), RecordOutcome::Continue);
    assert_eq!(classify_record(Some(6), None, None, "7", TOKEN), RecordOutcome::Continue);
    assert_eq!(
        classify_record(Some(7), None, None, "7", TOKEN),
        RecordOutcome::Completed(Err(Error::Disconnected))
    );
}

#[test]
fn ambiguous_failures_drop_the_socket() {
    assert!(drops_socket(&Err(Error::Transport)));
    assert!(drops_socket(&Err(Error::Disconnected)));
    assert!(drops_socket(&Err(Error::Handshake)));
    assert!(!drops_socket(&Ok(())));
    assert!(!drops_socket(&Err(Error::CommandRejected { message: String::new() })));
}

#[test]
fn invocations_are_numbered_from_one() {
    let mut counter = InvocationCounter::new();
    let first = counter.invocation(Vec::new(), "sender");
    let second = counter.invocation(Vec::new(), "sender");
    assert_eq!(first.invocation_id, "1");
    assert_eq!(second.invocation_id, "2");
    assert_eq!(second.sender, "sender");
}


fn text(value: &str) -> JsonValue {
    JsonValue::Text(value.to_owned())
}

fn obj(members: Vec<(&str, JsonValue)>) -> JsonValue {
    JsonValue::Object(members.into_iter().map(|(key, value)| (key.to_owned(), value)).collect())
}

fn listing_with_pause(pause: Option<(&str, JsonValue)>) -> JsonValue {
    let mut shocker = vec![("id", text("s")), ("name", text("S"))];
    if let Some(member) = pause {
        shocker.push(member);
    }
    obj(vec![(
        "data",
        JsonValue::Array(vec![obj(vec![
            ("id", text("g")),
            ("name", text("Group")),
            ("shockers", JsonValue::Array(vec![obj(shocker)])),
        ])]),
    )])
}

#[test]
fn legacy_envelope_decodes_groups() {
    let value = obj(vec![
        ("success", JsonValue::Bool(true)),
        (
            "data",
            JsonValue::Array(vec![obj(vec![
                ("id", text("g")),
                ("name", text("Group")),
                (
                    "shockers",
                    JsonValue::Array(vec![obj(vec![
                        ("id", text("s")),
                        ("name", text("S")),
                        ("paused", JsonValue::Bool(true)),
                    ])]),
                ),
            ])]),
        ),
    ]);
    let groups = decode_groups(&value).expect("groups");
    assert_eq!(groups[0].shockers[0].id, "s");
    assert!(groups[0].shockers[0].paused);
}

#[test]
fn token_decoder_requires_boolean_pause_state() {
    for value in [
        obj(vec![("data", obj(vec![("permissions", JsonValue::Array(vec![]))]))]),
        obj(vec![("data", obj(vec![("shockerControl", obj(vec![]))]))]),
        obj(vec![("data", obj(vec![("shockerControl", obj(vec![("paused", JsonValue::Null)]))]))]),
        obj(vec![("data", obj(vec![("shockerControl", obj(vec![("paused", text("false"))]))]))]),
    ] {
        assert_eq!(
            decode_token(&value),
            Err(Error::Decode { operation: "token authentication" })
        );
    }
}

#[test]
fn group_decoder_accepts_both_pause_spellings_and_rejects_invalid_state() {
    for (key, pause) in [("paused", true), ("isPaused", false)] {
        let groups = decode_groups(&listing_with_pause(Some((key, JsonValue::Bool(pause))))).expect("groups");
        assert_eq!(groups[0].shockers[0].paused, pause);
    }
    for pause in [
        None,
        Some(("paused", JsonValue::Null)),
        Some(("isPaused", text("false"))),
    ] {
        assert_eq!(
            decode_groups(&listing_with_pause(pause)),
            Err(Error::Decode { operation: "device listing" })
        );
    }
}

#[test]
fn token_decoder_checks_nested_pause_state() {
    let value = obj(vec![(
        "data",
        obj(vec![
            ("id", text("t")),
            ("permissions", JsonValue::Array(vec![text("shockers.use")])),
            ("shockerControl", obj(vec![("paused", JsonValue::Bool(true))])),
        ]),
    )]);
    assert!(decode_token(&value).expect("token").paused);
}

#[test]
fn null_discovery_data_is_empty() {
    assert!(decode_groups(&obj(vec![("data", JsonValue::Null)])).expect("groups").is_empty());
}

#[test]
fn preflight_rejects_paused_and_permissionless_tokens() {
    let paused = obj(vec![
        ("id", text("token")),
        ("permissions", JsonValue::Array(vec![text("shockers.use")])),
        ("shockerControl", obj(vec![("paused", JsonValue::Bool(true))])),
    ]);
    assert_eq!(preflight_outcome(&paused), Err(Error::TokenPaused));
    let permissionless = obj(vec![
        ("id", text("token")),
        ("permissions", JsonValue::Array(vec![])),
        ("shockerControl", obj(vec![("paused", JsonValue::Bool(false))])),
    ]);
    assert_eq!(preflight_outcome(&permissionless), Err(Error::PermissionDenied));
}

#[test]
fn nested_permission_objects_grant_use() {
    let permissions = obj(vec![(
        "shockers",
        obj(vec![("use", JsonValue::Bool(true)), ("edit", JsonValue::Bool(false))]),
    )]);
    assert_eq!(flatten_permissions(&permissions), vec!["use".to_owned(), "shockers.use".to_owned()]);
    let token = obj(vec![
        ("permissions", permissions),
        ("shockerControl", obj(vec![("paused", JsonValue::Bool(false))])),
    ]);
    let info = preflight_outcome(&token).expect("usable token");
    assert!(!info.paused);
}

#[test]
fn numeric_identifiers_and_alternate_keys_decode() {
    let value = obj(vec![(
        "groups",
        JsonValue::Array(vec![obj(vec![
            ("deviceId", JsonValue::Unsigned(42)),
            ("Shocker", JsonValue::Array(vec![obj(vec![
                ("shockerId", JsonValue::Unsigned(7)),
                ("isPaused", JsonValue::Bool(false)),
            ])])),
        ])]),
    )]);
    let groups = decode_groups(&value).expect("groups");
    assert_eq!(groups[0].id, "42");
    assert_eq!(groups[0].name, "OpenShock device");
    assert_eq!(groups[0].shockers[0].id, "7");
    assert_eq!(groups[0].shockers[0].name, "OpenShock shocker");
    assert_eq!(decode_groups(&text("nope")), Err(Error::Decode { operation: "device listing" }));
}


#[test]
fn shock_validates_before_socket_invocation() {
    let active = DeviceGroup {
        id: "group".to_owned(),
        name: "Group".to_owned(),
        shockers: vec![shocker("active", false)],
    };
    assert_eq!(shock_group_commands(&active, 0, 1_000), Err(Error::InvalidIntensity));
    assert_eq!(shock_group_commands(&active, 50, 299), Err(Error::InvalidDuration));
    let paused = DeviceGroup {
        id: "paused".to_owned(),
        name: "Paused".to_owned(),
        shockers: vec![shocker("paused", true)],
    };
    assert_eq!(shock_group_commands(&paused, 50, 1_000), Err(Error::NoAvailableShockers));
}

#[test]
fn control_v2_invocation_has_complete_shape() {
    let command = sound_command("shocker", 300);
    let mut counter = InvocationCounter { next: 7 };
    let frame = counter.invocation(vec![command], "sender");
    assert_eq!(frame.invocation_id, "7");
    assert_eq!(frame.commands[0].signal_type, 3);
    assert_eq!(frame.commands[0].intensity, 0);
    assert_eq!(frame.commands[0].duration_ms, 300);
    assert_eq!(frame.commands[0].id, "shocker");
    assert_eq!(frame.sender, "sender");
    assert_eq!(counter.next, 8);
}

#[test]
fn shock_command_has_exact_control_v2_shape() {
    let command = shock_command("shocker", 42, 1_234);
    assert_eq!(command.id, "shocker");
    assert_eq!(command.signal_type, 1);
    assert_eq!(command.intensity, 42);
    assert_eq!(command.duration_ms, 1_234);
}

#[test]
fn signalr_messages_split_into_their_non_empty_records() {
    let text = "{\"type\":6}\u{1e}\u{1e}{\"type\":3,\"invocationId\":\"1\"}\u{1e}";
    assert_eq!(
        split_records(text),
        vec!["{\"type\":6}".to_owned(), "{\"type\":3,\"invocationId\":\"1\"}".to_owned()]
    );
    assert_eq!(split_records("tail"), vec!["tail".to_owned()]);
    assert!(split_records("\u{1e}\u{1e}").is_empty());
    assert_eq!(RECORD_SEPARATOR, '\u{1e}');
}

#[test]
fn handshake_records_accept_refuse_or_pass() {
    assert_eq!(handshake_outcome(&JsonValue::Object(vec![])), Some(Ok(())));
    assert_eq!(
        handshake_outcome(&JsonValue::Object(vec![("error".to_owned(), JsonValue::Null)])),
        Some(Err(Error::Handshake))
    );
    assert_eq!(
        handshake_outcome(&JsonValue::Object(vec![("type".to_owned(), JsonValue::Unsigned(6))])),
        None
    );
    assert_eq!(handshake_outcome(&JsonValue::Array(vec![])), None);
}
