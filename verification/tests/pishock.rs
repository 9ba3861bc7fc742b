use companion::pishock::{
    beep_device_commands, shock_device_commands, OPERATION_SUCCEEDED,
};
use companion::pishock::{
    available_shockers, check_shocker_info_status, check_status, command_fields, find_device,
    normalize_share_code, parse_operation_response, validate_command, validate_credentials,
    validate_websocket_command, websocket_outcome, Command, Credentials, Device, Error, Shocker,
};

const USERNAME: &str = "api-user";
const API_KEY: &str = "super-secret-key";
const SENDER: &str = "desktop-companion";
const SHARE_CODE: &str = "SHARE-CODE";

#[test]
fn credentials_debug_redacts_api_key() {
    let debug = Credentials::new(USERNAME, API_KEY).debug_text();
    assert!(debug.contains(USERNAME));
    assert!(!debug.contains(API_KEY));
    assert!(debug.contains("[REDACTED]"));
}

#[test]
fn bounded_live_and_unknown_rejections_are_preserved() {
    assert_eq!(
        parse_operation_response("Intensity must be between 0 and 50", API_KEY),
        Err(Error::IntensityRejected {
            message: "Intensity must be between 0 and 50".into()
        })
    );
    assert_eq!(
        parse_operation_response("Duration must be between 1 and 8", API_KEY),
        Err(Error::DurationRejected {
            message: "Duration must be between 1 and 8".into()
        })
    );
    assert_eq!(
        parse_operation_response("Unexpected policy rejection", API_KEY),
        Err(Error::OperationRejected {
            message: "Unexpected policy rejection".into()
        })
    );
    assert_eq!(
        parse_operation_response("Shock not allowed.", API_KEY),
        Err(Error::OperationNotAllowed)
    );
    assert_eq!(
        parse_operation_response("Device in Use.", API_KEY),
        Err(Error::ShareCodeInUse)
    );
    assert_eq!(
        parse_operation_response(&format!("Rejected key {API_KEY}"), API_KEY),
        Err(Error::OperationRejected {
            message: "Rejected key [REDACTED]".into()
        })
    );
}

#[test]
fn documented_answers_map_to_typed_errors() {
    let cases = [
        ("Operation Succeeded.", Ok(())),
        ("This code doesn’t exist.", Err(Error::ShareCodeNotFound)),
        ("Not Authorized.", Err(Error::NotAuthorized)),
        ("Shocker is Paused, unable to send command.", Err(Error::ShockerPaused)),
        ("Device currently not connected.", Err(Error::DeviceOffline)),
        (
            "This share code has already been used by somebody else.",
            Err(Error::ShareCodeInUse),
        ),
        (
            "Unknown Op, use 0 for shock, 1 for vibrate and 2 for beep.",
            Err(Error::InvalidOperation),
        ),
    ];
    for (body, expected) in cases {
        assert_eq!(parse_operation_response(body, API_KEY), expected);
    }
}

#[test]
fn credentials_are_validated_in_order() {
    assert_eq!(
        validate_credentials(&Credentials::new("", API_KEY), "sender"),
        Err(Error::EmptyUsername)
    );
    assert_eq!(
        validate_credentials(&Credentials::new(USERNAME, " "), "sender"),
        Err(Error::EmptyApiKey)
    );
    assert_eq!(
        validate_credentials(&Credentials::new(USERNAME, API_KEY), "\t"),
        Err(Error::EmptySender)
    );
    let credentials = Credentials::new(" user ", " key ");
    assert_eq!(credentials.username(), "user");
    assert_eq!(credentials.api_key(), "key");
}

#[test]
fn commands_are_validated_and_encoded() {
    assert_eq!(
        validate_command(Command::Shock { intensity: 0, duration: 1 }),
        Err(Error::InvalidIntensity)
    );
    assert_eq!(
        validate_command(Command::Vibrate { intensity: 10, duration: 16 }),
        Err(Error::InvalidDuration)
    );
    assert_eq!(validate_command(Command::Beep { duration: 15 }), Ok(()));
    assert_eq!(command_fields(Command::Shock { intensity: 5, duration: 2 }), (0, Some(5), 2));
    assert_eq!(command_fields(Command::Vibrate { intensity: 6, duration: 3 }), (1, Some(6), 3));
    assert_eq!(command_fields(Command::Beep { duration: 4 }), (2, None, 4));
    assert_eq!(normalize_share_code("   "), Err(Error::EmptyShareCode));
    assert_eq!(normalize_share_code(" CODE "), Ok("CODE".to_owned()));
}

#[test]
fn pishock_statuses_map_to_typed_errors() {
    assert_eq!(check_status(403, "authentication"), Err(Error::AuthenticationRejected));
    assert_eq!(
        check_status(500, "command"),
        Err(Error::HttpStatus { operation: "command", status: 500 })
    );
    assert_eq!(check_shocker_info_status(404), Err(Error::ShareCodeNotFound));
    assert_eq!(check_shocker_info_status(401), Err(Error::NotAuthorized));
    assert_eq!(check_shocker_info_status(204), Ok(()));
}

fn device(client_id: u64, paused: &[bool]) -> Device {
    Device {
        client_id,
        name: format!("hub {client_id}"),
        user_id: 42,
        username: USERNAME.to_owned(),
        shockers: paused
            .iter()
            .enumerate()
            .map(|(index, paused)| Shocker {
                name: format!("shocker {index}"),
                shocker_id: index as u64,
                is_paused: *paused,
            })
            .collect(),
    }
}

#[test]
fn owned_commands_need_unpaused_shockers_and_valid_values() {
    assert_eq!(available_shockers(&device(1, &[true])), Err(Error::NoAvailableShockers));
    let available = available_shockers(&device(1, &[true, false, false])).unwrap();
    assert_eq!(available.iter().map(|s| s.shocker_id).collect::<Vec<_>>(), vec![1, 2]);
    assert_eq!(validate_websocket_command(0, 1_000), Err(Error::InvalidIntensity));
    assert_eq!(validate_websocket_command(10, 299), Err(Error::InvalidWebSocketDuration));
    assert_eq!(validate_websocket_command(100, 65_535), Ok(()));
}

#[test]
fn device_lookup_selects_by_client_id() {
    let devices = vec![device(1, &[false]), device(2, &[false]), device(2, &[true])];
    let found = find_device(devices, 2).unwrap();
    assert_eq!(found.client_id, 2);
    assert!(!found.shockers[0].is_paused);
    assert!(find_device(vec![device(1, &[])], 3).is_none());
}

#[test]
fn broker_rejections_are_redacted() {
    assert_eq!(websocket_outcome(false, "ignored", API_KEY), Ok(()));
    assert_eq!(
        websocket_outcome(true, "bad super-secret-key", API_KEY),
        Err(Error::WebSocketRejected { message: "bad [REDACTED]".to_owned() })
    );
    assert_eq!(
        Error::Decode { operation: "authentication" }.message(),
        "invalid PiShock response for authentication"
    );
}

#[test]
fn beep_device_publishes_to_every_unpaused_shocker() {
    let hub = device(7, &[false, true, false]);
    let commands = beep_device_commands(&hub, 2, 42, "desktop-companion").unwrap();
    assert_eq!(commands.len(), 2);
    assert_eq!(commands[0].target, "c7-ops");
    assert_eq!(commands[0].shocker_id, 0);
    assert_eq!(commands[1].shocker_id, 2);
    assert_eq!(commands[0].mode, "b");
    assert_eq!(commands[0].intensity, 0);
    assert_eq!(commands[0].duration, 2_000);
    assert!(commands[0].repeating);
    assert_eq!(commands[0].user_id, 42);
    assert_eq!(commands[0].command_type, "api");
    assert_eq!(commands[0].origin, "desktop-companion");
    assert_eq!(beep_device_commands(&hub, 16, 42, "x"), Err(Error::InvalidDuration));
}

#[test]
fn shock_device_validates_before_networking_and_requires_available_shockers() {
    let hub = device(3, &[true]);
    assert_eq!(shock_device_commands(&hub, 0, 1_000, 1, "x"), Err(Error::InvalidIntensity));
    assert_eq!(shock_device_commands(&hub, 50, 299, 1, "x"), Err(Error::InvalidWebSocketDuration));
    assert_eq!(shock_device_commands(&hub, 50, 1_000, 1, "x"), Err(Error::NoAvailableShockers));
    let open = device(3, &[false]);
    let commands = shock_device_commands(&open, 50, 1_000, 1, "x").unwrap();
    assert_eq!(commands[0].mode, "s");
    assert_eq!(commands[0].intensity, 50);
    assert_eq!(commands[0].duration, 1_000);
}

#[test]
fn credentials_trim_boundary_values_and_sender_names() {
    let credentials = Credentials::new(" \tapi-user\n", "\tsuper-secret-key \n");
    assert_eq!(credentials.username(), USERNAME);
    assert_eq!(credentials.api_key(), API_KEY);
    assert!(!credentials.debug_text().contains(API_KEY));
    assert_eq!(validate_credentials(&credentials, " \t desktop-companion \n"), Ok(()));
}

#[test]
fn legacy_client_validates_credentials_when_constructed() {
    assert_eq!(
        validate_credentials(&Credentials::new("", API_KEY), "desktop-companion"),
        Err(Error::EmptyUsername)
    );
    assert_eq!(
        validate_credentials(&Credentials::new(USERNAME, " "), "desktop-companion"),
        Err(Error::EmptyApiKey)
    );
    assert_eq!(
        validate_credentials(&Credentials::new(USERNAME, API_KEY), "\t"),
        Err(Error::EmptySender)
    );
}

#[test]
fn whitespace_only_share_codes_are_rejected_before_requests() {
    assert_eq!(normalize_share_code(" \t\n"), Err(Error::EmptyShareCode));
}

#[test]
fn get_device_lists_and_selects_by_client_id() {
    let listing = || vec![device(1, &[]), device(2, &[])];
    assert_eq!(find_device(listing(), 2).unwrap().name, "hub 2");
    assert_eq!(find_device(listing(), 99), None);
}

#[test]
fn beep_device_validates_duration_and_available_shockers() {
    assert_eq!(beep_device_commands(&device(1, &[false]), 0, 42, "x"), Err(Error::InvalidDuration));
    assert_eq!(beep_device_commands(&device(1, &[true]), 1, 42, "x"), Err(Error::NoAvailableShockers));
}

#[test]
fn invalid_values_are_rejected_without_networking() {
    assert_eq!(normalize_share_code(" "), Err(Error::EmptyShareCode));
    assert_eq!(validate_command(Command::Shock { intensity: 0, duration: 1 }), Err(Error::InvalidIntensity));
    assert_eq!(validate_command(Command::Vibrate { intensity: 101, duration: 1 }), Err(Error::InvalidIntensity));
    assert_eq!(validate_command(Command::Beep { duration: 0 }), Err(Error::InvalidDuration));
    assert_eq!(validate_command(Command::Beep { duration: 16 }), Err(Error::InvalidDuration));
}

#[test]
fn documented_operation_rejections_map_to_typed_errors() {
    let cases = [
        ("This code doesn’t exist.", Error::ShareCodeNotFound),
        ("Not Authorized.", Error::NotAuthorized),
        ("Shocker is Paused, unable to send command.", Error::ShockerPaused),
        ("Device currently not connected.", Error::DeviceOffline),
        ("This share code has already been used by somebody else.", Error::ShareCodeInUse),
        ("Unknown Op, use 0 for shock, 1 for vibrate and 2 for beep.", Error::InvalidOperation),
    ];
    for (body, expected) in cases {
        assert_eq!(parse_operation_response(body, API_KEY), Err(expected));
    }
}

fn hub_with(shockers: &[(u64, bool)]) -> Device {
    Device {
        client_id: 7,
        name: "Hub".to_owned(),
        user_id: 42,
        username: USERNAME.to_owned(),
        shockers: shockers
            .iter()
            .map(|(id, paused)| Shocker {
                name: format!("shocker {id}"),
                shocker_id: *id,
                is_paused: *paused,
            })
            .collect(),
    }
}

#[test]
fn get_shocker_info_maps_not_found_and_authorization_statuses() {
    for (status, expected) in [
        (404, Error::ShareCodeNotFound),
        (401, Error::NotAuthorized),
        (403, Error::NotAuthorized),
    ] {
        assert_eq!(check_shocker_info_status(status), Err(expected));
    }
}

#[test]
fn convenience_commands_emit_exact_operation_payloads() {
    let shock = Command::Shock { intensity: 25, duration: 3 };
    assert_eq!(validate_command(shock), Ok(()));
    assert_eq!(command_fields(shock), (0, Some(25), 3));
    assert_eq!(parse_operation_response("Operation Succeeded.\n".trim(), API_KEY), Ok(()));

    let vibrate = Command::Vibrate { intensity: 80, duration: 4 };
    assert_eq!(validate_command(vibrate), Ok(()));
    assert_eq!(command_fields(vibrate), (1, Some(80), 4));
    assert_eq!(parse_operation_response(" Operation Succeeded. ".trim(), API_KEY), Ok(()));

    let beep = Command::Beep { duration: 2 };
    assert_eq!(validate_command(beep), Ok(()));
    assert_eq!(command_fields(beep), (2, None, 2));
    assert_eq!(parse_operation_response("Operation Succeeded.", API_KEY), Ok(()));
}

#[test]
fn shock_device_publishes_exact_payload_to_every_unpaused_shocker() {
    let hub = hub_with(&[(9, false), (10, true), (11, false)]);
    let commands = shock_device_commands(&hub, 37, 1_234, 42, SENDER).unwrap();
    assert_eq!(commands.len(), 2);
    for (command, id) in commands.iter().zip([9, 11]) {
        assert_eq!(command.target, "c7-ops");
        assert_eq!(command.shocker_id, id);
        assert_eq!(command.mode, "s");
        assert_eq!(command.intensity, 37);
        assert_eq!(command.duration, 1_234);
        assert!(command.repeating);
        assert_eq!(command.user_id, 42);
        assert_eq!(command.command_type, "api");
        assert!(!command.warning);
        assert!(!command.hold);
        assert_eq!(command.origin, SENDER);
    }
}

#[test]
fn shock_device_redacts_api_keys_from_rejections_and_attempts_once() {
    let hub = hub_with(&[(9, false)]);
    assert_eq!(shock_device_commands(&hub, 1, 300, 42, SENDER).unwrap().len(), 1);
    let error = websocket_outcome(true, &format!("command rejected for {API_KEY}"), API_KEY)
        .unwrap_err();
    assert!(matches!(error, Error::WebSocketRejected { .. }));
    assert!(!format!("{error:?} {}", error.message()).contains(API_KEY));
}

#[test]
fn beep_device_redacts_api_keys_from_websocket_rejections() {
    let hub = hub_with(&[(9, false)]);
    assert_eq!(beep_device_commands(&hub, 1, 42, SENDER).unwrap().len(), 1);
    let error = websocket_outcome(true, &format!("command rejected for {API_KEY}"), API_KEY)
        .unwrap_err();
    assert!(matches!(error, Error::WebSocketRejected { .. }));
    assert!(!format!("{error:?} {}", error.message()).contains(API_KEY));
}

#[test]
fn legacy_command_path_sends_the_selected_command() {
    let command = Command::Shock { intensity: 1, duration: 15 };
    assert_eq!(normalize_share_code(SHARE_CODE), Ok(SHARE_CODE.to_owned()));
    assert_eq!(validate_command(command), Ok(()));
    assert_eq!(command_fields(command), (0, Some(1), 15));
    assert_eq!(parse_operation_response(OPERATION_SUCCEEDED, API_KEY), Ok(()));
}

#[test]
fn legacy_requests_emit_trimmed_credentials_sender_and_share_code() {
    let credentials = Credentials::new(" \tapi-user\n", "\tsuper-secret-key \n");
    assert_eq!(credentials.username(), USERNAME);
    assert_eq!(credentials.api_key(), API_KEY);
    assert_eq!(validate_credentials(&credentials, " \t desktop-companion \n"), Ok(()));
    assert_eq!(normalize_share_code("\t SHARE-CODE \n"), Ok(SHARE_CODE.to_owned()));
    assert_eq!(command_fields(Command::Shock { intensity: 25, duration: 3 }), (0, Some(25), 3));
    assert_eq!(parse_operation_response(OPERATION_SUCCEEDED, API_KEY), Ok(()));
}

#[test]
fn credentials_are_validated_before_authentication_networking() {
    let cases = [
        (Credentials::new("", API_KEY), SENDER, Error::EmptyUsername),
        (Credentials::new(USERNAME, " "), SENDER, Error::EmptyApiKey),
        (Credentials::new(USERNAME, API_KEY), "\t", Error::EmptySender),
    ];
    for (credentials, sender, expected) in cases {
        assert_eq!(validate_credentials(&credentials, sender), Err(expected));
    }
}

#[test]
fn a_rejected_command_is_sent_exactly_once() {
    assert_eq!(command_fields(Command::Beep { duration: 1 }), (2, None, 1));
    assert_eq!(parse_operation_response("Device in Use.", API_KEY), Err(Error::ShareCodeInUse));
}

#[test]
fn http_and_decode_failures_are_typed_and_redacted() {
    let error = check_status(403, "authentication").unwrap_err();
    assert_eq!(error, Error::AuthenticationRejected);
    assert!(!format!("{error:?} {}", error.message()).contains(API_KEY));
    let error = Error::Decode { operation: "authentication" };
    assert_eq!(error.message(), "invalid PiShock response for authentication");
    assert!(!format!("{error:?} {}", error.message()).contains(API_KEY));
}
