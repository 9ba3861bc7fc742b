//! PiShock's account and share-code protocols: credentials, validation of
//! commands, the answers of the legacy operation endpoint, and what an owned
//! hub's shockers can be sent. The HTTP and WebSocket exchanges run outside.
use vstd::prelude::*;
use crate::text::{
    append_text, blank, decimal, decimal_text, has_prefix, is_blank, owned, replace_text, replaced,
    same_text, starts_with_text, trimmed, trimmed_owned,
};

verus! {

/// The longest legacy command, in seconds.
pub const MAX_DURATION: u8 = 15;
/// The shortest WebSocket command, in milliseconds.
pub const MIN_WEBSOCKET_DURATION_MS: u64 = 300;
/// The longest WebSocket command, in milliseconds.
pub const MAX_WEBSOCKET_DURATION_MS: u64 = 65535;
/// The legacy endpoint's answer to a command it carried out.
pub const OPERATION_SUCCEEDED: &'static str = "Operation Succeeded.";
/// What replaces an API key in messages.
pub const REDACTED: &'static str = "[REDACTED]";

/// A PiShock username and API key, each without surrounding white space.
pub struct Credentials {
    username: String,
    api_key: String,
}

impl Clone for Credentials {
    fn clone(&self) -> (r: Self)
        ensures
            r.username_view() == self.username_view(),
            r.api_key_view() == self.api_key_view(),
    {
        Credentials { username: self.username.clone(), api_key: self.api_key.clone() }
    }
}

/// `<str as Debug>::fmt`: the text quoted and escaped as Rust writes it.
pub uninterp spec fn debug_quoted(text: Seq<char>) -> Seq<char>;

/// `<str as Debug>::fmt`, which quotes and escapes the text.
#[verifier::external_body]
fn debug_quote(text: &str) -> (r: String)
    ensures
        r@ == debug_quoted(text@),
{
    format!("{:?}", text)
}

impl Credentials {
    /// The username.
    pub closed spec fn username_view(&self) -> Seq<char> {
        self.username@
    }

    /// The API key.
    pub closed spec fn api_key_view(&self) -> Seq<char> {
        self.api_key@
    }

    /// Credentials from a username and an API key, each trimmed; they are
    /// validated when a client is built.
    pub fn new(username: &str, api_key: &str) -> (r: Self)
        ensures
            r.username_view() == trimmed(username@),
            r.api_key_view() == trimmed(api_key@),
    {
        Credentials { username: trimmed_owned(username), api_key: trimmed_owned(api_key) }
    }

    /// The username.
    pub fn username(&self) -> (r: &str)
        ensures
            r@ == self.username_view(),
    {
        self.username.as_str()
    }

    /// The API key.
    pub fn api_key(&self) -> (r: &str)
        ensures
            r@ == self.api_key_view(),
    {
        self.api_key.as_str()
    }

    /// The debugging description: the username, and the API key redacted.
    pub fn debug_text(&self) -> (r: String)
        ensures
            r@ == "Credentials { username: "@ + debug_quoted(self.username_view())
                + ", api_key: \"[REDACTED]\" }"@,
    {
        let mut s = owned("Credentials { username: ");
        let quoted = debug_quote(self.username.as_str());
        append_text(&mut s, quoted.as_str());
        append_text(&mut s, ", api_key: \"[REDACTED]\" }");
        s
    }
}

/// An owned PiShock hub and the shockers paired to it.
#[derive(Clone, Debug, PartialEq, Eq)]
pub struct Device {
    pub client_id: u64,
    pub name: String,
    pub user_id: u64,
    pub username: String,
    pub shockers: Vec<Shocker>,
}

/// A shocker paired to an owned hub.
#[derive(Clone, Debug, PartialEq, Eq)]
pub struct Shocker {
    pub name: String,
    pub shocker_id: u64,
    pub is_paused: bool,
}

/// Information and share limits of a share-code target.
#[derive(Clone, Debug, PartialEq, Eq)]
pub struct ShockerInfo {
    pub client_id: u64,
    pub id: u64,
    pub name: String,
    pub paused: bool,
    pub max_intensity: u8,
    pub max_duration: u8,
    pub online: Option<bool>,
}

/// An operation sent to a shocker through a legacy share code.
#[derive(Clone, Copy, Debug, PartialEq, Eq, Structural)]
pub enum Command {
    Shock { intensity: u8, duration: u8 },
    Vibrate { intensity: u8, duration: u8 },
    Beep { duration: u8 },
}

/// An error of validation or of a PiShock request.
#[derive(Debug, PartialEq, Eq)]
pub enum Error {
    EmptyUsername,
    EmptyApiKey,
    EmptySender,
    EmptyShareCode,
    InvalidIntensity,
    InvalidDuration,
    InvalidWebSocketDuration,
    AuthenticationRejected,
    ShareCodeNotFound,
    NotAuthorized,
    ShockerPaused,
    DeviceOffline,
    ShareCodeInUse,
    InvalidOperation,
    OperationNotAllowed,
    NoAvailableShockers,
    IntensityRejected { message: String },
    DurationRejected { message: String },
    OperationRejected { message: String },
    WebSocketRejected { message: String },
    HttpStatus { operation: &'static str, status: u16 },
    Transport,
    Decode { operation: &'static str },
}

impl Error {
    /// The description of the error.
    pub open spec fn spec_message(&self) -> Seq<char> {
        match self {
            Error::EmptyUsername => "username must not be empty"@,
            Error::EmptyApiKey => "API key must not be empty"@,
            Error::EmptySender => "sender name must not be empty"@,
            Error::EmptyShareCode => "share code must not be empty"@,
            Error::InvalidIntensity => "intensity must be between 1 and 100"@,
            Error::InvalidDuration => "duration must be between 1 and 15 seconds"@,
            Error::InvalidWebSocketDuration => "WebSocket duration must be between 300 and 65535 milliseconds"@,
            Error::AuthenticationRejected => "PiShock authentication was rejected"@,
            Error::ShareCodeNotFound => "the share code does not exist"@,
            Error::NotAuthorized => "PiShock did not authorize the request"@,
            Error::ShockerPaused => "the target shocker is paused or unavailable"@,
            Error::DeviceOffline => "the target PiShock hub is not connected"@,
            Error::ShareCodeInUse => "the target PiShock device is already in use"@,
            Error::InvalidOperation => "PiShock rejected the operation code"@,
            Error::OperationNotAllowed => "the share code does not allow this operation"@,
            Error::NoAvailableShockers => "the selected PiShock hub has no available shockers"@,
            Error::IntensityRejected { message } => "PiShock rejected the intensity: "@ + message@,
            Error::DurationRejected { message } => "PiShock rejected the duration: "@ + message@,
            Error::OperationRejected { message } => "PiShock rejected the operation: "@ + message@,
            Error::WebSocketRejected { message } => "PiShock rejected the device command: "@ + message@,
            Error::HttpStatus { operation, status } => operation@ + " returned HTTP status "@ + decimal(*status as nat),
            Error::Transport => "PiShock transport error"@,
            Error::Decode { operation } => "invalid PiShock response for "@ + operation@,
        }
    }

    /// The description of the error.
    pub fn message(&self) -> (r: String)
        ensures
            r@ == self.spec_message(),
    {
        match self {
            Error::EmptyUsername => owned("username must not be empty"),
            Error::EmptyApiKey => owned("API key must not be empty"),
            Error::EmptySender => owned("sender name must not be empty"),
            Error::EmptyShareCode => owned("share code must not be empty"),
            Error::InvalidIntensity => owned("intensity must be between 1 and 100"),
            Error::InvalidDuration => owned("duration must be between 1 and 15 seconds"),
            Error::InvalidWebSocketDuration => owned("WebSocket duration must be between 300 and 65535 milliseconds"),
            Error::AuthenticationRejected => owned("PiShock authentication was rejected"),
            Error::ShareCodeNotFound => owned("the share code does not exist"),
            Error::NotAuthorized => owned("PiShock did not authorize the request"),
            Error::ShockerPaused => owned("the target shocker is paused or unavailable"),
            Error::DeviceOffline => owned("the target PiShock hub is not connected"),
            Error::ShareCodeInUse => owned("the target PiShock device is already in use"),
            Error::InvalidOperation => owned("PiShock rejected the operation code"),
            Error::OperationNotAllowed => owned("the share code does not allow this operation"),
            Error::NoAvailableShockers => owned("the selected PiShock hub has no available shockers"),
            Error::IntensityRejected { message } => {
                let mut s = owned("PiShock rejected the intensity: ");
                append_text(&mut s, message.as_str());
                s
            },
            Error::DurationRejected { message } => {
                let mut s = owned("PiShock rejected the duration: ");
                append_text(&mut s, message.as_str());
                s
            },
            Error::OperationRejected { message } => {
                let mut s = owned("PiShock rejected the operation: ");
                append_text(&mut s, message.as_str());
                s
            },
            Error::WebSocketRejected { message } => {
                let mut s = owned("PiShock rejected the device command: ");
                append_text(&mut s, message.as_str());
                s
            },
            Error::HttpStatus { operation, status } => {
                let mut s = owned(operation);
                append_text(&mut s, " returned HTTP status ");
                let code = decimal_text(*status as u64);
                append_text(&mut s, code.as_str());
                s
            },
            Error::Transport => owned("PiShock transport error"),
            Error::Decode { operation } => {
                let mut s = owned("invalid PiShock response for ");
                append_text(&mut s, operation);
                s
            },
        }
    }
}

/// Checks that the username, the API key and the sender name are given, in
/// that order.
pub fn validate_credentials(credentials: &Credentials, sender: &str) -> (r: Result<(), Error>)
    ensures
        r == (if is_blank(credentials.username_view()) {
            Err(Error::EmptyUsername)
        } else if is_blank(credentials.api_key_view()) {
            Err(Error::EmptyApiKey)
        } else if is_blank(sender@) {
            Err(Error::EmptySender)
        } else {
            Ok(())
        }),
{
    if blank(credentials.username()) {
        return Err(Error::EmptyUsername);
    }
    if blank(credentials.api_key()) {
        return Err(Error::EmptyApiKey);
    }
    if blank(sender) {
        return Err(Error::EmptySender);
    }
    Ok(())
}

/// Checks a legacy command duration: 1 through 15 seconds.
pub fn validate_duration(duration: u8) -> (r: Result<(), Error>)
    ensures
        r == (if 1 <= duration <= MAX_DURATION {
            Ok(())
        } else {
            Err(Error::InvalidDuration)
        }),
{
    if 1 <= duration && duration <= MAX_DURATION {
        Ok(())
    } else {
        Err(Error::InvalidDuration)
    }
}

/// The intensity a command carries, if any.
pub open spec fn command_intensity(command: Command) -> Option<u8> {
    match command {
        Command::Shock { intensity, .. } => Some(intensity),
        Command::Vibrate { intensity, .. } => Some(intensity),
        Command::Beep { .. } => None,
    }
}

/// The duration a command carries.
pub open spec fn command_duration(command: Command) -> u8 {
    match command {
        Command::Shock { duration, .. } => duration,
        Command::Vibrate { duration, .. } => duration,
        Command::Beep { duration } => duration,
    }
}

/// Checks a legacy command: an intensity of 1 through 100 where it has one,
/// then a duration of 1 through 15 seconds.
pub fn validate_command(command: Command) -> (r: Result<(), Error>)
    ensures
        r == (match command_intensity(command) {
            Some(intensity) if !(1 <= intensity <= 100) => Err(Error::InvalidIntensity),
            _ => if 1 <= command_duration(command) <= MAX_DURATION {
                Ok(())
            } else {
                Err(Error::InvalidDuration)
            },
        }),
{
    let (intensity, duration) = match command {
        Command::Shock { intensity, duration } => (Some(intensity), duration),
        Command::Vibrate { intensity, duration } => (Some(intensity), duration),
        Command::Beep { duration } => (None, duration),
    };
    match intensity {
        Some(value) => if !(1 <= value && value <= 100) {
            return Err(Error::InvalidIntensity);
        },
        None => {},
    }
    validate_duration(duration)
}

/// The legacy operation code, intensity and duration of a command: 0 to
/// shock, 1 to vibrate, 2 to beep, which carries no intensity.
pub fn command_fields(command: Command) -> (r: (u8, Option<u8>, u8))
    ensures
        r == (match command {
            Command::Shock { intensity, duration } => (0u8, Some(intensity), duration),
            Command::Vibrate { intensity, duration } => (1u8, Some(intensity), duration),
            Command::Beep { duration } => (2u8, None, duration),
        }),
{
    match command {
        Command::Shock { intensity, duration } => (0, Some(intensity), duration),
        Command::Vibrate { intensity, duration } => (1, Some(intensity), duration),
        Command::Beep { duration } => (2, None, duration),
    }
}

/// A share code without surrounding white space; a blank one is refused.
pub fn normalize_share_code(share_code: &str) -> (r: Result<String, Error>)
    ensures
        is_blank(share_code@) ==> r == Err::<String, Error>(Error::EmptyShareCode),
        !is_blank(share_code@) ==> (r matches Ok(code) && code@ == trimmed(share_code@)),
{
    if blank(share_code) {
        Err(Error::EmptyShareCode)
    } else {
        Ok(trimmed_owned(share_code))
    }
}

/// `message` with every occurrence of the API key replaced by `[REDACTED]`.
pub fn redact_api_key(message: &str, api_key: &str) -> (r: String)
    ensures
        r@ == replaced(message@, api_key@, REDACTED@),
{
    replace_text(message, api_key, REDACTED)
}

/// The error a non-success HTTP status gives: a refused authentication is
/// reported as such, any other failure with its operation and status.
pub fn check_status(status: u16, operation: &'static str) -> (r: Result<(), Error>)
    ensures
        r == (if 200 <= status <= 299 {
            Ok(())
        } else if operation@ == "authentication"@ && (status == 401 || status == 403) {
            Err(Error::AuthenticationRejected)
        } else {
            Err(Error::HttpStatus { operation, status })
        }),
{
    if 200 <= status && status <= 299 {
        Ok(())
    } else if same_text(operation, "authentication") && (status == 401 || status == 403) {
        Err(Error::AuthenticationRejected)
    } else {
        Err(Error::HttpStatus { operation, status })
    }
}

/// The status check for share-code information: an unknown code and a
/// refused authorization have errors of their own.
pub fn check_shocker_info_status(status: u16) -> (r: Result<(), Error>)
    ensures
        r == (if status == 404 {
            Err(Error::ShareCodeNotFound)
        } else if status == 401 || status == 403 {
            Err(Error::NotAuthorized)
        } else if 200 <= status <= 299 {
            Ok(())
        } else {
            Err(Error::HttpStatus { operation: "shocker information", status })
        }),
{
    if status == 404 {
        Err(Error::ShareCodeNotFound)
    } else if status == 401 || status == 403 {
        Err(Error::NotAuthorized)
    } else {
        check_status(status, "shocker information")
    }
}

/// What the legacy operation endpoint's trimmed answer `body` means. The
/// documented answers map to their errors; a bounded intensity or duration
/// and any other answer are kept as messages, with the API key redacted.
pub open spec fn operation_outcome(body: Seq<char>, api_key: Seq<char>, r: Result<(), Error>) -> bool {
    let redacted = replaced(body, api_key, REDACTED@);
    if body == OPERATION_SUCCEEDED@ {
        r is Ok
    } else if body == "This code doesn’t exist."@ || body == "This code doesn't exist."@ {
        r == Err::<(), Error>(Error::ShareCodeNotFound)
    } else if body == "Not Authorized."@ {
        r == Err::<(), Error>(Error::NotAuthorized)
    } else if body == "Shocker is Paused, unable to send command."@ || body
        == "Shocker is Paused or does not exist. Unpause to send command."@ {
        r == Err::<(), Error>(Error::ShockerPaused)
    } else if body == "Device currently not connected."@ {
        r == Err::<(), Error>(Error::DeviceOffline)
    } else if body == "This share code has already been used by somebody else."@ || body
        == "Device in Use."@ {
        r == Err::<(), Error>(Error::ShareCodeInUse)
    } else if body == "Unknown Op, use 0 for shock, 1 for vibrate and 2 for beep."@ {
        r == Err::<(), Error>(Error::InvalidOperation)
    } else if body == "Shock not allowed."@ || body == "Vibrate not allowed."@ || body
        == "Beep not allowed."@ {
        r == Err::<(), Error>(Error::OperationNotAllowed)
    } else if has_prefix(body, "Intensity must be between 0 and "@) {
        r matches Err(Error::IntensityRejected { message }) && message@ == redacted
    } else if has_prefix(body, "Duration must be between 1 and "@) {
        r matches Err(Error::DurationRejected { message }) && message@ == redacted
    } else {
        r matches Err(Error::OperationRejected { message }) && message@ == redacted
    }
}

/// Interprets the legacy operation endpoint's trimmed answer.
pub fn parse_operation_response(body: &str, api_key: &str) -> (r: Result<(), Error>)
    ensures
        operation_outcome(body@, api_key@, r),
{
    if same_text(body, OPERATION_SUCCEEDED) {
        Ok(())
    } else if same_text(body, "This code doesn’t exist.") || same_text(body, "This code doesn't exist.") {
        Err(Error::ShareCodeNotFound)
    } else if same_text(body, "Not Authorized.") {
        Err(Error::NotAuthorized)
    } else if same_text(body, "Shocker is Paused, unable to send command.") || same_text(
        body,
        "Shocker is Paused or does not exist. Unpause to send command.",
    ) {
        Err(Error::ShockerPaused)
    } else if same_text(body, "Device currently not connected.") {
        Err(Error::DeviceOffline)
    } else if same_text(body, "This share code has already been used by somebody else.")
        || same_text(body, "Device in Use.") {
        Err(Error::ShareCodeInUse)
    } else if same_text(body, "Unknown Op, use 0 for shock, 1 for vibrate and 2 for beep.") {
        Err(Error::InvalidOperation)
    } else if same_text(body, "Shock not allowed.") || same_text(body, "Vibrate not allowed.")
        || same_text(body, "Beep not allowed.") {
        Err(Error::OperationNotAllowed)
    } else if starts_with_text(body, "Intensity must be between 0 and ") {
        Err(Error::IntensityRejected { message: redact_api_key(body, api_key) })
    } else if starts_with_text(body, "Duration must be between 1 and ") {
        Err(Error::DurationRejected { message: redact_api_key(body, api_key) })
    } else {
        Err(Error::OperationRejected { message: redact_api_key(body, api_key) })
    }
}

/// The unpaused shockers of `shockers`, in order.
pub open spec fn unpaused(shockers: Seq<Shocker>) -> Seq<Shocker> {
    shockers.filter(|shocker: Shocker| !shocker.is_paused)
}

/// The hub's shockers that are not paused, in order; a hub with none is
/// refused.
pub fn available_shockers(device: &Device) -> (r: Result<Vec<Shocker>, Error>)
    ensures
        unpaused(device.shockers@).len() == 0 ==> r == Err::<Vec<Shocker>, Error>(Error::NoAvailableShockers),
        unpaused(device.shockers@).len() > 0 ==> (r matches Ok(shockers) && shockers@ == unpaused(device.shockers@)),
{
    let mut result: Vec<Shocker> = Vec::new();
    let mut i: usize = 0;
    while i < device.shockers.len()
        invariant
            0 <= i <= device.shockers@.len(),
            result@ == unpaused(device.shockers@.take(i as int)),
        decreases device.shockers@.len() - i,
    {
        let shocker = &device.shockers[i];
        proof {
            assert(device.shockers@.take(i + 1) =~= device.shockers@.take(i as int).push(*shocker));
            device.shockers@.take(i as int).lemma_filter_push(*shocker, |s: Shocker| !s.is_paused);
        }
        if !shocker.is_paused {
            result.push(Shocker { name: shocker.name.clone(), shocker_id: shocker.shocker_id, is_paused: shocker.is_paused });
        }
        i = i + 1;
    }
    assert(device.shockers@.take(i as int) =~= device.shockers@);
    if result.len() == 0 {
        Err(Error::NoAvailableShockers)
    } else {
        Ok(result)
    }
}

/// Checks an owned-hub command: an intensity of 1 through 100 and a
/// duration of 300 through 65535 milliseconds.
pub fn validate_websocket_command(intensity: u8, duration_ms: u64) -> (r: Result<(), Error>)
    ensures
        r == (if !(1 <= intensity <= 100) {
            Err(Error::InvalidIntensity)
        } else if !(MIN_WEBSOCKET_DURATION_MS <= duration_ms <= MAX_WEBSOCKET_DURATION_MS) {
            Err(Error::InvalidWebSocketDuration)
        } else {
            Ok(())
        }),
{
    if !(1 <= intensity && intensity <= 100) {
        return Err(Error::InvalidIntensity);
    }
    if !(MIN_WEBSOCKET_DURATION_MS <= duration_ms && duration_ms <= MAX_WEBSOCKET_DURATION_MS) {
        return Err(Error::InvalidWebSocketDuration);
    }
    Ok(())
}

/// The answer of the WebSocket broker: a rejection keeps its message with the
/// API key redacted.
pub fn websocket_outcome(is_error: bool, message: &str, api_key: &str) -> (r: Result<(), Error>)
    ensures
        !is_error ==> r is Ok,
        is_error ==> (r matches Err(Error::WebSocketRejected { message: text }) && text@ == replaced(
            message@,
            api_key@,
            REDACTED@,
        )),
{
    if is_error {
        Err(Error::WebSocketRejected { message: redact_api_key(message, api_key) })
    } else {
        Ok(())
    }
}

/// The first of `devices` with the hub identifier `client_id`.
pub open spec fn first_device(devices: Seq<Device>, client_id: u64) -> Option<Device>
    decreases devices.len(),
{
    if devices.len() == 0 {
        None
    } else if devices[0].client_id == client_id {
        Some(devices[0])
    } else {
        first_device(devices.drop_first(), client_id)
    }
}

/// Picks the hub `client_id` out of a device listing.
pub fn find_device(devices: Vec<Device>, client_id: u64) -> (r: Option<Device>)
    ensures
        r == first_device(devices@, client_id),
{
    let ghost all = devices@;
    let mut list = devices;
    let mut i: usize = 0;
    assert(all.skip(0) =~= all);
    while i < list.len()
        invariant
            0 <= i <= list@.len(),
            list@ == all,
            all == devices@,
            first_device(all, client_id) == first_device(all.skip(i as int), client_id),
        decreases list@.len() - i,
    {
        assert(all.skip(i as int)[0] == all[i as int]);
        assert(all.skip(i as int).len() > 0);
        if list[i].client_id == client_id {
            let found = list.swap_remove(i);
            assert(found == all[i as int]);
            return Some(found);
        }
        assert(all.skip(i as int).drop_first() =~= all.skip(i + 1));
        i = i + 1;
    }
    None
}

/// One command published to an owned hub's broker topic.
#[derive(Debug, PartialEq, Eq)]
pub struct PublishCommand {
    /// The hub's operations topic, `c<client id>-ops`.
    pub target: String,
    pub shocker_id: u64,
    /// `s` to shock, `b` to beep.
    pub mode: &'static str,
    pub intensity: u8,
    /// In milliseconds.
    pub duration: u64,
    pub repeating: bool,
    pub user_id: u64,
    pub command_type: &'static str,
    pub warning: bool,
    pub hold: bool,
    /// The sender shown in the hub's log.
    pub origin: String,
}

/// Whether `command` is the publication for `shocker` of the hub
/// `client_id`, with the given operation, from `user_id` and `sender`.
pub open spec fn publishes(
    command: PublishCommand,
    client_id: u64,
    shocker: Shocker,
    mode: Seq<char>,
    intensity: u8,
    duration: u64,
    user_id: u64,
    sender: Seq<char>,
) -> bool {
    &&& command.target@ == "c"@ + decimal(client_id as nat) + "-ops"@
    &&& command.shocker_id == shocker.shocker_id
    &&& command.mode@ == mode
    &&& command.intensity == intensity
    &&& command.duration == duration
    &&& command.repeating
    &&& command.user_id == user_id
    &&& command.command_type@ == "api"@
    &&& !command.warning
    &&& !command.hold
    &&& command.origin@ == sender
}

/// The publications of one operation for every unpaused shocker of `device`,
/// in order; a hub with none is refused.
pub fn publish_commands(
    device: &Device,
    mode: &'static str,
    intensity: u8,
    duration: u64,
    user_id: u64,
    sender: &str,
) -> (r: Result<Vec<PublishCommand>, Error>)
    ensures
        unpaused(device.shockers@).len() == 0 ==> r == Err::<Vec<PublishCommand>, Error>(Error::NoAvailableShockers),
        unpaused(device.shockers@).len() > 0 ==> (r matches Ok(commands) && commands@.len() == unpaused(
            device.shockers@,
        ).len() && forall|i: int| #![trigger commands@[i]] 0 <= i < commands@.len() ==> publishes(
            commands@[i],
            device.client_id,
            unpaused(device.shockers@)[i],
            mode@,
            intensity,
            duration,
            user_id,
            sender@,
        )),
{
    let shockers = available_shockers(device)?;
    let mut topic = owned("c");
    let client = decimal_text(device.client_id);
    append_text(&mut topic, client.as_str());
    append_text(&mut topic, "-ops");
    let mut commands: Vec<PublishCommand> = Vec::new();
    for i in 0..shockers.len()
        invariant
            shockers@ == unpaused(device.shockers@),
            topic@ == "c"@ + decimal(device.client_id as nat) + "-ops"@,
            commands@.len() == i,
            forall|k: int| #![trigger commands@[k]] 0 <= k < i ==> publishes(
                commands@[k],
                device.client_id,
                shockers@[k],
                mode@,
                intensity,
                duration,
                user_id,
                sender@,
            ),
    {
        commands.push(PublishCommand {
            target: topic.clone(),
            shocker_id: shockers[i].shocker_id,
            mode,
            intensity,
            duration,
            repeating: true,
            user_id,
            command_type: "api",
            warning: false,
            hold: false,
            origin: owned(sender),
        });
    }
    Ok(commands)
}

/// The publications that beep every unpaused shocker of `device` for
/// `duration` seconds, after the duration is checked.
pub fn beep_device_commands(device: &Device, duration: u8, user_id: u64, sender: &str) -> (r: Result<
    Vec<PublishCommand>,
    Error,
>)
    ensures
        !(1 <= duration <= MAX_DURATION) ==> r == Err::<Vec<PublishCommand>, Error>(Error::InvalidDuration),
        1 <= duration <= MAX_DURATION && unpaused(device.shockers@).len() == 0 ==> r == Err::<
            Vec<PublishCommand>,
            Error,
        >(Error::NoAvailableShockers),
        1 <= duration <= MAX_DURATION && unpaused(device.shockers@).len() > 0 ==> (r matches Ok(commands)
            && commands@.len() == unpaused(device.shockers@).len() && forall|i: int| #![trigger commands@[i]]
            0 <= i < commands@.len() ==> publishes(
            commands@[i],
            device.client_id,
            unpaused(device.shockers@)[i],
            "b"@,
            0,
            (duration * 1000) as u64,
            user_id,
            sender@,
        )),
{
    validate_duration(duration)?;
    publish_commands(device, "b", 0, duration as u64 * 1000, user_id, sender)
}

/// The publications that shock every unpaused shocker of `device`, after the
/// intensity and the duration are checked.
pub fn shock_device_commands(
    device: &Device,
    intensity: u8,
    duration_ms: u64,
    user_id: u64,
    sender: &str,
) -> (r: Result<Vec<PublishCommand>, Error>)
    ensures
        !(1 <= intensity <= 100) ==> r == Err::<Vec<PublishCommand>, Error>(Error::InvalidIntensity),
        1 <= intensity <= 100 && !(MIN_WEBSOCKET_DURATION_MS <= duration_ms <= MAX_WEBSOCKET_DURATION_MS)
            ==> r == Err::<Vec<PublishCommand>, Error>(Error::InvalidWebSocketDuration),
        1 <= intensity <= 100 && MIN_WEBSOCKET_DURATION_MS <= duration_ms <= MAX_WEBSOCKET_DURATION_MS
            && unpaused(device.shockers@).len() == 0 ==> r == Err::<Vec<PublishCommand>, Error>(
            Error::NoAvailableShockers,
        ),
        1 <= intensity <= 100 && MIN_WEBSOCKET_DURATION_MS <= duration_ms <= MAX_WEBSOCKET_DURATION_MS
            && unpaused(device.shockers@).len() > 0 ==> (r matches Ok(commands) && commands@.len()
            == unpaused(device.shockers@).len() && forall|i: int| #![trigger commands@[i]] 0 <= i
            < commands@.len() ==> publishes(
            commands@[i],
            device.client_id,
            unpaused(device.shockers@)[i],
            "s"@,
            intensity,
            duration_ms,
            user_id,
            sender@,
        )),
{
    validate_websocket_command(intensity, duration_ms)?;
    publish_commands(device, "s", intensity, duration_ms, user_id, sender)
}

} // verus!
