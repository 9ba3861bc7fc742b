//! OpenShock's account protocol: the token, validation of commands, which
//! shockers of a group can be commanded, the checks on a token before it is
//! used, and the ControlV2 commands and answers. The HTTP and SignalR
//! exchanges run outside.
use vstd::prelude::*;
use crate::json::{either, JsonValue};
use crate::text::{append_text, blank, chars_of, push_char, decimal, decimal_text, is_blank, owned, replace_text, replaced, same_text, trimmed, trimmed_owned};

verus! {

/// The shortest command, in milliseconds.
pub const MIN_DURATION_MS: u64 = 300;
/// The longest command, in milliseconds.
pub const MAX_DURATION_MS: u64 = 65535;
/// What replaces a token in messages.
pub const REDACTED: &'static str = "[REDACTED]";
/// The permission a token needs to command shockers.
pub const SHOCKERS_USE: &'static str = "shockers.use";

/// An OpenShock API token, without surrounding white space.
pub struct Credentials {
    token: String,
}

impl Clone for Credentials {
    fn clone(&self) -> (r: Self)
        ensures
            r.token_view() == self.token_view(),
    {
        Credentials { token: self.token.clone() }
    }
}

impl Credentials {
    /// The token.
    pub closed spec fn token_view(&self) -> Seq<char> {
        self.token@
    }

    /// Credentials from a token, trimmed.
    pub fn new(token: &str) -> (r: Self)
        ensures
            r.token_view() == trimmed(token@),
    {
        Credentials { token: trimmed_owned(token) }
    }

    /// The token.
    pub fn token(&self) -> (r: &str)
        ensures
            r@ == self.token_view(),
    {
        self.token.as_str()
    }

    /// The debugging description, which never includes the token.
    pub fn debug_text(&self) -> (r: String)
        ensures
            r@ == "Credentials { token: \"[REDACTED]\" }"@,
    {
        owned("Credentials { token: \"[REDACTED]\" }")
    }
}

/// A shocker grouped under an owned OpenShock device.
#[derive(Clone, Debug, PartialEq, Eq)]
pub struct Shocker {
    pub id: String,
    pub name: String,
    pub paused: bool,
}

/// An owned OpenShock device; a group is the selectable target.
#[derive(Clone, Debug, PartialEq, Eq)]
pub struct DeviceGroup {
    pub id: String,
    pub name: String,
    pub shockers: Vec<Shocker>,
}

/// What the token endpoint says of a token.
#[derive(Clone, Debug, PartialEq, Eq)]
pub struct TokenInfo {
    pub paused: bool,
    pub permissions: Vec<String>,
}

/// An error of validation or of an OpenShock request.
#[derive(Debug, PartialEq, Eq)]
pub enum Error {
    EmptyToken,
    EmptySender,
    AuthenticationRejected,
    TokenPaused,
    PermissionDenied,
    HttpStatus { operation: &'static str, status: u16 },
    Transport,
    Decode { operation: &'static str },
    Handshake,
    CommandRejected { message: String },
    NoAvailableShockers,
    InvalidIntensity,
    InvalidDuration,
    Disconnected,
}

impl Clone for Error {
    fn clone(&self) -> (r: Self)
        ensures
            r == *self,
    {
        match self {
            Error::EmptyToken => Error::EmptyToken,
            Error::EmptySender => Error::EmptySender,
            Error::AuthenticationRejected => Error::AuthenticationRejected,
            Error::TokenPaused => Error::TokenPaused,
            Error::PermissionDenied => Error::PermissionDenied,
            Error::HttpStatus { operation, status } => Error::HttpStatus { operation, status: *status },
            Error::Transport => Error::Transport,
            Error::Decode { operation } => Error::Decode { operation },
            Error::Handshake => Error::Handshake,
            Error::CommandRejected { message } => Error::CommandRejected { message: message.clone() },
            Error::NoAvailableShockers => Error::NoAvailableShockers,
            Error::InvalidIntensity => Error::InvalidIntensity,
            Error::InvalidDuration => Error::InvalidDuration,
            Error::Disconnected => Error::Disconnected,
        }
    }
}

impl Error {
    /// The description of the error.
    pub open spec fn spec_message(&self) -> Seq<char> {
        match self {
            Error::EmptyToken => "OpenShock token must not be empty"@,
            Error::EmptySender => "sender name must not be empty"@,
            Error::AuthenticationRejected => "OpenShock token was rejected"@,
            Error::TokenPaused => "OpenShock token is paused"@,
            Error::PermissionDenied => "OpenShock token lacks the shockers.use permission"@,
            Error::HttpStatus { operation, status } => operation@ + " returned HTTP status "@ + decimal(*status as nat),
            Error::Transport => "OpenShock transport error"@,
            Error::Decode { operation } => "invalid OpenShock response for "@ + operation@,
            Error::Handshake => "OpenShock SignalR handshake failed"@,
            Error::CommandRejected { message } => "OpenShock command was rejected: "@ + message@,
            Error::NoAvailableShockers => "the selected OpenShock group has no available shockers"@,
            Error::InvalidIntensity => "OpenShock command intensity must be between 1 and 100"@,
            Error::InvalidDuration => "OpenShock command duration must be between 300 and 65535 milliseconds"@,
            Error::Disconnected => "OpenShock connection is closed"@,
        }
    }

    /// The description of the error.
    pub fn message(&self) -> (r: String)
        ensures
            r@ == self.spec_message(),
    {
        match self {
            Error::EmptyToken => owned("OpenShock token must not be empty"),
            Error::EmptySender => owned("sender name must not be empty"),
            Error::AuthenticationRejected => owned("OpenShock token was rejected"),
            Error::TokenPaused => owned("OpenShock token is paused"),
            Error::PermissionDenied => owned("OpenShock token lacks the shockers.use permission"),
            Error::HttpStatus { operation, status } => {
                let mut s = owned(operation);
                append_text(&mut s, " returned HTTP status ");
                let code = decimal_text(*status as u64);
                append_text(&mut s, code.as_str());
                s
            },
            Error::Transport => owned("OpenShock transport error"),
            Error::Decode { operation } => {
                let mut s = owned("invalid OpenShock response for ");
                append_text(&mut s, operation);
                s
            },
            Error::Handshake => owned("OpenShock SignalR handshake failed"),
            Error::CommandRejected { message } => {
                let mut s = owned("OpenShock command was rejected: ");
                append_text(&mut s, message.as_str());
                s
            },
            Error::NoAvailableShockers => owned("the selected OpenShock group has no available shockers"),
            Error::InvalidIntensity => owned("OpenShock command intensity must be between 1 and 100"),
            Error::InvalidDuration => owned("OpenShock command duration must be between 300 and 65535 milliseconds"),
            Error::Disconnected => owned("OpenShock connection is closed"),
        }
    }
}

/// Checks that the token and the sender name are given, in that order.
pub fn validate_credentials(credentials: &Credentials, sender: &str) -> (r: Result<(), Error>)
    ensures
        r == (if is_blank(credentials.token_view()) {
            Err(Error::EmptyToken)
        } else if is_blank(sender@) {
            Err(Error::EmptySender)
        } else {
            Ok(())
        }),
{
    if blank(credentials.token()) {
        return Err(Error::EmptyToken);
    }
    if blank(sender) {
        return Err(Error::EmptySender);
    }
    Ok(())
}

/// Checks a command intensity: 1 through 100.
pub fn validate_intensity(intensity: u8) -> (r: Result<(), Error>)
    ensures
        r == (if 1 <= intensity <= 100 {
            Ok(())
        } else {
            Err(Error::InvalidIntensity)
        }),
{
    if 1 <= intensity && intensity <= 100 {
        Ok(())
    } else {
        Err(Error::InvalidIntensity)
    }
}

/// Checks a command duration: 300 through 65535 milliseconds.
pub fn validate_duration(duration_ms: u64) -> (r: Result<(), Error>)
    ensures
        r == (if MIN_DURATION_MS <= duration_ms <= MAX_DURATION_MS {
            Ok(())
        } else {
            Err(Error::InvalidDuration)
        }),
{
    if MIN_DURATION_MS <= duration_ms && duration_ms <= MAX_DURATION_MS {
        Ok(())
    } else {
        Err(Error::InvalidDuration)
    }
}

/// The shockers of `shockers` that are not paused, in order.
pub open spec fn unpaused(shockers: Seq<Shocker>) -> Seq<Shocker> {
    shockers.filter(|shocker: Shocker| !shocker.paused)
}

/// The group's shockers that are not paused, in order; a group with none is
/// refused.
pub fn available_shockers(group: &DeviceGroup) -> (r: Result<Vec<Shocker>, Error>)
    ensures
        unpaused(group.shockers@).len() == 0 ==> r == Err::<Vec<Shocker>, Error>(Error::NoAvailableShockers),
        unpaused(group.shockers@).len() > 0 ==> (r matches Ok(shockers) && shockers@ == unpaused(group.shockers@)),
{
    let mut result: Vec<Shocker> = Vec::new();
    let mut i: usize = 0;
    while i < group.shockers.len()
        invariant
            0 <= i <= group.shockers@.len(),
            result@ == unpaused(group.shockers@.take(i as int)),
        decreases group.shockers@.len() - i,
    {
        let shocker = &group.shockers[i];
        proof {
            assert(group.shockers@.take(i + 1) =~= group.shockers@.take(i as int).push(*shocker));
            group.shockers@.take(i as int).lemma_filter_push(*shocker, |s: Shocker| !s.paused);
        }
        if !shocker.paused {
            result.push(Shocker { id: shocker.id.clone(), name: shocker.name.clone(), paused: shocker.paused });
        }
        i = i + 1;
    }
    assert(group.shockers@.take(i as int) =~= group.shockers@);
    if result.len() == 0 {
        Err(Error::NoAvailableShockers)
    } else {
        Ok(result)
    }
}

/// `message` with every occurrence of the token replaced by `[REDACTED]`.
pub fn redact(message: &str, token: &str) -> (r: String)
    ensures
        r@ == replaced(message@, token@, REDACTED@),
{
    replace_text(message, token, REDACTED)
}

/// The error a non-success HTTP status gives: a refused token at
/// authentication is reported as such, any other failure with its operation
/// and status.
pub fn check_status(status: u16, operation: &'static str) -> (r: Result<(), Error>)
    ensures
        r == (if 200 <= status <= 299 {
            Ok(())
        } else if (status == 401 || status == 403) && operation@ == "token authentication"@ {
            Err(Error::AuthenticationRejected)
        } else {
            Err(Error::HttpStatus { operation, status })
        }),
{
    if 200 <= status && status <= 299 {
        Ok(())
    } else if (status == 401 || status == 403) && same_text(operation, "token authentication") {
        Err(Error::AuthenticationRejected)
    } else {
        Err(Error::HttpStatus { operation, status })
    }
}

/// Whether `permissions` grants commanding shockers.
pub open spec fn grants_shocker_use(permissions: Seq<String>) -> bool {
    exists|i: int| 0 <= i < permissions.len() && #[trigger] permissions[i]@ == SHOCKERS_USE@
}

/// Accepts a token that is not paused and may command shockers.
pub fn check_token(info: TokenInfo) -> (r: Result<TokenInfo, Error>)
    ensures
        info.paused ==> r == Err::<TokenInfo, Error>(Error::TokenPaused),
        !info.paused && !grants_shocker_use(info.permissions@) ==> r == Err::<TokenInfo, Error>(
            Error::PermissionDenied,
        ),
        !info.paused && grants_shocker_use(info.permissions@) ==> r == Ok::<TokenInfo, Error>(info),
{
    if info.paused {
        return Err(Error::TokenPaused);
    }
    let mut i: usize = 0;
    while i < info.permissions.len()
        invariant
            0 <= i <= info.permissions@.len(),
            !info.paused,
            forall|j: int| 0 <= j < i ==> #[trigger] info.permissions@[j]@ != SHOCKERS_USE@,
        decreases info.permissions@.len() - i,
    {
        if same_text(info.permissions[i].as_str(), SHOCKERS_USE) {
            assert(info.permissions@[i as int]@ == SHOCKERS_USE@);
            return Ok(info);
        }
        i = i + 1;
    }
    Err(Error::PermissionDenied)
}

/// Whether an invocation that ended with `result` leaves the socket unusable:
/// a transport, closed-connection or handshake failure is ambiguous, so the
/// next command reconnects and this one is never replayed.
pub fn drops_socket(result: &Result<(), Error>) -> (r: bool)
    ensures
        r == (result matches Err(error) && (error is Transport || error is Disconnected
            || error is Handshake)),
{
    match result {
        Err(Error::Transport) | Err(Error::Disconnected) | Err(Error::Handshake) => true,
        _ => false,
    }
}

/// One ControlV2 command: the shocker, the signal type (1 shock, 3 sound),
/// the intensity and the duration in milliseconds; commands are never
/// exclusive.
#[derive(Debug, PartialEq, Eq)]
pub struct SignalCommand {
    pub id: String,
    pub signal_type: u8,
    pub intensity: u8,
    pub duration_ms: u64,
}

/// A sound on the shocker `id`: signal type 3 at intensity 0.
pub fn sound_command(id: &str, duration_ms: u64) -> (r: SignalCommand)
    ensures
        r.id@ == id@,
        r.signal_type == 3,
        r.intensity == 0,
        r.duration_ms == duration_ms,
{
    SignalCommand { id: owned(id), signal_type: 3, intensity: 0, duration_ms }
}

/// A shock on the shocker `id`: signal type 1.
pub fn shock_command(id: &str, intensity: u8, duration_ms: u64) -> (r: SignalCommand)
    ensures
        r.id@ == id@,
        r.signal_type == 1,
        r.intensity == intensity,
        r.duration_ms == duration_ms,
{
    SignalCommand { id: owned(id), signal_type: 1, intensity, duration_ms }
}

/// The commands that send a sound to each of `shockers`, in order.
pub fn sound_commands(shockers: &Vec<Shocker>, duration_ms: u64) -> (r: Vec<SignalCommand>)
    ensures
        r@.len() == shockers@.len(),
        forall|i: int| #![trigger r@[i]] 0 <= i < r@.len() ==> {
            &&& r@[i].id@ == shockers@[i].id@
            &&& r@[i].signal_type == 3
            &&& r@[i].intensity == 0
            &&& r@[i].duration_ms == duration_ms
        },
{
    let mut commands: Vec<SignalCommand> = Vec::new();
    for i in 0..shockers.len()
        invariant
            commands@.len() == i,
            forall|j: int| #![trigger commands@[j]] 0 <= j < i ==> {
                &&& commands@[j].id@ == shockers@[j].id@
                &&& commands@[j].signal_type == 3
                &&& commands@[j].intensity == 0
                &&& commands@[j].duration_ms == duration_ms
            },
    {
        commands.push(sound_command(shockers[i].id.as_str(), duration_ms));
    }
    commands
}

/// The commands that shock each of `shockers`, in order.
pub fn shock_commands(shockers: &Vec<Shocker>, intensity: u8, duration_ms: u64) -> (r: Vec<SignalCommand>)
    ensures
        r@.len() == shockers@.len(),
        forall|i: int| #![trigger r@[i]] 0 <= i < r@.len() ==> {
            &&& r@[i].id@ == shockers@[i].id@
            &&& r@[i].signal_type == 1
            &&& r@[i].intensity == intensity
            &&& r@[i].duration_ms == duration_ms
        },
{
    let mut commands: Vec<SignalCommand> = Vec::new();
    for i in 0..shockers.len()
        invariant
            commands@.len() == i,
            forall|j: int| #![trigger commands@[j]] 0 <= j < i ==> {
                &&& commands@[j].id@ == shockers@[j].id@
                &&& commands@[j].signal_type == 1
                &&& commands@[j].intensity == intensity
                &&& commands@[j].duration_ms == duration_ms
            },
    {
        commands.push(shock_command(shockers[i].id.as_str(), intensity, duration_ms));
    }
    commands
}

/// The commands for a sound on every available shocker of `group`, after the
/// duration and the group are checked, in that order.
pub fn test_sound_commands(group: &DeviceGroup, duration_ms: u64) -> (r: Result<Vec<SignalCommand>, Error>)
    ensures
        !(MIN_DURATION_MS <= duration_ms <= MAX_DURATION_MS) ==> r == Err::<Vec<SignalCommand>, Error>(Error::InvalidDuration),
        MIN_DURATION_MS <= duration_ms <= MAX_DURATION_MS && unpaused(group.shockers@).len() == 0
            ==> r == Err::<Vec<SignalCommand>, Error>(Error::NoAvailableShockers),
        MIN_DURATION_MS <= duration_ms <= MAX_DURATION_MS && unpaused(group.shockers@).len() > 0
            ==> (r matches Ok(commands) && commands@.len() == unpaused(group.shockers@).len()
            && forall|i: int| #![trigger commands@[i]] 0 <= i < commands@.len() ==> {
                &&& commands@[i].id@ == unpaused(group.shockers@)[i].id@
                &&& commands@[i].signal_type == 3
                &&& commands@[i].intensity == 0
                &&& commands@[i].duration_ms == duration_ms
            }),
{
    validate_duration(duration_ms)?;
    let shockers = available_shockers(group)?;
    Ok(sound_commands(&shockers, duration_ms))
}

/// The commands for a shock on every available shocker of `group`, after the
/// intensity, the duration and the group are checked, in that order.
pub fn shock_group_commands(group: &DeviceGroup, intensity: u8, duration_ms: u64) -> (r: Result<Vec<SignalCommand>, Error>)
    ensures
        !(1 <= intensity <= 100) ==> r == Err::<Vec<SignalCommand>, Error>(Error::InvalidIntensity),
        1 <= intensity <= 100 && !(MIN_DURATION_MS <= duration_ms <= MAX_DURATION_MS)
            ==> r == Err::<Vec<SignalCommand>, Error>(Error::InvalidDuration),
        1 <= intensity <= 100 && MIN_DURATION_MS <= duration_ms <= MAX_DURATION_MS && unpaused(
            group.shockers@,
        ).len() == 0 ==> r == Err::<Vec<SignalCommand>, Error>(Error::NoAvailableShockers),
        1 <= intensity <= 100 && MIN_DURATION_MS <= duration_ms <= MAX_DURATION_MS && unpaused(
            group.shockers@,
        ).len() > 0 ==> (r matches Ok(commands) && commands@.len() == unpaused(group.shockers@).len()
            && forall|i: int| #![trigger commands@[i]] 0 <= i < commands@.len() ==> {
                &&& commands@[i].id@ == unpaused(group.shockers@)[i].id@
                &&& commands@[i].signal_type == 1
                &&& commands@[i].intensity == intensity
                &&& commands@[i].duration_ms == duration_ms
            }),
{
    validate_intensity(intensity)?;
    validate_duration(duration_ms)?;
    let shockers = available_shockers(group)?;
    Ok(shock_commands(&shockers, intensity, duration_ms))
}

/// The SignalR invocation of ControlV2 with `commands`, sent as `sender`.
#[derive(Debug, PartialEq, Eq)]
pub struct Invocation {
    pub invocation_id: String,
    pub commands: Vec<SignalCommand>,
    pub sender: String,
}

/// The numbering of invocations on one connection.
#[derive(Debug, PartialEq, Eq)]
pub struct InvocationCounter {
    pub next: u64,
}

impl InvocationCounter {
    /// A counter whose first invocation is 1.
    pub fn new() -> (r: Self)
        ensures
            r.next == 1,
    {
        InvocationCounter { next: 1 }
    }

    /// The next invocation of `commands` as `sender`; the count then moves
    /// on, staying at its largest value.
    pub fn invocation(&mut self, commands: Vec<SignalCommand>, sender: &str) -> (r: Invocation)
        ensures
            r.invocation_id@ == decimal(old(self).next as nat),
            r.commands == commands,
            r.sender@ == sender@,
            final(self).next == (if old(self).next == u64::MAX {
                u64::MAX
            } else {
                (old(self).next + 1) as u64
            }),
    {
        let invocation_id = decimal_text(self.next);
        self.next = if self.next == u64::MAX {
            u64::MAX
        } else {
            self.next + 1
        };
        Invocation { invocation_id, commands, sender: owned(sender) }
    }
}

/// What one SignalR record means for the invocation being waited on.
#[derive(Debug, PartialEq, Eq)]
pub enum RecordOutcome {
    /// Not the answer; keep reading.
    Continue,
    /// The invocation completed.
    Completed(Result<(), Error>),
}

/// Classifies a SignalR record by its type, its invocation and its error: the
/// completion (type 3) of the invocation waited on ends the wait, with its
/// error redacted of the token; a close (type 7) ends it as disconnected;
/// everything else is passed over.
pub fn classify_record(
    record_type: Option<u64>,
    invocation_id: Option<&str>,
    error: Option<&str>,
    expected: &str,
    token: &str,
) -> (r: RecordOutcome)
    ensures
        record_type == Some(3u64) && (invocation_id matches Some(id) && id@ == expected@) ==> (
        match error {
            Some(message) => r matches RecordOutcome::Completed(Err(Error::CommandRejected { message: text }))
                && text@ == replaced(message@, token@, REDACTED@),
            None => r == RecordOutcome::Completed(Ok(())),
        }),
        record_type == Some(7u64) ==> r == RecordOutcome::Completed(Err(Error::Disconnected)),
        !(record_type == Some(3u64) && (invocation_id matches Some(id) && id@ == expected@))
            && record_type != Some(7u64) ==> r == RecordOutcome::Continue,
{
    match record_type {
        Some(3) => {
            let matches_invocation = match invocation_id {
                Some(id) => same_text(id, expected),
                None => false,
            };
            if !matches_invocation {
                return RecordOutcome::Continue;
            }
            match error {
                Some(message) => RecordOutcome::Completed(
                    Err(Error::CommandRejected { message: redact(message, token) }),
                ),
                None => RecordOutcome::Completed(Ok(())),
            }
        },
        Some(7) => RecordOutcome::Completed(Err(Error::Disconnected)),
        _ => RecordOutcome::Continue,
    }
}

/// The identifier, name and pause state of a shocker.
pub open spec fn shocker_view(shocker: Shocker) -> (Seq<char>, Seq<char>, bool) {
    (shocker.id@, shocker.name@, shocker.paused)
}

/// The identifier, name and shockers of a group.
pub open spec fn group_view(group: DeviceGroup) -> (Seq<char>, Seq<char>, Seq<(Seq<char>, Seq<char>, bool)>) {
    (group.id@, group.name@, Seq::new(group.shockers@.len(), |i: int| shocker_view(group.shockers@[i])))
}

/// An identifier in a looked-up value, as a string or a decimal number.
pub open spec fn identifier_in(value: Option<JsonValue>) -> Option<Seq<char>> {
    match value {
        Some(value) => value.spec_string_value(),
        None => None,
    }
}

/// The text of a looked-up value.
pub open spec fn text_in(value: Option<JsonValue>) -> Option<Seq<char>> {
    match value {
        Some(value) => value.spec_as_str(),
        None => None,
    }
}

/// The boolean of a looked-up value.
pub open spec fn bool_in(value: Option<JsonValue>) -> Option<bool> {
    match value {
        Some(value) => value.spec_as_bool(),
        None => None,
    }
}

/// The items of a looked-up array.
pub open spec fn array_in(value: Option<JsonValue>) -> Option<Seq<JsonValue>> {
    match value {
        Some(value) => value.spec_as_array(),
        None => None,
    }
}

/// A shocker of a device listing: an object with an identifier (`id`, else
/// `shockerId`), an optional name, and a pause state (`paused`, else
/// `isPaused`).
pub open spec fn decoded_shocker(value: JsonValue) -> Option<(Seq<char>, Seq<char>, bool)> {
    if !(value is Object) {
        None
    } else {
        let id = identifier_in(either(value.spec_get("id"@), value.spec_get("shockerId"@)));
        let name = match text_in(value.spec_get("name"@)) {
            Some(name) => name,
            None => "OpenShock shocker"@,
        };
        let paused = match bool_in(value.spec_get("paused"@)) {
            Some(paused) => Some(paused),
            None => bool_in(value.spec_get("isPaused"@)),
        };
        match (id, paused) {
            (Some(id), Some(paused)) => Some((id, name, paused)),
            _ => None,
        }
    }
}

/// A group of a device listing: an object with an identifier (`id`, else
/// `deviceId`), an optional name (`name`, else `deviceName`), and shockers
/// (`shockers`, else `Shocker`) that all decode.
pub open spec fn decoded_group(value: JsonValue) -> Option<(Seq<char>, Seq<char>, Seq<(Seq<char>, Seq<char>, bool)>)> {
    if !(value is Object) {
        None
    } else {
        let id = identifier_in(either(value.spec_get("id"@), value.spec_get("deviceId"@)));
        let name = match text_in(either(value.spec_get("name"@), value.spec_get("deviceName"@))) {
            Some(name) => name,
            None => "OpenShock device"@,
        };
        let shockers = array_in(either(value.spec_get("shockers"@), value.spec_get("Shocker"@)));
        match (id, shockers) {
            (Some(id), Some(items)) => if forall|i: int| 0 <= i < items.len() ==> #[trigger] decoded_shocker(items[i]) is Some {
                Some((id, name, Seq::new(items.len(), |i: int| decoded_shocker(items[i])->0)))
            } else {
                None
            },
            _ => None,
        }
    }
}

/// The groups array of a device listing: the `data` member (or the document)
/// as an array, else its `groups` or `shockers` member.
pub open spec fn listing_items(value: JsonValue) -> Option<Seq<JsonValue>> {
    let data = match value.spec_get("data"@) {
        Some(data) => data,
        None => value,
    };
    match data.spec_as_array() {
        Some(items) => Some(items),
        None => match array_in(data.spec_get("groups"@)) {
            Some(items) => Some(items),
            None => array_in(data.spec_get("shockers"@)),
        },
    }
}

/// The groups of a device listing; a `null` `data` member is an empty
/// listing, and anything that does not decode fails the whole listing.
pub open spec fn decoded_groups(value: JsonValue) -> Option<Seq<(Seq<char>, Seq<char>, Seq<(Seq<char>, Seq<char>, bool)>)>> {
    if value.spec_get("data"@) == Some(JsonValue::Null) {
        Some(Seq::empty())
    } else {
        match listing_items(value) {
            Some(items) => if forall|i: int| 0 <= i < items.len() ==> #[trigger] decoded_group(items[i]) is Some {
                Some(Seq::new(items.len(), |i: int| decoded_group(items[i])->0))
            } else {
                None
            },
            None => None,
        }
    }
}

/// The shocker objects listed in a group object.
pub open spec fn group_shockers_json(group: JsonValue) -> Seq<JsonValue> {
    match array_in(either(group.spec_get("shockers"@), group.spec_get("Shocker"@))) {
        Some(items) => items,
        None => Seq::empty(),
    }
}

/// The `j`-th shocker object of the `i`-th group object of a device listing.
pub open spec fn listed_shocker(value: JsonValue, i: int, j: int) -> JsonValue {
    group_shockers_json(listing_items(value)->Some_0[i])[j]
}

/// Whether `paused` is the pause state that the shocker object states: its
/// boolean `paused` member, or, without one, its boolean `isPaused` member.
pub open spec fn pause_read_from(shocker: JsonValue, paused: bool) -> bool {
    let first = shocker.spec_get("paused"@);
    let second = shocker.spec_get("isPaused"@);
    &&& (first is Some && first->Some_0 is Bool) ==> paused == first->Some_0->Bool_0
    &&& (!(first is Some && first->Some_0 is Bool) && second is Some && second->Some_0 is Bool) ==> paused
        == second->Some_0->Bool_0
}

proof fn lemma_shocker_pause(shocker: JsonValue)
    requires
        decoded_shocker(shocker) is Some,
    ensures
        pause_read_from(shocker, decoded_shocker(shocker)->Some_0.2),
{
}

proof fn lemma_group_pause(group: JsonValue, j: int)
    requires
        decoded_group(group) is Some,
        0 <= j < decoded_group(group)->Some_0.2.len(),
    ensures
        pause_read_from(group_shockers_json(group)[j], decoded_group(group)->Some_0.2[j].2),
{
    let items = group_shockers_json(group);
    assert(decoded_shocker(items[j]) is Some);
    lemma_shocker_pause(items[j]);
}

/// Each shocker of a decoded listing has the pause state that its object
/// states: its boolean `paused` member, or else its boolean `isPaused`
/// member.
pub proof fn law_listing_reads_pause_states(value: JsonValue, i: int, j: int)
    requires
        decoded_groups(value) is Some,
        0 <= i < decoded_groups(value)->Some_0.len(),
        0 <= j < decoded_groups(value)->Some_0[i].2.len(),
    ensures
        pause_read_from(listed_shocker(value, i, j), decoded_groups(value)->Some_0[i].2[j].2),
{
    let items = listing_items(value)->Some_0;
    assert(decoded_group(items[i]) is Some);
    lemma_group_pause(items[i], j);
}

fn either_member<'a>(value: &'a JsonValue, first: &str, second: &str) -> (r: Option<&'a JsonValue>)
    ensures
        match r {
            Some(found) => either(value.spec_get(first@), value.spec_get(second@)) == Some(*found),
            None => either(value.spec_get(first@), value.spec_get(second@)) is None,
        },
{
    match value.get(first) {
        Some(found) => Some(found),
        None => value.get(second),
    }
}

fn listing_error() -> (r: Error)
    ensures
        r == (Error::Decode { operation: "device listing" }),
{
    Error::Decode { operation: "device listing" }
}

fn decode_shocker(value: &JsonValue) -> (r: Result<Shocker, Error>)
    ensures
        match decoded_shocker(*value) {
            Some(view) => r matches Ok(shocker) && shocker_view(shocker) == view,
            None => r == Err::<Shocker, Error>(Error::Decode { operation: "device listing" }),
        },
{
    if !value.is_object() {
        return Err(listing_error());
    }
    let id = match either_member(value, "id", "shockerId") {
        Some(found) => match found.string_value() {
            Some(id) => id,
            None => return Err(listing_error()),
        },
        None => return Err(listing_error()),
    };
    let name = match value.get("name") {
        Some(found) => match found.as_str() {
            Some(name) => owned(name),
            None => owned("OpenShock shocker"),
        },
        None => owned("OpenShock shocker"),
    };
    let paused_first = match value.get("paused") {
        Some(found) => found.as_bool(),
        None => None,
    };
    let paused = match paused_first {
        Some(paused) => paused,
        None => match value.get("isPaused") {
            Some(found) => match found.as_bool() {
                Some(paused) => paused,
                None => return Err(listing_error()),
            },
            None => return Err(listing_error()),
        },
    };
    Ok(Shocker { id, name, paused })
}

fn decode_group(value: &JsonValue) -> (r: Result<DeviceGroup, Error>)
    ensures
        match decoded_group(*value) {
            Some(view) => r matches Ok(group) && group_view(group) == view,
            None => r == Err::<DeviceGroup, Error>(Error::Decode { operation: "device listing" }),
        },
{
    if !value.is_object() {
        return Err(listing_error());
    }
    let id = match either_member(value, "id", "deviceId") {
        Some(found) => match found.string_value() {
            Some(id) => id,
            None => return Err(listing_error()),
        },
        None => return Err(listing_error()),
    };
    let name = match either_member(value, "name", "deviceName") {
        Some(found) => match found.as_str() {
            Some(name) => owned(name),
            None => owned("OpenShock device"),
        },
        None => owned("OpenShock device"),
    };
    let items = match either_member(value, "shockers", "Shocker") {
        Some(found) => match found.as_array() {
            Some(items) => items,
            None => return Err(listing_error()),
        },
        None => return Err(listing_error()),
    };
    let mut shockers: Vec<Shocker> = Vec::new();
    let mut i: usize = 0;
    while i < items.len()
        invariant
            0 <= i <= items@.len(),
            *value is Object,
            array_in(either(value.spec_get("shockers"@), value.spec_get("Shocker"@))) == Some(items@),
            identifier_in(either(value.spec_get("id"@), value.spec_get("deviceId"@))) == Some(id@),
            name@ == (match text_in(either(value.spec_get("name"@), value.spec_get("deviceName"@))) {
                Some(name) => name,
                None => "OpenShock device"@,
            }),
            shockers@.len() == i,
            forall|k: int| 0 <= k < i ==> #[trigger] decoded_shocker(items@[k]) is Some
                && shocker_view(shockers@[k]) == decoded_shocker(items@[k])->0,
        decreases items@.len() - i,
    {
        match decode_shocker(&items[i]) {
            Ok(shocker) => shockers.push(shocker),
            Err(error) => {
                assert(!(forall|k: int| 0 <= k < items@.len() ==> #[trigger] decoded_shocker(items@[k]) is Some));
                return Err(error);
            },
        }
        i = i + 1;
    }
    let group = DeviceGroup { id, name, shockers };
    assert(group_view(group).2 =~= Seq::new(items@.len(), |k: int| decoded_shocker(items@[k])->0));
    Ok(group)
}

/// Decodes a device listing into groups: see [`decoded_groups`]. Any
/// failure is a decoding error of the listing.
pub fn decode_groups(value: &JsonValue) -> (r: Result<Vec<DeviceGroup>, Error>)
    ensures
        match decoded_groups(*value) {
            Some(views) => r matches Ok(groups) && groups@.len() == views.len() && forall|i: int|
                0 <= i < views.len() ==> #[trigger] group_view(groups@[i]) == views[i],
            None => r == Err::<Vec<DeviceGroup>, Error>(Error::Decode { operation: "device listing" }),
        },
        r matches Ok(groups) ==> forall|i: int, j: int|
            #![trigger groups@[i].shockers@[j]]
            0 <= i < groups@.len() && 0 <= j < groups@[i].shockers@.len() ==> pause_read_from(
                listed_shocker(*value, i, j),
                groups@[i].shockers@[j].paused,
            ),
{
    let data_value = value.get("data");
    match data_value {
        Some(data) => if data.is_null() {
            return Ok(Vec::new());
        },
        None => {},
    }
    let data = match data_value {
        Some(data) => data,
        None => value,
    };
    let items = match data.as_array() {
        Some(items) => items,
        None => match data.get("groups") {
            Some(found) => match found.as_array() {
                Some(items) => items,
                None => match data.get("shockers") {
                    Some(other) => match other.as_array() {
                        Some(items) => items,
                        None => return Err(listing_error()),
                    },
                    None => return Err(listing_error()),
                },
            },
            None => match data.get("shockers") {
                Some(other) => match other.as_array() {
                    Some(items) => items,
                    None => return Err(listing_error()),
                },
                None => return Err(listing_error()),
            },
        },
    };
    assert(listing_items(*value) == Some(items@));
    let mut groups: Vec<DeviceGroup> = Vec::new();
    let mut i: usize = 0;
    while i < items.len()
        invariant
            0 <= i <= items@.len(),
            listing_items(*value) == Some(items@),
            value.spec_get("data"@) != Some(JsonValue::Null),
            groups@.len() == i,
            forall|k: int| 0 <= k < i ==> #[trigger] decoded_group(items@[k]) is Some
                && group_view(groups@[k]) == decoded_group(items@[k])->0,
        decreases items@.len() - i,
    {
        match decode_group(&items[i]) {
            Ok(group) => groups.push(group),
            Err(error) => {
                assert(!(forall|k: int| 0 <= k < items@.len() ==> #[trigger] decoded_group(items@[k]) is Some));
                return Err(error);
            },
        }
        i = i + 1;
    }
    proof {
        assert forall|i: int, j: int|
            #![trigger groups@[i].shockers@[j]]
            0 <= i < groups@.len() && 0 <= j < groups@[i].shockers@.len() implies pause_read_from(
                listed_shocker(*value, i, j),
                groups@[i].shockers@[j].paused,
            ) by {
            assert(group_view(groups@[i]).2[j] == shocker_view(groups@[i].shockers@[j]));
            lemma_group_pause(items@[i], j);
        }
    }
    Ok(groups)
}

/// The permissions a token's permission document grants: every string, the
/// members of arrays in order, and for objects each key whose value is
/// `true`, what its value grants, and `shockers.use` for a `use` key that
/// is `true`.
pub open spec fn flattened(value: JsonValue) -> Seq<Seq<char>>
    decreases value,
{
    match value {
        JsonValue::Text(permission) => seq![permission@],
        JsonValue::Array(items) => flattened_items(items@),
        JsonValue::Object(members) => flattened_members(members@),
        _ => Seq::empty(),
    }
}

/// The permissions the items of an array grant, in order.
pub open spec fn flattened_items(items: Seq<JsonValue>) -> Seq<Seq<char>>
    decreases items,
{
    if items.len() == 0 {
        Seq::empty()
    } else {
        flattened(items[0]) + flattened_items(items.subrange(1, items.len() as int))
    }
}

/// The permissions the members of an object grant, in order.
pub open spec fn flattened_members(members: Seq<(String, JsonValue)>) -> Seq<Seq<char>>
    decreases members,
{
    if members.len() == 0 {
        Seq::empty()
    } else {
        let key = members[0].0@;
        let granted = members[0].1 == JsonValue::Bool(true);
        (if granted {
            seq![key]
        } else {
            Seq::empty()
        }) + flattened(members[0].1) + (if granted && key == "use"@ {
            seq![SHOCKERS_USE@]
        } else {
            Seq::empty()
        }) + flattened_members(members.subrange(1, members.len() as int))
    }
}

/// The texts of `values`.
pub open spec fn texts(values: Seq<String>) -> Seq<Seq<char>> {
    Seq::new(values.len(), |i: int| values[i]@)
}

fn append_texts(out: &mut Vec<String>, more: Vec<String>)
    ensures
        texts(final(out)@) == texts(old(out)@) + texts(more@),
{
    let ghost start = out@;
    let mut more = more;
    let mut i: usize = 0;
    let ghost all = more@;
    while i < more.len()
        invariant
            0 <= i <= all.len(),
            more@ == all,
            texts(out@) == texts(start) + texts(all.take(i as int)),
        decreases all.len() - i,
    {
        let text = more[i].clone();
        let ghost before = out@;
        out.push(text);
        assert(texts(out@) =~= texts(before).push(all[i as int]@));
        assert(texts(all.take(i + 1)) =~= texts(all.take(i as int)).push(all[i as int]@));
        assert(texts(out@) =~= texts(start) + texts(all.take(i + 1)));
        i = i + 1;
    }
    assert(all.take(i as int) =~= all);
}

/// What a permission document grants: see [`flattened`].
pub fn flatten_permissions(value: &JsonValue) -> (r: Vec<String>)
    ensures
        texts(r@) == flattened(*value),
        forall|k: int| *value is Array && 0 <= k < value->Array_0@.len() && (#[trigger] value->Array_0@[k]) is Text
            ==> texts(r@).contains(value->Array_0@[k]->Text_0@),
    decreases *value,
{
    let mut result: Vec<String> = Vec::new();
    match value {
        JsonValue::Text(permission) => {
            result.push(permission.clone());
            assert(texts(result@) =~= seq![permission@]);
        },
        JsonValue::Array(items) => {
            let mut i: usize = 0;
            assert(items@.subrange(0, items@.len() as int) =~= items@);
            assert(texts(result@) =~= Seq::<Seq<char>>::empty());
            while i < items.len()
                invariant
                    0 <= i <= items@.len(),
                    *value == JsonValue::Array(*items),
                    flattened(*value) == flattened_items(items@),
                    flattened_items(items@) == texts(result@) + flattened_items(items@.subrange(i as int, items@.len() as int)),
                decreases items@.len() - i,
            {
                let ghost rest = items@.subrange(i as int, items@.len() as int);
                assert(rest[0] == items@[i as int]);
                assert(rest.subrange(1, rest.len() as int) =~= items@.subrange(i + 1, items@.len() as int));
                let inner = flatten_permissions(&items[i]);
                append_texts(&mut result, inner);
                i = i + 1;
            }
            assert(items@.subrange(i as int, items@.len() as int) =~= Seq::<JsonValue>::empty());
        },
        JsonValue::Object(members) => {
            let mut i: usize = 0;
            assert(members@.subrange(0, members@.len() as int) =~= members@);
            assert(texts(result@) =~= Seq::<Seq<char>>::empty());
            while i < members.len()
                invariant
                    0 <= i <= members@.len(),
                    *value == JsonValue::Object(*members),
                    flattened(*value) == flattened_members(members@),
                    flattened_members(members@) == texts(result@) + flattened_members(members@.subrange(i as int, members@.len() as int)),
                decreases members@.len() - i,
            {
                let ghost rest = members@.subrange(i as int, members@.len() as int);
                assert(rest[0] == members@[i as int]);
                assert(rest.subrange(1, rest.len() as int) =~= members@.subrange(i + 1, members@.len() as int));
                let key = &members[i].0;
                let member_value = &members[i].1;
                let granted = match member_value {
                    JsonValue::Bool(flag) => *flag,
                    _ => false,
                };
                assert(granted == (*member_value == JsonValue::Bool(true)));
                let ghost start = texts(result@);
                let ghost first = if granted { seq![key@] } else { Seq::<Seq<char>>::empty() };
                if granted {
                    result.push(key.clone());
                }
                assert(texts(result@) =~= start + first);
                let ghost after_first = texts(result@);
                let inner = flatten_permissions(member_value);
                append_texts(&mut result, inner);
                let ghost after_inner = texts(result@);
                assert(after_inner == after_first + flattened(*member_value));
                let is_use = same_text(key.as_str(), "use");
                let ghost last = if granted && key@ == "use"@ { seq![SHOCKERS_USE@] } else { Seq::<Seq<char>>::empty() };
                if granted && is_use {
                    result.push(owned(SHOCKERS_USE));
                }
                assert(texts(result@) =~= after_inner + last);
                assert(flattened_members(rest) == first + flattened(*member_value) + last
                    + flattened_members(rest.subrange(1, rest.len() as int)));
                assert(texts(result@) + flattened_members(members@.subrange(i + 1, members@.len() as int))
                    =~= start + flattened_members(rest));
                i = i + 1;
            }
            assert(members@.subrange(i as int, members@.len() as int) =~= Seq::<(String, JsonValue)>::empty());
        },
        _ => {
            assert(texts(result@) =~= Seq::<Seq<char>>::empty());
        },
    }
    proof {
        assert forall|k: int| *value is Array && 0 <= k < value->Array_0@.len() && (#[trigger] value->Array_0@[k]) is Text
            implies texts(result@).contains(value->Array_0@[k]->Text_0@) by {
            let items = value->Array_0;
            law_permission_arrays_grant_their_strings(items, k, items@[k]->Text_0);
        }
    }
    result
}

/// Each string item of an array of permissions is among what the array
/// grants.
proof fn lemma_items_grant_their_strings(items: Seq<JsonValue>, k: int, permission: String)
    requires
        0 <= k < items.len(),
        items[k] == JsonValue::Text(permission),
    ensures
        flattened_items(items).contains(permission@),
    decreases items.len(),
{
    let rest = items.subrange(1, items.len() as int);
    if k == 0 {
        assert(flattened(items[0]) == seq![permission@]);
        assert(flattened_items(items) == flattened(items[0]) + flattened_items(rest));
        assert(flattened_items(items)[0] == permission@);
    } else {
        assert(rest[k - 1] == items[k]);
        lemma_items_grant_their_strings(rest, k - 1, permission);
        let j = choose|j: int| 0 <= j < flattened_items(rest).len() && flattened_items(rest)[j] == permission@;
        let first = flattened(items[0]);
        assert(flattened_items(items) == first + flattened_items(rest));
        assert(flattened_items(items)[first.len() + j] == permission@);
    }
}

/// Every string in a permission array is granted: a permissions array that
/// holds a string grants that string.
pub proof fn law_permission_arrays_grant_their_strings(items: Vec<JsonValue>, k: int, permission: String)
    requires
        0 <= k < items@.len(),
        items@[k] == JsonValue::Text(permission),
    ensures
        flattened(JsonValue::Array(items)).contains(permission@),
{
    lemma_items_grant_their_strings(items@, k, permission);
}

/// Whether `value` is a token document, without a `data` wrapper, for an
/// unpaused token whose permissions array holds `shockers.use`.
pub open spec fn usable_token_document(value: JsonValue) -> bool {
    &&& value.spec_get("data"@) is None
    &&& value is Object
    &&& value.spec_get("shockerControl"@) matches Some(control) && control is Object
        && control.spec_get("paused"@) == Some(JsonValue::Bool(false))
    &&& value.spec_get("permissions"@) matches Some(JsonValue::Array(items)) && exists|k: int|
        0 <= k < items@.len() && (#[trigger] items@[k]) is Text && items@[k]->Text_0@ == SHOCKERS_USE@
}

/// An unpaused token whose permissions array holds `shockers.use` passes the
/// check: it decodes as unpaused and granting `shockers.use`.
pub proof fn law_usable_token_passes_preflight(value: JsonValue)
    requires
        usable_token_document(value),
    ensures
        decoded_token(value) matches Some((paused, permissions)) && !paused && permissions.contains(SHOCKERS_USE@),
{
    let items = value.spec_get("permissions"@)->Some_0->Array_0;
    let k = choose|k: int| 0 <= k < items@.len() && (#[trigger] items@[k]) is Text && items@[k]->Text_0@ == SHOCKERS_USE@;
    let text = items@[k]->Text_0;
    law_permission_arrays_grant_their_strings(items, k, text);
}

/// What the token endpoint's document says of the token: the document (or
/// its `data` member) must be an object whose `shockerControl` object has a
/// boolean `paused`; its permissions are what its `permissions` member grants,
/// none when it has none.
pub open spec fn decoded_token(value: JsonValue) -> Option<(bool, Seq<Seq<char>>)> {
    let object = match value.spec_get("data"@) {
        Some(data) => data,
        None => value,
    };
    if !(object is Object) {
        None
    } else {
        match object.spec_get("shockerControl"@) {
            Some(control) => if control is Object {
                match bool_in(control.spec_get("paused"@)) {
                    Some(paused) => Some((paused, match object.spec_get("permissions"@) {
                        Some(permissions) => flattened(permissions),
                        None => Seq::empty(),
                    })),
                    None => None,
                }
            } else {
                None
            },
            None => None,
        }
    }
}

fn token_error() -> (r: Error)
    ensures
        r == (Error::Decode { operation: "token authentication" }),
{
    Error::Decode { operation: "token authentication" }
}

/// Decodes the token endpoint's document: see [`decoded_token`]. Any failure
/// is a decoding error of the authentication.
pub fn decode_token(value: &JsonValue) -> (r: Result<TokenInfo, Error>)
    ensures
        match decoded_token(*value) {
            Some((paused, permissions)) => r matches Ok(info) && info.paused == paused && texts(
                info.permissions@,
            ) == permissions,
            None => r == Err::<TokenInfo, Error>(Error::Decode { operation: "token authentication" }),
        },
{
    let object = match value.get("data") {
        Some(data) => data,
        None => value,
    };
    if !object.is_object() {
        return Err(token_error());
    }
    let control = match object.get("shockerControl") {
        Some(control) => control,
        None => return Err(token_error()),
    };
    if !control.is_object() {
        return Err(token_error());
    }
    let paused = match control.get("paused") {
        Some(found) => match found.as_bool() {
            Some(paused) => paused,
            None => return Err(token_error()),
        },
        None => return Err(token_error()),
    };
    let permissions = match object.get("permissions") {
        Some(found) => flatten_permissions(found),
        None => {
            let none: Vec<String> = Vec::new();
            assert(texts(none@) =~= Seq::<Seq<char>>::empty());
            none
        },
    };
    Ok(TokenInfo { paused, permissions })
}

/// The check of a token document before the token is used: it must decode,
/// then be unpaused and grant `shockers.use`.
pub fn preflight_outcome(value: &JsonValue) -> (r: Result<TokenInfo, Error>)
    ensures
        match decoded_token(*value) {
            None => r == Err::<TokenInfo, Error>(Error::Decode { operation: "token authentication" }),
            Some((paused, permissions)) => if paused {
                r == Err::<TokenInfo, Error>(Error::TokenPaused)
            } else if !permissions.contains(SHOCKERS_USE@) {
                r == Err::<TokenInfo, Error>(Error::PermissionDenied)
            } else {
                r matches Ok(info) && !info.paused && texts(info.permissions@) == permissions
            },
        },
        usable_token_document(*value) ==> (r matches Ok(info) && !info.paused && texts(info.permissions@).contains(
            SHOCKERS_USE@,
        )),
{
    proof {
        if usable_token_document(*value) {
            law_usable_token_passes_preflight(*value);
        }
    }
    let info = decode_token(value)?;
    let ghost permissions = texts(info.permissions@);
    proof {
        assert(grants_shocker_use(info.permissions@) <==> permissions.contains(SHOCKERS_USE@)) by {
            if grants_shocker_use(info.permissions@) {
                let i = choose|i: int| 0 <= i < info.permissions@.len() && #[trigger] info.permissions@[i]@ == SHOCKERS_USE@;
                assert(permissions[i] == SHOCKERS_USE@);
            }
            if permissions.contains(SHOCKERS_USE@) {
                let i = choose|i: int| 0 <= i < permissions.len() && permissions[i] == SHOCKERS_USE@;
                assert(info.permissions@[i]@ == SHOCKERS_USE@);
            }
        }
    }
    check_token(info)
}

/// The character that ends each SignalR record.
pub const RECORD_SEPARATOR: char = '\u{1e}';

/// Reading `text` from the start: the non-empty records already ended by a
/// separator, and the text read since the last separator.
pub open spec fn record_scan(text: Seq<char>) -> (Seq<Seq<char>>, Seq<char>)
    decreases text.len(),
{
    if text.len() == 0 {
        (Seq::empty(), Seq::empty())
    } else {
        let (done, rest) = record_scan(text.drop_last());
        if text.last() == RECORD_SEPARATOR {
            if rest.len() > 0 {
                (done.push(rest), Seq::empty())
            } else {
                (done, Seq::empty())
            }
        } else {
            (done, rest.push(text.last()))
        }
    }
}

/// The non-empty pieces of `text` between separators, in order.
pub open spec fn signalr_records(text: Seq<char>) -> Seq<Seq<char>> {
    let (done, rest) = record_scan(text);
    if rest.len() > 0 {
        done.push(rest)
    } else {
        done
    }
}

/// Splits a SignalR message into its records: the non-empty pieces between
/// record separators.
pub fn split_records(text: &str) -> (r: Vec<String>)
    ensures
        r@.len() == signalr_records(text@).len(),
        forall|i: int| 0 <= i < r@.len() ==> #[trigger] r@[i]@ == signalr_records(text@)[i],
{
    let chars = chars_of(text);
    let mut records: Vec<String> = Vec::new();
    let mut current = String::new();
    let mut filled = false;
    for i in 0..chars.len()
        invariant
            chars@ == text@,
            records@.len() == record_scan(text@.take(i as int)).0.len(),
            forall|k: int| 0 <= k < records@.len() ==> #[trigger] records@[k]@ == record_scan(
                text@.take(i as int),
            ).0[k],
            current@ == record_scan(text@.take(i as int)).1,
            filled == (current@.len() > 0),
    {
        let c = chars[i];
        assert(text@.take(i + 1).drop_last() =~= text@.take(i as int));
        assert(text@.take(i + 1).last() == c);
        if c == RECORD_SEPARATOR {
            if filled {
                records.push(current);
            }
            current = String::new();
            filled = false;
        } else {
            push_char(&mut current, c);
            filled = true;
        }
    }
    assert(text@.take(chars@.len() as int) =~= text@);
    if filled {
        records.push(current);
    }
    records
}

/// What a record answers to the handshake: one with an `error` member
/// refuses it, an empty object accepts it, and any other is passed over.
pub fn handshake_outcome(record: &JsonValue) -> (r: Option<Result<(), Error>>)
    ensures
        record.spec_get("error"@) is Some ==> r == Some(Err::<(), Error>(Error::Handshake)),
        record.spec_get("error"@) is None ==> r == (if *record matches JsonValue::Object(members)
            && members@.len() == 0 {
            Some(Ok::<(), Error>(()))
        } else {
            None
        }),
{
    if record.get("error").is_some() {
        return Some(Err(Error::Handshake));
    }
    match record {
        JsonValue::Object(members) => if members.len() == 0 {
            Some(Ok(()))
        } else {
            None
        },
        _ => None,
    }
}

} // verus!
