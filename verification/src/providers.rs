//! Provider kinds and the connection to a live provider backend.
use vstd::prelude::*;
use crate::action::ResolvedVibrateAction;
use crate::provider::{IntifaceSetup, LocalSetup, LovenseSetup, ProviderError, ProviderSettings, ProviderTarget};
use crate::text::{decimal, decimal_text, same_text};

verus! {

/// The strength of the setup test vibration, on the 0 to 20 scale.
pub const TEST_VIBRATE_STRENGTH: u8 = 8;
/// The duration of the setup test vibration, in seconds.
pub const TEST_VIBRATE_DURATION_SECS: u32 = 1;

/// Which toy backend the companion talks to.
#[derive(Clone, Copy, Debug, PartialEq, Eq, Hash, Structural)]
pub enum ProviderKind {
    /// The Lovense Remote/Connect app on the same network (local Standard API).
    Lovense,
    /// An embedded buttplug server running inside the companion.
    Local,
    /// An externally running Intiface Central (or any buttplug WebSocket server).
    Intiface,
}

impl Default for ProviderKind {
    fn default() -> (r: Self)
        ensures
            r == ProviderKind::Lovense,
    {
        ProviderKind::Lovense
    }
}

/// Whether a provider's actions address one selected target.
#[derive(Clone, Copy, Debug, PartialEq, Eq, Structural)]
pub enum TargetPolicy {
    /// Actions never address a target.
    NoTarget,
    /// Actions need a selected target.
    Required,
    /// Actions address the selected target, or every target when none is selected.
    Optional,
}

impl TargetPolicy {
    /// Whether an action may be sent with or without a target.
    pub open spec fn spec_accepts(self, has_target: bool) -> bool {
        match self {
            TargetPolicy::Required => has_target,
            _ => true,
        }
    }

    /// Whether an action may be sent with (`true`) or without (`false`) a target.
    pub fn accepts(self, has_target: bool) -> (r: bool)
        ensures
            r == self.spec_accepts(has_target),
    {
        match self {
            TargetPolicy::Required => has_target,
            _ => true,
        }
    }
}

impl ProviderKind {
    /// The display name.
    pub open spec fn spec_label(self) -> Seq<char> {
        match self {
            ProviderKind::Lovense => "Lovense"@,
            ProviderKind::Local => "Local (Embedded Intiface)"@,
            ProviderKind::Intiface => "Intiface Central"@,
        }
    }

    /// The name used in log records.
    pub open spec fn spec_log_label(self) -> Seq<char> {
        match self {
            ProviderKind::Lovense => "lovense"@,
            ProviderKind::Local => "local"@,
            ProviderKind::Intiface => "intiface"@,
        }
    }

    /// How the provider's actions address targets: every backend vibrates the
    /// selected target, or all of its targets when none is selected.
    pub open spec fn spec_target_policy(self) -> TargetPolicy {
        TargetPolicy::Optional
    }

    /// The display name.
    pub fn label(self) -> (r: &'static str)
        ensures
            r@ == self.spec_label(),
    {
        match self {
            ProviderKind::Lovense => "Lovense",
            ProviderKind::Local => "Local (Embedded Intiface)",
            ProviderKind::Intiface => "Intiface Central",
        }
    }

    /// The name used in log records.
    pub fn log_label(self) -> (r: &'static str)
        ensures
            r@ == self.spec_log_label(),
    {
        match self {
            ProviderKind::Lovense => "lovense",
            ProviderKind::Local => "local",
            ProviderKind::Intiface => "intiface",
        }
    }

    /// How the provider's actions address targets.
    pub fn target_policy(self) -> (r: TargetPolicy)
        ensures
            r == self.spec_target_policy(),
    {
        TargetPolicy::Optional
    }

    /// The name of the action every provider sends.
    pub fn action_label(self) -> (r: &'static str)
        ensures
            r@ == "vibrate"@,
    {
        "vibrate"
    }
}

/// The interface each provider backend implements.
pub trait ProviderImpl: Send + Sync {
    /// The targets the backend can currently address.
    fn list_targets(&self) -> Result<Vec<ProviderTarget>, ProviderError>;

    /// Sends the setup test vibration to `target`, or to every target.
    fn test_action(&self, target: Option<&ProviderTarget>) -> Result<(), ProviderError>;

    /// Whether `outcome` is an answer of the backend to sending `action` to
    /// `target` (to every target for `None`). What the answer is depends on
    /// the devices, so a backend states nothing more by default: every
    /// answer is possible. Where the backend is not known, as behind a
    /// connection, it ties an answer to the request that was made.
    closed spec fn answers_execute(
        &self,
        target: Option<&ProviderTarget>,
        action: ResolvedVibrateAction,
        outcome: Result<(), ProviderError>,
    ) -> bool {
        true
    }

    /// Sends `action` to `target`, or to every target.
    fn execute(&self, target: Option<&ProviderTarget>, action: ResolvedVibrateAction) -> (r: Result<
        (),
        ProviderError,
    >)
        ensures
            self.answers_execute(target, action, r),
    ;

    /// Ends the backend's session.
    fn disconnect(self: Box<Self>) -> Result<(), ProviderError>;

    /// Turns hardware scanning on; backends without a scan state do nothing.
    fn start_scanning(&self) -> (r: Result<(), ProviderError>)
        default_ensures
            r == Ok::<(), ProviderError>(()),
    {
        Ok(())
    }

    /// Turns hardware scanning off; backends without a scan state do nothing.
    fn stop_scanning(&self) -> (r: Result<(), ProviderError>)
        default_ensures
            r == Ok::<(), ProviderError>(()),
    {
        Ok(())
    }
}

/// Opens a backend for each kind of provider setup.
pub trait ProviderConnector {
    /// Connects to the Lovense app described by a present setup.
    fn connect_lovense(&self, setup: &LovenseSetup) -> Result<Box<dyn ProviderImpl>, ProviderError>;

    /// Starts the embedded engine and connects to it.
    fn connect_local(&self, setup: &LocalSetup) -> Result<Box<dyn ProviderImpl>, ProviderError>;

    /// Connects to the Intiface server described by a present setup.
    fn connect_intiface(&self, setup: &IntifaceSetup) -> Result<Box<dyn ProviderImpl>, ProviderError>;
}

/// A live connection to a provider backend.
pub struct ConnectedProvider {
    kind: ProviderKind,
    inner: Box<dyn ProviderImpl>,
}

impl ConnectedProvider {
    /// The provider the connection belongs to.
    pub closed spec fn spec_kind(&self) -> ProviderKind {
        self.kind
    }

    /// Wraps a connected backend of the given kind.
    pub fn new(kind: ProviderKind, inner: Box<dyn ProviderImpl>) -> (r: Self)
        ensures
            r.spec_kind() == kind,
    {
        ConnectedProvider { kind, inner }
    }

    /// Whether `outcome` is the backend's answer to sending `action` to
    /// `target`: see [`ProviderImpl::answers_execute`].
    pub closed spec fn answers_execute(
        &self,
        target: Option<&ProviderTarget>,
        action: ResolvedVibrateAction,
        outcome: Result<(), ProviderError>,
    ) -> bool {
        (*self.inner).answers_execute(target, action, outcome)
    }

    /// The provider the connection belongs to.
    pub fn kind(&self) -> (r: ProviderKind)
        ensures
            r == self.spec_kind(),
    {
        self.kind
    }

    /// The targets the backend can currently address, as the backend
    /// answers; what it answers depends on the devices and is not stated.
    pub fn list_targets(&self) -> Result<Vec<ProviderTarget>, ProviderError> {
        self.inner.list_targets()
    }

    /// Sends the setup test vibration; whether the backend succeeds depends
    /// on the devices and is not stated.
    pub fn test_action(&self, target: Option<&ProviderTarget>) -> Result<(), ProviderError> {
        self.inner.test_action(target)
    }

    /// Sends a resolved action to the backend, for exactly the given target
    /// (every target for `None`): the result is the backend's answer to that
    /// request, and whether it succeeds depends on the devices.
    pub fn execute(&self, target: Option<&ProviderTarget>, action: ResolvedVibrateAction) -> (r: Result<
        (),
        ProviderError,
    >)
        ensures
            self.answers_execute(target, action, r),
    {
        self.inner.execute(target, action)
    }

    /// Ends the backend's session, with the backend's answer.
    pub fn disconnect(self) -> Result<(), ProviderError> {
        self.inner.disconnect()
    }

    /// Turns hardware scanning on, with the backend's answer.
    pub fn start_scanning(&self) -> Result<(), ProviderError> {
        self.inner.start_scanning()
    }

    /// Turns hardware scanning off, with the backend's answer.
    pub fn stop_scanning(&self) -> Result<(), ProviderError> {
        self.inner.stop_scanning()
    }
}

/// Connects the provider that `settings` select. A Lovense or Intiface setup
/// that is not present is refused before any backend is asked.
pub fn connect(settings: &ProviderSettings, connector: &dyn ProviderConnector) -> (r: Result<
    ConnectedProvider,
    ProviderError,
>)
    ensures
        !settings.is_present() ==> r == Err::<ConnectedProvider, ProviderError>(
            ProviderError::InvalidSetup,
        ),
        r matches Ok(provider) ==> provider.spec_kind() == settings.spec_kind(),
{
    let kind = settings.kind();
    let inner = match settings {
        ProviderSettings::Lovense(setup) => {
            if !setup.present() {
                return Err(ProviderError::InvalidSetup);
            }
            connector.connect_lovense(setup)
        },
        ProviderSettings::Local(setup) => connector.connect_local(setup),
        ProviderSettings::Intiface(setup) => {
            if !setup.present() {
                return Err(ProviderError::InvalidSetup);
            }
            connector.connect_intiface(setup)
        },
    };
    match inner {
        Ok(inner) => Ok(ConnectedProvider::new(kind, inner)),
        Err(error) => Err(error),
    }
}

/// A device that a buttplug server reports: its index, its name, and
/// whether it can vibrate.
#[derive(Debug, PartialEq, Eq)]
pub struct ButtplugDevice {
    pub index: u32,
    pub name: String,
    pub vibrates: bool,
}

/// The targets a buttplug server's devices offer: each device, identified by
/// its index in decimal, under its name.
pub fn buttplug_targets(devices: &Vec<ButtplugDevice>) -> (r: Vec<ProviderTarget>)
    ensures
        r@.len() == devices@.len(),
        forall|i: int| #![trigger r@[i]] 0 <= i < r@.len() ==> r@[i].id_view() == decimal(
            devices@[i].index as nat,
        ) && r@[i].name_view() == devices@[i].name@,
{
    let mut targets: Vec<ProviderTarget> = Vec::new();
    for i in 0..devices.len()
        invariant
            targets@.len() == i,
            forall|k: int| #![trigger targets@[k]] 0 <= k < i ==> targets@[k].id_view() == decimal(
                devices@[k].index as nat,
            ) && targets@[k].name_view() == devices@[k].name@,
    {
        let id = decimal_text(devices[i].index as u64);
        targets.push(ProviderTarget::new_any(id.as_str(), devices[i].name.as_str()));
    }
    targets
}

/// The first device whose decimal index is `id`.
pub open spec fn device_with_id(devices: Seq<ButtplugDevice>, id: Seq<char>) -> Option<u32>
    decreases devices.len(),
{
    if devices.len() == 0 {
        None
    } else if decimal(devices[0].index as nat) == id {
        Some(devices[0].index)
    } else {
        device_with_id(devices.drop_first(), id)
    }
}

/// The indices of the devices that can vibrate, in order.
pub open spec fn vibrating_indices(devices: Seq<ButtplugDevice>) -> Seq<u32>
    decreases devices.len(),
{
    if devices.len() == 0 {
        Seq::empty()
    } else {
        (if devices[0].vibrates {
            seq![devices[0].index]
        } else {
            Seq::empty()
        }) + vibrating_indices(devices.drop_first())
    }
}

/// The devices a vibration goes to: the selected target's device, which must
/// still be there, or else every device that can vibrate.
pub fn vibration_devices(devices: &Vec<ButtplugDevice>, target: Option<&ProviderTarget>) -> (r: Result<
    Vec<u32>,
    ProviderError,
>)
    ensures
        match target {
            Some(target) => match device_with_id(devices@, target.id_view()) {
                Some(index) => r matches Ok(chosen) && chosen@ == seq![index],
                None => r == Err::<Vec<u32>, ProviderError>(ProviderError::NotConnected),
            },
            None => r matches Ok(chosen) && chosen@ == vibrating_indices(devices@),
        },
{
    match target {
        Some(selected) => {
            let mut i: usize = 0;
            assert(devices@.skip(0) =~= devices@);
            while i < devices.len()
                invariant
                    0 <= i <= devices@.len(),
                    target == Some(selected),
                    device_with_id(devices@, selected.id_view()) == device_with_id(
                        devices@.skip(i as int),
                        selected.id_view(),
                    ),
                decreases devices@.len() - i,
            {
                assert(devices@.skip(i as int)[0] == devices@[i as int]);
                assert(devices@.skip(i as int).len() > 0);
                let id = decimal_text(devices[i].index as u64);
                if same_text(id.as_str(), selected.id().as_str()) {
                    assert(decimal(devices@[i as int].index as nat) == selected.id_view());
                    assert(device_with_id(devices@.skip(i as int), selected.id_view()) == Some(
                        devices@[i as int].index,
                    ));
                    let mut chosen: Vec<u32> = Vec::new();
                    chosen.push(devices[i].index);
                    return Ok(chosen);
                }
                assert(devices@.skip(i as int).drop_first() =~= devices@.skip(i + 1));
                i = i + 1;
            }
            Err(ProviderError::NotConnected)
        },
        None => {
            let mut chosen: Vec<u32> = Vec::new();
            let mut i: usize = 0;
            assert(devices@.skip(0) =~= devices@);
            while i < devices.len()
                invariant
                    0 <= i <= devices@.len(),
                    vibrating_indices(devices@) == chosen@ + vibrating_indices(devices@.skip(i as int)),
                decreases devices@.len() - i,
            {
                let ghost rest = devices@.skip(i as int);
                assert(rest[0] == devices@[i as int]);
                assert(rest.len() > 0);
                assert(rest.drop_first() =~= devices@.skip(i + 1));
                let ghost before = chosen@;
                if devices[i].vibrates {
                    chosen.push(devices[i].index);
                }
                assert(vibrating_indices(devices@) =~= chosen@ + vibrating_indices(devices@.skip(i + 1)));
                i = i + 1;
            }
            assert(devices@.skip(i as int) =~= Seq::<ButtplugDevice>::empty());
            assert(chosen@ + Seq::<u32>::empty() =~= chosen@);
            Ok(chosen)
        },
    }
}

} // verus!
