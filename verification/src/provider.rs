//! Provider setup, connection targets and provider errors.
use vstd::prelude::*;
use crate::providers::ProviderKind;
use crate::text::{append_text, blank, decimal, decimal_text, is_blank, owned, trimmed, trimmed_owned};

verus! {

/// The Lovense Connect/Remote domain used until the user enters another.
pub const DEFAULT_LOVENSE_DOMAIN: &'static str = "127-0-0-1.lovense.club";
/// The Lovense Connect/Remote HTTP port used until the user enters another.
pub const DEFAULT_LOVENSE_HTTP_PORT: u16 = 30010;
/// The Intiface Central address used until the user enters another.
pub const DEFAULT_INTIFACE_URL: &'static str = "ws://127.0.0.1:12345";

/// Where to reach the local Lovense Connect/Remote HTTP server.
#[derive(Debug, PartialEq, Eq)]
pub struct LovenseSetup {
    pub domain: String,
    pub http_port: u16,
}

impl Clone for LovenseSetup {
    fn clone(&self) -> (r: Self)
        ensures
            r == *self,
    {
        LovenseSetup { domain: self.domain.clone(), http_port: self.http_port }
    }
}

impl Default for LovenseSetup {
    fn default() -> (r: Self)
        ensures
            r.domain@ == DEFAULT_LOVENSE_DOMAIN@,
            r.http_port == DEFAULT_LOVENSE_HTTP_PORT,
    {
        LovenseSetup { domain: owned(DEFAULT_LOVENSE_DOMAIN), http_port: DEFAULT_LOVENSE_HTTP_PORT }
    }
}

impl LovenseSetup {
    /// Whether a domain and a non-zero port are both given.
    pub open spec fn is_present(&self) -> bool {
        !is_blank(self.domain@) && self.http_port != 0
    }

    /// The same setup with surrounding white space removed from the domain.
    pub fn normalized(&self) -> (r: Self)
        ensures
            r.domain@ == trimmed(self.domain@),
            r.http_port == self.http_port,
    {
        LovenseSetup { domain: trimmed_owned(self.domain.as_str()), http_port: self.http_port }
    }

    /// Whether a domain and a non-zero port are both given.
    pub fn present(&self) -> (r: bool)
        ensures
            r == self.is_present(),
    {
        !blank(self.domain.as_str()) && self.http_port != 0
    }
}

/// Configuration for the embedded provider, which needs no address.
#[derive(Clone, Copy, Debug, Default, PartialEq, Eq)]
pub struct LocalSetup;

/// Where to reach an externally running Intiface Central server.
#[derive(Debug, PartialEq, Eq)]
pub struct IntifaceSetup {
    pub websocket_url: String,
}

impl Clone for IntifaceSetup {
    fn clone(&self) -> (r: Self)
        ensures
            r == *self,
    {
        IntifaceSetup { websocket_url: self.websocket_url.clone() }
    }
}

impl Default for IntifaceSetup {
    fn default() -> (r: Self)
        ensures
            r.websocket_url@ == DEFAULT_INTIFACE_URL@,
    {
        IntifaceSetup { websocket_url: owned(DEFAULT_INTIFACE_URL) }
    }
}

impl IntifaceSetup {
    /// Whether an address is given.
    pub open spec fn is_present(&self) -> bool {
        !is_blank(self.websocket_url@)
    }

    /// The same setup with surrounding white space removed from the address.
    pub fn normalized(&self) -> (r: Self)
        ensures
            r.websocket_url@ == trimmed(self.websocket_url@),
    {
        IntifaceSetup { websocket_url: trimmed_owned(self.websocket_url.as_str()) }
    }

    /// Whether an address is given.
    pub fn present(&self) -> (r: bool)
        ensures
            r == self.is_present(),
    {
        !blank(self.websocket_url.as_str())
    }
}

/// The configuration of the active provider.
#[derive(Debug, PartialEq, Eq)]
pub enum ProviderSettings {
    Lovense(LovenseSetup),
    Local(LocalSetup),
    Intiface(IntifaceSetup),
}

impl Clone for ProviderSettings {
    fn clone(&self) -> (r: Self)
        ensures
            r == *self,
    {
        match self {
            ProviderSettings::Lovense(setup) => ProviderSettings::Lovense(setup.clone()),
            ProviderSettings::Local(setup) => ProviderSettings::Local(*setup),
            ProviderSettings::Intiface(setup) => ProviderSettings::Intiface(setup.clone()),
        }
    }
}

impl Default for ProviderSettings {
    fn default() -> (r: Self)
        ensures
            r matches ProviderSettings::Lovense(setup) && setup.domain@ == DEFAULT_LOVENSE_DOMAIN@
                && setup.http_port == DEFAULT_LOVENSE_HTTP_PORT,
    {
        ProviderSettings::Lovense(LovenseSetup::default())
    }
}

impl ProviderSettings {
    /// The provider these settings configure.
    pub open spec fn spec_kind(&self) -> ProviderKind {
        match self {
            ProviderSettings::Lovense(_) => ProviderKind::Lovense,
            ProviderSettings::Local(_) => ProviderKind::Local,
            ProviderSettings::Intiface(_) => ProviderKind::Intiface,
        }
    }

    /// Whether the settings hold everything a connection needs.
    pub open spec fn is_present(&self) -> bool {
        match self {
            ProviderSettings::Lovense(setup) => setup.is_present(),
            ProviderSettings::Local(_) => true,
            ProviderSettings::Intiface(setup) => setup.is_present(),
        }
    }

    /// The provider these settings configure.
    pub fn kind(&self) -> (r: ProviderKind)
        ensures
            r == self.spec_kind(),
    {
        match self {
            ProviderSettings::Lovense(_) => ProviderKind::Lovense,
            ProviderSettings::Local(_) => ProviderKind::Local,
            ProviderSettings::Intiface(_) => ProviderKind::Intiface,
        }
    }

    /// Whether the settings hold everything a connection needs.
    pub fn present(&self) -> (r: bool)
        ensures
            r == self.is_present(),
    {
        match self {
            ProviderSettings::Lovense(setup) => setup.present(),
            ProviderSettings::Local(_) => true,
            ProviderSettings::Intiface(setup) => setup.present(),
        }
    }

    /// Removes surrounding white space from the active provider's text fields.
    pub fn normalize(&mut self)
        ensures
            match *old(self) {
                ProviderSettings::Lovense(setup) => *final(self) matches ProviderSettings::Lovense(n)
                    && n.domain@ == trimmed(setup.domain@) && n.http_port == setup.http_port,
                ProviderSettings::Local(setup) => *final(self) == ProviderSettings::Local(setup),
                ProviderSettings::Intiface(setup) => *final(self) matches ProviderSettings::Intiface(n)
                    && n.websocket_url@ == trimmed(setup.websocket_url@),
            },
    {
        let next = match &*self {
            ProviderSettings::Lovense(setup) => ProviderSettings::Lovense(setup.normalized()),
            ProviderSettings::Local(setup) => ProviderSettings::Local(*setup),
            ProviderSettings::Intiface(setup) => ProviderSettings::Intiface(setup.normalized()),
        };
        *self = next;
    }

    /// The Lovense setup; the settings must be for Lovense.
    pub fn lovense(&self) -> (r: &LovenseSetup)
        requires
            self is Lovense,
        ensures
            *r == self->Lovense_0,
    {
        match self {
            ProviderSettings::Lovense(setup) => setup,
            _ => unreached(),
        }
    }

    /// The Lovense setup for editing; the settings must be for Lovense.
    pub fn lovense_mut(&mut self) -> (r: &mut LovenseSetup)
        requires
            *old(self) is Lovense,
        ensures
            *r == (*old(self))->Lovense_0,
            *final(self) == ProviderSettings::Lovense(*final(r)),
    {
        match self {
            ProviderSettings::Lovense(setup) => setup,
            _ => unreached(),
        }
    }

    /// The Intiface setup; the settings must be for Intiface.
    pub fn intiface(&self) -> (r: &IntifaceSetup)
        requires
            self is Intiface,
        ensures
            *r == self->Intiface_0,
    {
        match self {
            ProviderSettings::Intiface(setup) => setup,
            _ => unreached(),
        }
    }

    /// The Intiface setup for editing; the settings must be for Intiface.
    pub fn intiface_mut(&mut self) -> (r: &mut IntifaceSetup)
        requires
            *old(self) is Intiface,
        ensures
            *r == (*old(self))->Intiface_0,
            *final(self) == ProviderSettings::Intiface(*final(r)),
    {
        match self {
            ProviderSettings::Intiface(setup) => setup,
            _ => unreached(),
        }
    }
}

/// The identifier of a provider target.
pub type TargetId = String;

/// A toy or device that a provider can address.
#[derive(Debug, PartialEq, Eq)]
pub struct ProviderTarget {
    id: TargetId,
    name: String,
}

impl Clone for ProviderTarget {
    fn clone(&self) -> (r: Self)
        ensures
            r == *self,
    {
        ProviderTarget { id: self.id.clone(), name: self.name.clone() }
    }
}

impl ProviderTarget {
    /// The target's identifier.
    pub closed spec fn id_view(&self) -> Seq<char> {
        self.id@
    }

    /// The target's display name.
    pub closed spec fn name_view(&self) -> Seq<char> {
        self.name@
    }

    /// The target's identifier.
    pub fn id(&self) -> (r: &TargetId)
        ensures
            r@ == self.id_view(),
    {
        &self.id
    }

    /// The target's display name.
    pub fn name(&self) -> (r: &str)
        ensures
            r@ == self.name_view(),
    {
        self.name.as_str()
    }

    /// A target with the given identifier and name.
    pub fn new_any(id: &str, name: &str) -> (r: Self)
        ensures
            r.id_view() == id@,
            r.name_view() == name@,
    {
        ProviderTarget { id: owned(id), name: owned(name) }
    }
}

/// An error reported by the Lovense Connect/Remote local API.
#[derive(Debug, PartialEq, Eq)]
pub enum LovenseError {
    EmptyDomain,
    Transport(String),
    HttpStatus(u16),
    Decode { operation: String },
    CommandRejected { message: String },
    NoToysAvailable,
    ToyNotFound,
    InvalidStrength,
    InvalidDuration,
}

impl Clone for LovenseError {
    fn clone(&self) -> (r: Self)
        ensures
            r == *self,
    {
        match self {
            LovenseError::EmptyDomain => LovenseError::EmptyDomain,
            LovenseError::Transport(detail) => LovenseError::Transport(detail.clone()),
            LovenseError::HttpStatus(status) => LovenseError::HttpStatus(*status),
            LovenseError::Decode { operation } => LovenseError::Decode { operation: operation.clone() },
            LovenseError::CommandRejected { message } => LovenseError::CommandRejected {
                message: message.clone(),
            },
            LovenseError::NoToysAvailable => LovenseError::NoToysAvailable,
            LovenseError::ToyNotFound => LovenseError::ToyNotFound,
            LovenseError::InvalidStrength => LovenseError::InvalidStrength,
            LovenseError::InvalidDuration => LovenseError::InvalidDuration,
        }
    }
}

impl LovenseError {
    /// The technical description of the error.
    pub open spec fn spec_message(&self) -> Seq<char> {
        match self {
            LovenseError::EmptyDomain => "connection domain must not be empty"@,
            LovenseError::Transport(detail) => "Lovense transport error: "@ + detail@,
            LovenseError::HttpStatus(status) => "Lovense returned HTTP status "@ + decimal(
                *status as nat,
            ),
            LovenseError::Decode { operation } => "invalid Lovense response for "@ + operation@,
            LovenseError::CommandRejected { message } => "Lovense command was rejected: "@
                + message@,
            LovenseError::NoToysAvailable => "no Lovense toy is connected"@,
            LovenseError::ToyNotFound => "the selected Lovense toy is not connected"@,
            LovenseError::InvalidStrength => "vibration strength must be between 0 and 20"@,
            LovenseError::InvalidDuration => "vibration duration is out of range"@,
        }
    }

    /// The technical description of the error.
    pub fn message(&self) -> (r: String)
        ensures
            r@ == self.spec_message(),
    {
        match self {
            LovenseError::EmptyDomain => owned("connection domain must not be empty"),
            LovenseError::Transport(detail) => {
                let mut s = owned("Lovense transport error: ");
                append_text(&mut s, detail.as_str());
                s
            },
            LovenseError::HttpStatus(status) => {
                let mut s = owned("Lovense returned HTTP status ");
                let digits = decimal_text(*status as u64);
                append_text(&mut s, digits.as_str());
                s
            },
            LovenseError::Decode { operation } => {
                let mut s = owned("invalid Lovense response for ");
                append_text(&mut s, operation.as_str());
                s
            },
            LovenseError::CommandRejected { message } => {
                let mut s = owned("Lovense command was rejected: ");
                append_text(&mut s, message.as_str());
                s
            },
            LovenseError::NoToysAvailable => owned("no Lovense toy is connected"),
            LovenseError::ToyNotFound => owned("the selected Lovense toy is not connected"),
            LovenseError::InvalidStrength => owned("vibration strength must be between 0 and 20"),
            LovenseError::InvalidDuration => owned("vibration duration is out of range"),
        }
    }
}

/// A failure to configure, reach or command a provider.
#[derive(Debug, PartialEq, Eq)]
pub enum ProviderError {
    Lovense(LovenseError),
    Buttplug(String),
    InvalidSetup,
    NotConnected,
}

impl Clone for ProviderError {
    fn clone(&self) -> (r: Self)
        ensures
            r == *self,
    {
        match self {
            ProviderError::Lovense(error) => ProviderError::Lovense(error.clone()),
            ProviderError::Buttplug(message) => ProviderError::Buttplug(message.clone()),
            ProviderError::InvalidSetup => ProviderError::InvalidSetup,
            ProviderError::NotConnected => ProviderError::NotConnected,
        }
    }
}

impl ProviderError {
    /// The technical description that is logged.
    pub open spec fn spec_message(&self) -> Seq<char> {
        match self {
            ProviderError::Lovense(error) => "Lovense: "@ + error.spec_message(),
            ProviderError::Buttplug(message) => message@,
            ProviderError::InvalidSetup => "provider setup is invalid"@,
            ProviderError::NotConnected => "provider is not connected"@,
        }
    }

    /// The plain-language explanation shown in the interface.
    pub open spec fn spec_user_message(&self) -> Seq<char> {
        match self {
            ProviderError::Lovense(LovenseError::EmptyDomain) => "Enter a connection domain first."@,
            ProviderError::Lovense(LovenseError::Transport(_)) => "Can't reach the Lovense app. Is Game Mode on?"@,
            ProviderError::Lovense(LovenseError::HttpStatus(_)) => "Lovense app didn't respond as expected."@,
            ProviderError::Lovense(LovenseError::Decode { .. }) => "Got an unexpected response from Lovense."@,
            ProviderError::Lovense(LovenseError::CommandRejected { message }) => "Lovense rejected the request: "@ + message@,
            ProviderError::Lovense(LovenseError::NoToysAvailable) => "No toy connected yet."@,
            ProviderError::Lovense(LovenseError::ToyNotFound) => "That toy isn't connected anymore."@,
            ProviderError::Lovense(LovenseError::InvalidStrength) => self.spec_message(),
            ProviderError::Lovense(LovenseError::InvalidDuration) => self.spec_message(),
            ProviderError::Buttplug(message) => message@,
            ProviderError::InvalidSetup => "Enter the required connection settings first."@,
            ProviderError::NotConnected => "Not connected yet."@,
        }
    }

    /// The technical description that is logged.
    pub fn message(&self) -> (r: String)
        ensures
            r@ == self.spec_message(),
    {
        match self {
            ProviderError::Lovense(error) => {
                let mut s = owned("Lovense: ");
                let inner = error.message();
                append_text(&mut s, inner.as_str());
                s
            },
            ProviderError::Buttplug(message) => message.clone(),
            ProviderError::InvalidSetup => owned("provider setup is invalid"),
            ProviderError::NotConnected => owned("provider is not connected"),
        }
    }

    /// A plain-language explanation suitable for display in the interface.
    pub fn user_message(&self) -> (r: String)
        ensures
            r@ == self.spec_user_message(),
    {
        match self {
            ProviderError::Lovense(LovenseError::EmptyDomain) => owned("Enter a connection domain first."),
            ProviderError::Lovense(LovenseError::Transport(_)) => owned("Can't reach the Lovense app. Is Game Mode on?"),
            ProviderError::Lovense(LovenseError::HttpStatus(_)) => owned("Lovense app didn't respond as expected."),
            ProviderError::Lovense(LovenseError::Decode { .. }) => owned("Got an unexpected response from Lovense."),
            ProviderError::Lovense(LovenseError::CommandRejected { message }) => {
                let mut s = owned("Lovense rejected the request: ");
                append_text(&mut s, message.as_str());
                s
            },
            ProviderError::Lovense(LovenseError::NoToysAvailable) => owned("No toy connected yet."),
            ProviderError::Lovense(LovenseError::ToyNotFound) => owned("That toy isn't connected anymore."),
            ProviderError::Lovense(LovenseError::InvalidStrength) => self.message(),
            ProviderError::Lovense(LovenseError::InvalidDuration) => self.message(),
            ProviderError::Buttplug(message) => message.clone(),
            ProviderError::InvalidSetup => owned("Enter the required connection settings first."),
            ProviderError::NotConnected => owned("Not connected yet."),
        }
    }
}

} // verus!
