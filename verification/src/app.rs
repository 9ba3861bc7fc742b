//! The companion's state and its decisions: which triggers fire which
//! actions, how provider connections, test actions, queued actions and the
//! game log listener move the state along. The interface, worker threads and
//! file watching run outside and hand their results to these functions.
use vstd::prelude::*;
use std::collections::{BTreeMap, BTreeSet};
use crate::action::{resolution_allowed, ActionValidationError, ResolvedVibrateAction, VibrateActionSettings};
use crate::provider::{IntifaceSetup, LovenseSetup, LocalSetup, ProviderError, ProviderSettings, ProviderTarget, TargetId};
use crate::providers::{ProviderKind, TargetPolicy};
use crate::text::{append_text, decimal, decimal_text, owned, trimmed, trimmed_owned, is_blank, blank};

verus! {

broadcast use {vstd::laws_cmp::group_laws_cmp, vstd::std_specs::btree::group_btree_axioms};

/// How many actions may wait for the worker at once.
pub const ACTION_QUEUE_CAPACITY: usize = 10;
/// How long a queued action stays worth sending, in milliseconds.
pub const MAX_ACTION_QUEUE_AGE_MS: u64 = 30000;

/// The game events that can fire an action.
#[derive(Clone, Copy, Debug, PartialEq, Eq, Structural)]
pub enum TriggerKind {
    Death,
    Kill,
    Assist,
    AbilityUse,
    AbilityCooldownReady,
}

impl TriggerKind {
    /// The name used in statuses and messages.
    pub open spec fn spec_label(self) -> Seq<char> {
        match self {
            TriggerKind::Death => "death"@,
            TriggerKind::Kill => "kill"@,
            TriggerKind::Assist => "assist"@,
            TriggerKind::AbilityUse => "ability use"@,
            TriggerKind::AbilityCooldownReady => "ability cooldown ready"@,
        }
    }

    /// The name used in statuses and messages.
    pub fn label(self) -> (r: &'static str)
        ensures
            r@ == self.spec_label(),
    {
        match self {
            TriggerKind::Death => "death",
            TriggerKind::Kill => "kill",
            TriggerKind::Assist => "assist",
            TriggerKind::AbilityUse => "ability use",
            TriggerKind::AbilityCooldownReady => "ability cooldown ready",
        }
    }

    /// Whether the trigger concerns an ability slot.
    pub open spec fn is_ability(self) -> bool {
        self is AbilityUse || self is AbilityCooldownReady
    }
}

/// Whether a trigger fires and which vibration it sends.
#[derive(Clone, Copy, Debug, PartialEq, Eq, Structural)]
pub struct TriggerSettings {
    pub enabled: bool,
    pub actions: VibrateActionSettings,
}

/// Which ability slots an ability trigger reacts to.
#[derive(Debug, PartialEq, Eq)]
pub enum AbilityFilter {
    All,
    Selected(BTreeSet<u32>),
}

impl AbilityFilter {
    /// Whether the filter lets `ability_slot` through.
    pub open spec fn spec_accepts(&self, ability_slot: u32) -> bool {
        match self {
            AbilityFilter::All => true,
            AbilityFilter::Selected(slots) => slots@.contains(ability_slot),
        }
    }

    /// Whether the filter lets `ability_slot` through.
    pub fn accepts(&self, ability_slot: u32) -> (r: bool)
        ensures
            r == self.spec_accepts(ability_slot),
    {
        match self {
            AbilityFilter::All => true,
            AbilityFilter::Selected(slots) => slots.contains(&ability_slot),
        }
    }
}

impl Default for AbilityFilter {
    fn default() -> (r: Self)
        ensures
            r is All,
    {
        AbilityFilter::All
    }
}

/// The settings of an ability trigger: the trigger itself and its slot filter.
#[derive(Debug, PartialEq, Eq)]
pub struct AbilityTriggerSettings {
    pub trigger: TriggerSettings,
    pub ability_filter: AbilityFilter,
}

/// The settings of every trigger.
#[derive(Debug, PartialEq, Eq)]
pub struct TriggerSettingsSet {
    pub death: TriggerSettings,
    pub kill: TriggerSettings,
    pub assist: TriggerSettings,
    pub ability_use: AbilityTriggerSettings,
    pub ability_cooldown_ready: AbilityTriggerSettings,
}

/// Whether `set` holds the defaults: only death enabled, every action at the
/// default vibration, every filter open.
pub open spec fn is_default_trigger_set(set: TriggerSettingsSet) -> bool {
    let actions = crate::action::default_action_settings();
    &&& set.death == TriggerSettings { enabled: true, actions }
    &&& set.kill == TriggerSettings { enabled: false, actions }
    &&& set.assist == TriggerSettings { enabled: false, actions }
    &&& set.ability_use.trigger == TriggerSettings { enabled: false, actions }
    &&& set.ability_use.ability_filter is All
    &&& set.ability_cooldown_ready.trigger == TriggerSettings { enabled: false, actions }
    &&& set.ability_cooldown_ready.ability_filter is All
}

impl Default for TriggerSettingsSet {
    fn default() -> (r: Self)
        ensures
            is_default_trigger_set(r),
    {
        let actions = VibrateActionSettings::default();
        TriggerSettingsSet {
            death: TriggerSettings { enabled: true, actions },
            kill: TriggerSettings { enabled: false, actions },
            assist: TriggerSettings { enabled: false, actions },
            ability_use: AbilityTriggerSettings {
                trigger: TriggerSettings { enabled: false, actions },
                ability_filter: AbilityFilter::All,
            },
            ability_cooldown_ready: AbilityTriggerSettings {
                trigger: TriggerSettings { enabled: false, actions },
                ability_filter: AbilityFilter::All,
            },
        }
    }
}

impl TriggerSettingsSet {
    /// The settings of the trigger `kind`.
    pub open spec fn spec_get(&self, kind: TriggerKind) -> TriggerSettings {
        match kind {
            TriggerKind::Death => self.death,
            TriggerKind::Kill => self.kill,
            TriggerKind::Assist => self.assist,
            TriggerKind::AbilityUse => self.ability_use.trigger,
            TriggerKind::AbilityCooldownReady => self.ability_cooldown_ready.trigger,
        }
    }

    /// The settings of the trigger `kind`.
    pub fn get(&self, kind: TriggerKind) -> (r: TriggerSettings)
        ensures
            r == self.spec_get(kind),
    {
        match kind {
            TriggerKind::Death => self.death,
            TriggerKind::Kill => self.kill,
            TriggerKind::Assist => self.assist,
            TriggerKind::AbilityUse => self.ability_use.trigger,
            TriggerKind::AbilityCooldownReady => self.ability_cooldown_ready.trigger,
        }
    }

    /// The slot filter of the trigger `kind`, for the ability triggers.
    pub open spec fn spec_ability_filter(&self, kind: TriggerKind) -> Option<&AbilityFilter> {
        match kind {
            TriggerKind::AbilityUse => Some(&self.ability_use.ability_filter),
            TriggerKind::AbilityCooldownReady => Some(&self.ability_cooldown_ready.ability_filter),
            _ => None,
        }
    }

    /// The slot filter of the trigger `kind`, for the ability triggers.
    pub fn ability_filter(&self, kind: TriggerKind) -> (r: Option<&AbilityFilter>)
        ensures
            r == self.spec_ability_filter(kind),
    {
        match kind {
            TriggerKind::Death | TriggerKind::Kill | TriggerKind::Assist => None,
            TriggerKind::AbilityUse => Some(&self.ability_use.ability_filter),
            TriggerKind::AbilityCooldownReady => Some(&self.ability_cooldown_ready.ability_filter),
        }
    }

    /// Replaces the vibration of the trigger `kind`, leaving everything else.
    pub fn set_actions(&mut self, kind: TriggerKind, actions: VibrateActionSettings)
        ensures
            final(self).spec_get(kind) == (TriggerSettings { enabled: old(self).spec_get(kind).enabled, actions }),
            forall|other: TriggerKind| other != kind ==> #[trigger] final(self).spec_get(other) == old(self).spec_get(other),
            final(self).ability_use.ability_filter == old(self).ability_use.ability_filter,
            final(self).ability_cooldown_ready.ability_filter == old(self).ability_cooldown_ready.ability_filter,
    {
        match kind {
            TriggerKind::Death => self.death.actions = actions,
            TriggerKind::Kill => self.kill.actions = actions,
            TriggerKind::Assist => self.assist.actions = actions,
            TriggerKind::AbilityUse => self.ability_use.trigger.actions = actions,
            TriggerKind::AbilityCooldownReady => self.ability_cooldown_ready.trigger.actions = actions,
        }
    }
}

/// What is known of the provider setup.
#[derive(Clone, Copy, Debug, PartialEq, Eq, Structural)]
pub enum CredentialState {
    Unknown,
    Testing,
    Valid,
    Invalid,
}

impl Default for CredentialState {
    fn default() -> (r: Self)
        ensures
            r is Unknown,
    {
        CredentialState::Unknown
    }
}

impl CredentialState {
    /// The status line shown for the setup.
    pub open spec fn spec_label(self) -> Seq<char> {
        match self {
            CredentialState::Unknown => "Provider setup not tested."@,
            CredentialState::Testing => "Testing provider setup…"@,
            CredentialState::Valid => "Provider setup valid."@,
            CredentialState::Invalid => "Provider setup invalid."@,
        }
    }

    /// The status line shown for the setup.
    pub fn label(self) -> (r: &'static str)
        ensures
            r@ == self.spec_label(),
    {
        match self {
            CredentialState::Unknown => "Provider setup not tested.",
            CredentialState::Testing => "Testing provider setup…",
            CredentialState::Valid => "Provider setup valid.",
            CredentialState::Invalid => "Provider setup invalid.",
        }
    }
}

/// The outcome of looking for the game's console log.
#[derive(Debug, PartialEq, Eq)]
pub enum LogDetectionStatus {
    Found,
    NotCreated,
    Failed(String),
}

/// The guidance shown when the game is installed but has not written its log.
pub const NOT_CREATED_GUIDANCE: &'static str = "Deadlock is installed, but console.log has not been created. Add -condebug to Deadlock's Steam launch options, then launch the game.";

impl LogDetectionStatus {
    /// The status line shown for the detection.
    pub open spec fn spec_label(&self) -> Seq<char> {
        match self {
            LogDetectionStatus::Found => "Found Deadlock console.log."@,
            LogDetectionStatus::NotCreated => NOT_CREATED_GUIDANCE@,
            LogDetectionStatus::Failed(message) => message@,
        }
    }

    /// The status line shown for the detection.
    pub fn label(&self) -> (r: &str)
        ensures
            r@ == self.spec_label(),
    {
        match self {
            LogDetectionStatus::Found => "Found Deadlock console.log.",
            LogDetectionStatus::NotCreated => NOT_CREATED_GUIDANCE,
            LogDetectionStatus::Failed(message) => message.as_str(),
        }
    }
}

/// Who asked for the log listener to start.
#[derive(Clone, Copy, Debug, PartialEq, Eq, Structural)]
pub enum LogListenerStartContext {
    Manual,
    Startup,
}

impl LogListenerStartContext {
    /// The name used in log records.
    pub fn label(self) -> (r: &'static str)
        ensures
            r@ == (match self {
                LogListenerStartContext::Manual => "manual"@,
                LogListenerStartContext::Startup => "startup"@,
            }),
    {
        match self {
            LogListenerStartContext::Manual => "manual",
            LogListenerStartContext::Startup => "startup",
        }
    }
}

/// The state of the test action.
#[derive(Debug, PartialEq, Eq)]
pub enum TestActionStatus {
    Sending,
    Sent,
    Failed(String),
}

impl TestActionStatus {
    /// The status line shown for the test action.
    pub open spec fn spec_label(&self) -> Seq<char> {
        match self {
            TestActionStatus::Sending => "Sending test sound…"@,
            TestActionStatus::Sent => "Test sound sent."@,
            TestActionStatus::Failed(message) => message@,
        }
    }

    /// The status line shown for the test action.
    pub fn label(&self) -> (r: &str)
        ensures
            r@ == self.spec_label(),
    {
        match self {
            TestActionStatus::Sending => "Sending test sound…",
            TestActionStatus::Sent => "Test sound sent.",
            TestActionStatus::Failed(message) => message.as_str(),
        }
    }
}

/// The page shown in the main window.
#[derive(Clone, Copy, Debug, PartialEq, Eq, Structural)]
pub enum AppSection {
    Setup,
    Effects,
    GameConnection,
}

impl Default for AppSection {
    fn default() -> (r: Self)
        ensures
            r is Setup,
    {
        AppSection::Setup
    }
}

impl AppSection {
    /// The page's title.
    pub fn label(self) -> (r: &'static str)
        ensures
            r@ == (match self {
                AppSection::Setup => "Setup"@,
                AppSection::Effects => "Effects"@,
                AppSection::GameConnection => "Game connection"@,
            }),
    {
        match self {
            AppSection::Setup => "Setup",
            AppSection::Effects => "Effects",
            AppSection::GameConnection => "Game connection",
        }
    }
}

/// One game event that can fire an action, with what identifies it.
#[derive(Debug, PartialEq, Eq)]
pub struct TriggerIdentity {
    pub kind: TriggerKind,
    pub session_id: String,
    pub sequence: u64,
    pub client_time_ms: u64,
    pub detection: String,
    pub ability_slot: Option<u32>,
    pub ability_name: Option<String>,
    pub charges_before: Option<u64>,
    pub charges_after: Option<u64>,
}

impl Clone for TriggerIdentity {
    fn clone(&self) -> (r: Self)
        ensures
            r == *self,
    {
        TriggerIdentity {
            kind: self.kind,
            session_id: self.session_id.clone(),
            sequence: self.sequence,
            client_time_ms: self.client_time_ms,
            detection: self.detection.clone(),
            ability_slot: self.ability_slot,
            ability_name: match &self.ability_name {
                Some(name) => Some(name.clone()),
                None => None,
            },
            charges_before: self.charges_before,
            charges_after: self.charges_after,
        }
    }
}

/// `session#sequence`, the identity of an event within its game session.
pub open spec fn session_sequence(session_id: Seq<char>, sequence: u64) -> Seq<char> {
    session_id + "#"@ + decimal(sequence as nat)
}

impl TriggerIdentity {
    /// How a trigger is described in statuses: its kind and identity, and for
    /// ability triggers the slot, the ability's name where known, how it was
    /// detected, and the charge change where both counts are known.
    pub open spec fn spec_status_description(&self) -> Seq<char> {
        if !self.kind.is_ability() {
            self.kind.spec_label() + " "@ + session_sequence(self.session_id@, self.sequence)
        } else {
            let slot = match self.ability_slot {
                Some(slot) => slot,
                None => 0u32,
            };
            let name = match self.ability_name {
                Some(name) => " ("@ + name@ + ")"@,
                None => Seq::empty(),
            };
            let charges = match (self.charges_before, self.charges_after) {
                (Some(before), Some(after)) => ", charges "@ + decimal(before as nat) + "→"@
                    + decimal(after as nat),
                _ => Seq::empty(),
            };
            self.kind.spec_label() + " slot "@ + decimal(slot as nat) + name + ", detection "@
                + self.detection@ + charges + ", "@ + session_sequence(self.session_id@, self.sequence)
        }
    }

    /// How the trigger is described in statuses.
    pub fn status_description(&self) -> (r: String)
        ensures
            r@ == self.spec_status_description(),
    {
        let mut s = owned(self.kind.label());
        match self.kind {
            TriggerKind::Death | TriggerKind::Kill | TriggerKind::Assist => {
                append_text(&mut s, " ");
                append_text(&mut s, self.session_id.as_str());
                append_text(&mut s, "#");
                let sequence = decimal_text(self.sequence);
                append_text(&mut s, sequence.as_str());
                return s;
            },
            _ => {},
        }
        append_text(&mut s, " slot ");
        let slot = match self.ability_slot {
            Some(slot) => slot,
            None => 0u32,
        };
        let slot_text = decimal_text(slot as u64);
        append_text(&mut s, slot_text.as_str());
        match &self.ability_name {
            Some(name) => {
                append_text(&mut s, " (");
                append_text(&mut s, name.as_str());
                append_text(&mut s, ")");
            },
            None => {},
        }
        append_text(&mut s, ", detection ");
        append_text(&mut s, self.detection.as_str());
        match (self.charges_before, self.charges_after) {
            (Some(before), Some(after)) => {
                append_text(&mut s, ", charges ");
                let before_text = decimal_text(before);
                append_text(&mut s, before_text.as_str());
                append_text(&mut s, "→");
                let after_text = decimal_text(after);
                append_text(&mut s, after_text.as_str());
            },
            _ => {},
        }
        append_text(&mut s, ", ");
        append_text(&mut s, self.session_id.as_str());
        append_text(&mut s, "#");
        let sequence = decimal_text(self.sequence);
        append_text(&mut s, sequence.as_str());
        s
    }
}

/// An action on its way to the worker: the provider and target, the
/// resolved vibration, the trigger that fired it and when it was queued, in
/// milliseconds of the application's monotonic clock.
#[derive(Debug, PartialEq, Eq)]
pub struct ActionRequest {
    pub provider: ProviderKind,
    pub target: Option<ProviderTarget>,
    pub resolved: ResolvedVibrateAction,
    pub trigger: TriggerIdentity,
    pub queued_at_ms: u64,
}

impl Clone for ActionRequest {
    fn clone(&self) -> (r: Self)
        ensures
            r == *self,
    {
        ActionRequest {
            provider: self.provider,
            target: match &self.target {
                Some(target) => Some(target.clone()),
                None => None,
            },
            resolved: self.resolved,
            trigger: self.trigger.clone(),
            queued_at_ms: self.queued_at_ms,
        }
    }
}

/// What a status records of an action: the provider and target, the
/// vibration where the settings resolved, and the trigger.
#[derive(Debug, PartialEq, Eq)]
pub struct ActionSnapshot {
    pub provider: ProviderKind,
    pub target: Option<ProviderTarget>,
    pub resolved: Option<ResolvedVibrateAction>,
    pub trigger: TriggerIdentity,
}

impl ActionSnapshot {
    /// The snapshot of a request.
    pub open spec fn spec_from_request(request: ActionRequest) -> ActionSnapshot {
        ActionSnapshot {
            provider: request.provider,
            target: request.target,
            resolved: Some(request.resolved),
            trigger: request.trigger,
        }
    }

    /// The snapshot of a request.
    pub fn from_request(request: &ActionRequest) -> (r: Self)
        ensures
            r == Self::spec_from_request(*request),
    {
        let copy = request.clone();
        ActionSnapshot {
            provider: copy.provider,
            target: copy.target,
            resolved: Some(copy.resolved),
            trigger: copy.trigger,
        }
    }
}

/// The outcome of the latest action.
#[derive(Debug, PartialEq, Eq)]
pub enum ActionStatus {
    Sending(ActionRequest),
    Sent(ActionRequest),
    Failed { request: ActionRequest, error: String },
    Skipped { snapshot: ActionSnapshot, reason: String },
}

impl ActionStatus {
    /// What the status records of its action.
    pub open spec fn spec_snapshot(&self) -> ActionSnapshot {
        match self {
            ActionStatus::Sending(request) => ActionSnapshot::spec_from_request(*request),
            ActionStatus::Sent(request) => ActionSnapshot::spec_from_request(*request),
            ActionStatus::Failed { request, .. } => ActionSnapshot::spec_from_request(*request),
            ActionStatus::Skipped { snapshot, .. } => *snapshot,
        }
    }

    /// What the status records of its action.
    pub fn snapshot(&self) -> (r: ActionSnapshot)
        ensures
            r == self.spec_snapshot(),
    {
        match self {
            ActionStatus::Sending(request) => ActionSnapshot::from_request(request),
            ActionStatus::Sent(request) => ActionSnapshot::from_request(request),
            ActionStatus::Failed { request, .. } => ActionSnapshot::from_request(request),
            ActionStatus::Skipped { snapshot, .. } => ActionSnapshot {
                provider: snapshot.provider,
                target: match &snapshot.target {
                    Some(target) => Some(target.clone()),
                    None => None,
                },
                resolved: snapshot.resolved,
                trigger: snapshot.trigger.clone(),
            },
        }
    }

    /// The status line: the provider, what happened to the vibration, the
    /// target, the vibration, the trigger, and the error or reason.
    pub open spec fn spec_label(&self) -> Seq<char> {
        let snapshot = self.spec_snapshot();
        let target = match snapshot.target {
            Some(target) => target.name_view(),
            None => "no target"@,
        };
        let resolved = match snapshot.resolved {
            Some(resolved) => resolved.spec_summary(),
            None => "settings unavailable"@,
        };
        let trigger = snapshot.trigger.spec_status_description();
        let provider = snapshot.provider.spec_label();
        let (prefix, verb) = match self {
            ActionStatus::Sending(_) => (": Sending "@, " to "@),
            ActionStatus::Sent(_) => (": "@, " sent to "@),
            ActionStatus::Failed { .. } => (": "@, " failed for "@),
            ActionStatus::Skipped { .. } => (": "@, " skipped for "@),
        };
        let base = provider + prefix + "vibrate"@ + verb + target + " at "@ + resolved + " ("@
            + trigger + ")"@;
        match self {
            ActionStatus::Sending(_) => base + "…"@,
            ActionStatus::Sent(_) => base + "."@,
            ActionStatus::Failed { error, .. } => base + ": "@ + error@,
            ActionStatus::Skipped { reason, .. } => base + ": "@ + reason@,
        }
    }

    /// The status line shown for the latest action.
    pub fn label(&self) -> (r: String)
        ensures
            r@ == self.spec_label(),
    {
        let snapshot = self.snapshot();
        let mut s = owned(snapshot.provider.label());
        match self {
            ActionStatus::Sending(_) => append_text(&mut s, ": Sending "),
            ActionStatus::Sent(_) => append_text(&mut s, ": "),
            ActionStatus::Failed { .. } => append_text(&mut s, ": "),
            ActionStatus::Skipped { .. } => append_text(&mut s, ": "),
        }
        append_text(&mut s, snapshot.provider.action_label());
        match self {
            ActionStatus::Sending(_) => append_text(&mut s, " to "),
            ActionStatus::Sent(_) => append_text(&mut s, " sent to "),
            ActionStatus::Failed { .. } => append_text(&mut s, " failed for "),
            ActionStatus::Skipped { .. } => append_text(&mut s, " skipped for "),
        }
        match &snapshot.target {
            Some(target) => append_text(&mut s, target.name()),
            None => append_text(&mut s, "no target"),
        }
        append_text(&mut s, " at ");
        match snapshot.resolved {
            Some(resolved) => {
                let summary = resolved.summary();
                append_text(&mut s, summary.as_str());
            },
            None => append_text(&mut s, "settings unavailable"),
        }
        append_text(&mut s, " (");
        let trigger = snapshot.trigger.status_description();
        append_text(&mut s, trigger.as_str());
        append_text(&mut s, ")");
        match self {
            ActionStatus::Sending(_) => append_text(&mut s, "…"),
            ActionStatus::Sent(_) => append_text(&mut s, "."),
            ActionStatus::Failed { error, .. } => {
                append_text(&mut s, ": ");
                append_text(&mut s, error.as_str());
            },
            ActionStatus::Skipped { reason, .. } => {
                append_text(&mut s, ": ");
                append_text(&mut s, reason.as_str());
            },
        }
        s
    }
}

/// What became of handing a request to the worker's bounded queue.
#[derive(Clone, Copy, Debug, PartialEq, Eq, Structural)]
pub enum ActionEnqueueResult {
    Accepted,
    Full,
    Disconnected,
}

/// What the worker reports of a request: the provider's answer, or why it was
/// not sent.
#[derive(Debug, PartialEq, Eq)]
pub enum ActionCompletionResult {
    Completed(Result<(), ProviderError>),
    Skipped { reason: String },
}

/// Whether an action queued at `queued_at_ms` is too old to send at `now_ms`.
pub open spec fn spec_action_job_expired_at(queued_at_ms: u64, now_ms: u64) -> bool {
    now_ms >= queued_at_ms && now_ms - queued_at_ms >= MAX_ACTION_QUEUE_AGE_MS
}

/// Whether an action queued at `queued_at_ms` is too old to send at `now_ms`;
/// a clock that reads earlier than the queueing counts as no time passed.
pub fn action_job_expired_at(queued_at_ms: u64, now_ms: u64) -> (r: bool)
    ensures
        r == spec_action_job_expired_at(queued_at_ms, now_ms),
{
    let elapsed = if now_ms >= queued_at_ms {
        now_ms - queued_at_ms
    } else {
        0
    };
    elapsed >= MAX_ACTION_QUEUE_AGE_MS
}

/// The game session reported that the mod's hook is active.
#[derive(Debug, PartialEq, Eq)]
pub struct HookReady {
    pub schema: u32,
    pub session_id: String,
    pub client_time_ms: u64,
    pub poll_interval_ms: u64,
}

/// One ability in the game's catalog.
#[derive(Debug, PartialEq, Eq)]
pub struct AbilityCatalogEntry {
    pub ability_slot: u32,
    pub ability_name: Option<String>,
}

/// The abilities of the local player's hero.
#[derive(Debug, PartialEq, Eq)]
pub struct AbilityCatalog {
    pub schema: u32,
    pub session_id: String,
    pub client_time_ms: u64,
    pub abilities: Vec<AbilityCatalogEntry>,
}

/// The local player died.
#[derive(Debug, PartialEq, Eq)]
pub struct LocalPlayerDeath {
    pub session_id: String,
    pub sequence: u64,
    pub client_time_ms: u64,
    pub detection: String,
}

/// A kill or assist of the local player, with the counter before and after.
#[derive(Debug, PartialEq, Eq)]
pub struct CountTrigger {
    pub session_id: String,
    pub sequence: u64,
    pub client_time_ms: u64,
    pub detection: String,
    pub count_before: Option<u64>,
    pub count_after: Option<u64>,
}

/// An ability was used or became ready again.
#[derive(Debug, PartialEq, Eq)]
pub struct AbilityTrigger {
    pub session_id: String,
    pub sequence: u64,
    pub client_time_ms: u64,
    pub ability_slot: u32,
    pub ability_name: Option<String>,
    pub detection: String,
    pub charges_before: Option<u64>,
    pub charges_after: Option<u64>,
}

/// A record from the game mod.
#[derive(Debug, PartialEq, Eq)]
pub enum BridgeEvent {
    HookReady(HookReady),
    AbilityCatalog(AbilityCatalog),
    LocalPlayerDeath(LocalPlayerDeath),
    LocalPlayerKill(CountTrigger),
    LocalPlayerAssist(CountTrigger),
    AbilityUsed(AbilityTrigger),
    AbilityCooldownReady(AbilityTrigger),
}

/// Where the game's console log is, as far as detection found it.
#[derive(Debug, PartialEq, Eq)]
pub enum Detection {
    Ready { path: String },
    NotCreated { path: String },
}

fn clone_option_text(value: &Option<String>) -> (r: Option<String>)
    ensures
        r == *value,
{
    match value {
        Some(text) => Some(text.clone()),
        None => None,
    }
}

impl TriggerIdentity {
    /// The trigger of a death.
    pub open spec fn spec_from_death(death: LocalPlayerDeath) -> TriggerIdentity {
        TriggerIdentity {
            kind: TriggerKind::Death,
            session_id: death.session_id,
            sequence: death.sequence,
            client_time_ms: death.client_time_ms,
            detection: death.detection,
            ability_slot: None,
            ability_name: None,
            charges_before: None,
            charges_after: None,
        }
    }

    /// The trigger of an ability event of the given kind.
    pub open spec fn spec_from_ability(kind: TriggerKind, ability: AbilityTrigger) -> TriggerIdentity {
        TriggerIdentity {
            kind,
            session_id: ability.session_id,
            sequence: ability.sequence,
            client_time_ms: ability.client_time_ms,
            detection: ability.detection,
            ability_slot: Some(ability.ability_slot),
            ability_name: ability.ability_name,
            charges_before: ability.charges_before,
            charges_after: ability.charges_after,
        }
    }

    /// The trigger of a kill or assist: the counts stand where the charges do.
    pub open spec fn spec_from_count(kind: TriggerKind, count: CountTrigger) -> TriggerIdentity {
        TriggerIdentity {
            kind,
            session_id: count.session_id,
            sequence: count.sequence,
            client_time_ms: count.client_time_ms,
            detection: count.detection,
            ability_slot: None,
            ability_name: None,
            charges_before: count.count_before,
            charges_after: count.count_after,
        }
    }

    /// The trigger of a death.
    pub fn from_death(death: &LocalPlayerDeath) -> (r: Self)
        ensures
            r == Self::spec_from_death(*death),
    {
        TriggerIdentity {
            kind: TriggerKind::Death,
            session_id: death.session_id.clone(),
            sequence: death.sequence,
            client_time_ms: death.client_time_ms,
            detection: death.detection.clone(),
            ability_slot: None,
            ability_name: None,
            charges_before: None,
            charges_after: None,
        }
    }

    /// The trigger of an ability event of the given kind.
    pub fn from_ability(kind: TriggerKind, ability: &AbilityTrigger) -> (r: Self)
        ensures
            r == Self::spec_from_ability(kind, *ability),
    {
        TriggerIdentity {
            kind,
            session_id: ability.session_id.clone(),
            sequence: ability.sequence,
            client_time_ms: ability.client_time_ms,
            detection: ability.detection.clone(),
            ability_slot: Some(ability.ability_slot),
            ability_name: clone_option_text(&ability.ability_name),
            charges_before: ability.charges_before,
            charges_after: ability.charges_after,
        }
    }

    /// The trigger of a kill or assist.
    pub fn from_count(kind: TriggerKind, count: &CountTrigger) -> (r: Self)
        ensures
            r == Self::spec_from_count(kind, *count),
    {
        TriggerIdentity {
            kind,
            session_id: count.session_id.clone(),
            sequence: count.sequence,
            client_time_ms: count.client_time_ms,
            detection: count.detection.clone(),
            ability_slot: None,
            ability_name: None,
            charges_before: count.count_before,
            charges_after: count.count_after,
        }
    }
}

/// The trigger a bridge record fires, if it is one that can fire an action.
pub open spec fn event_trigger(event: BridgeEvent) -> Option<TriggerIdentity> {
    match event {
        BridgeEvent::HookReady(_) => None,
        BridgeEvent::AbilityCatalog(_) => None,
        BridgeEvent::LocalPlayerDeath(death) => Some(TriggerIdentity::spec_from_death(death)),
        BridgeEvent::LocalPlayerKill(kill) => Some(TriggerIdentity::spec_from_count(TriggerKind::Kill, kill)),
        BridgeEvent::LocalPlayerAssist(assist) => Some(TriggerIdentity::spec_from_count(TriggerKind::Assist, assist)),
        BridgeEvent::AbilityUsed(ability) => Some(TriggerIdentity::spec_from_ability(TriggerKind::AbilityUse, ability)),
        BridgeEvent::AbilityCooldownReady(ability) => Some(
            TriggerIdentity::spec_from_ability(TriggerKind::AbilityCooldownReady, ability),
        ),
    }
}

/// The view of an optional text.
pub open spec fn option_view(value: Option<String>) -> Option<Seq<char>> {
    match value {
        Some(text) => Some(text@),
        None => None,
    }
}

/// The first of `devices` with the identifier `id`.
pub open spec fn first_with_id(devices: Seq<ProviderTarget>, id: Seq<char>) -> Option<ProviderTarget>
    decreases devices.len(),
{
    if devices.len() == 0 {
        None
    } else if devices[0].id_view() == id {
        Some(devices[0])
    } else {
        first_with_id(devices.drop_first(), id)
    }
}

/// The trigger that the copy control offers first for `destination`.
pub open spec fn spec_first_copy_source(destination: TriggerKind) -> TriggerKind {
    match destination {
        TriggerKind::Death => TriggerKind::AbilityUse,
        _ => TriggerKind::Death,
    }
}

/// The trigger that the copy control offers first for `destination`.
pub fn first_copy_source(destination: TriggerKind) -> (r: TriggerKind)
    ensures
        r == spec_first_copy_source(destination),
{
    match destination {
        TriggerKind::Death => TriggerKind::AbilityUse,
        TriggerKind::Kill | TriggerKind::Assist | TriggerKind::AbilityUse | TriggerKind::AbilityCooldownReady => TriggerKind::Death,
    }
}

/// The first of `devices` with the identifier `id`.
pub fn target_with_id<'a>(devices: &'a Vec<ProviderTarget>, id: &str) -> (r: Option<&'a ProviderTarget>)
    ensures
        match r {
            Some(target) => first_with_id(devices@, id@) == Some(*target),
            None => first_with_id(devices@, id@) is None,
        },
{
    let mut i: usize = 0;
    assert(devices@.skip(0) =~= devices@);
    while i < devices.len()
        invariant
            0 <= i <= devices@.len(),
            first_with_id(devices@, id@) == first_with_id(devices@.skip(i as int), id@),
        decreases devices@.len() - i,
    {
        let device = &devices[i];
        assert(devices@.skip(i as int)[0] == *device);
        assert(devices@.skip(i as int).len() > 0);
        if crate::text::same_text(device.id().as_str(), id) {
            return Some(device);
        }
        assert(devices@.skip(i as int).drop_first() =~= devices@.skip(i + 1));
        i = i + 1;
    }
    None
}

/// Everything the companion knows and decides: the provider setup and its
/// connection, the trigger settings, the latest statuses, and the state of
/// the game log listener. The live provider client, the worker threads and
/// the listener itself run outside and report back through the methods.
#[derive(Debug)]
pub struct AppState {
    pub provider: ProviderKind,
    /// The Lovense setup, kept while another provider is active.
    pub lovense: LovenseSetup,
    /// The Intiface setup, kept while another provider is active.
    pub intiface: IntifaceSetup,
    pub credential_state: CredentialState,
    pub devices: Vec<ProviderTarget>,
    pub selected_device: Option<TargetId>,
    pub preferred_target: Option<TargetId>,
    pub triggers: TriggerSettingsSet,
    pub log_path: String,
    /// Whether a provider client is connected.
    pub connected: bool,
    pub connection_error: Option<String>,
    /// Whether a connection test is running.
    pub connection_pending: bool,
    /// Whether a test action is running.
    pub test_action_pending: bool,
    pub test_action_status: Option<TestActionStatus>,
    pub action_in_flight: usize,
    pub action_status: Option<ActionStatus>,
    pub log_detection_status: Option<LogDetectionStatus>,
    /// Whether the bridge events are being received.
    pub listener_subscribed: bool,
    pub last_bridge_event: Option<BridgeEvent>,
    pub last_sequence: Option<(String, u64)>,
    pub ability_catalog: BTreeMap<u32, Option<String>>,
    pub listener_action_error: Option<String>,
    pub selected_section: AppSection,
    pub selected_effect: TriggerKind,
    pub copy_source: TriggerKind,
    pub copy_feedback: Option<String>,
}

/// Whether everything the companion learns at runtime is as at startup: no
/// connection, targets, statuses, work in flight, listener or events.
pub open spec fn fresh_runtime(state: AppState) -> bool {
    &&& state.credential_state == CredentialState::Unknown
    &&& state.devices@.len() == 0
    &&& state.selected_device is None
    &&& !state.connected
    &&& state.connection_error is None
    &&& !state.connection_pending
    &&& !state.test_action_pending
    &&& state.test_action_status is None
    &&& state.action_in_flight == 0
    &&& state.action_status is None
    &&& state.log_detection_status is None
    &&& !state.listener_subscribed
    &&& state.last_bridge_event is None
    &&& state.last_sequence is None
    &&& state.ability_catalog@.len() == 0
    &&& state.listener_action_error is None
    &&& state.copy_feedback is None
}

/// Whether everything that is saved holds its default: the Lovense provider
/// with the default setups, no preferred target, the default triggers and no
/// log path.
pub open spec fn default_saved_fields(state: AppState) -> bool {
    &&& state.provider == ProviderKind::Lovense
    &&& state.lovense.domain@ == crate::provider::DEFAULT_LOVENSE_DOMAIN@
    &&& state.lovense.http_port == crate::provider::DEFAULT_LOVENSE_HTTP_PORT
    &&& state.intiface.websocket_url@ == crate::provider::DEFAULT_INTIFACE_URL@
    &&& state.preferred_target is None
    &&& is_default_trigger_set(state.triggers)
    &&& state.log_path@.len() == 0
}

/// The state the companion starts in, and returns to on a reset.
pub open spec fn is_initial_state(state: AppState) -> bool {
    &&& default_saved_fields(state)
    &&& fresh_runtime(state)
    &&& state.selected_section == AppSection::Setup
    &&& state.selected_effect == TriggerKind::Death
    &&& state.copy_source == TriggerKind::AbilityUse
}

impl Default for AppState {
    fn default() -> (r: Self)
        ensures
            is_initial_state(r),
    {
        let r = AppState {
            provider: ProviderKind::Lovense,
            lovense: LovenseSetup::default(),
            intiface: IntifaceSetup::default(),
            credential_state: CredentialState::Unknown,
            devices: Vec::new(),
            selected_device: None,
            preferred_target: None,
            triggers: TriggerSettingsSet::default(),
            log_path: String::new(),
            connected: false,
            connection_error: None,
            connection_pending: false,
            test_action_pending: false,
            test_action_status: None,
            action_in_flight: 0,
            action_status: None,
            log_detection_status: None,
            listener_subscribed: false,
            last_bridge_event: None,
            last_sequence: None,
            ability_catalog: BTreeMap::new(),
            listener_action_error: None,
            selected_section: AppSection::Setup,
            selected_effect: TriggerKind::Death,
            copy_source: TriggerKind::AbilityUse,
            copy_feedback: None,
        };
        r
    }
}

impl AppState {
    /// The settings the active provider connects with, taken from its bank.
    pub open spec fn spec_effective_provider_settings(&self) -> ProviderSettings {
        match self.provider {
            ProviderKind::Lovense => ProviderSettings::Lovense(self.lovense),
            ProviderKind::Local => ProviderSettings::Local(LocalSetup),
            ProviderKind::Intiface => ProviderSettings::Intiface(self.intiface),
        }
    }

    /// The selected target, if it is among the live targets.
    pub open spec fn spec_selected_device(&self) -> Option<ProviderTarget> {
        match self.selected_device {
            Some(id) => first_with_id(self.devices@, id@),
            None => None,
        }
    }

    /// Whether a connection test, a test action or an action is under way.
    pub open spec fn spec_is_busy(&self) -> bool {
        self.connection_pending || self.test_action_pending || self.action_in_flight != 0
    }

    /// The settings the active provider connects with, taken from its bank.
    pub fn effective_provider_settings(&self) -> (r: ProviderSettings)
        ensures
            r == self.spec_effective_provider_settings(),
    {
        match self.provider {
            ProviderKind::Lovense => ProviderSettings::Lovense(self.lovense.clone()),
            ProviderKind::Local => ProviderSettings::Local(LocalSetup),
            ProviderKind::Intiface => ProviderSettings::Intiface(self.intiface.clone()),
        }
    }

    /// Whether the active provider's setup is complete.
    pub fn credentials_present(&self) -> (r: bool)
        ensures
            r == self.spec_effective_provider_settings().is_present(),
    {
        let settings = self.effective_provider_settings();
        settings.present()
    }

    /// The selected target, if it is among the live targets.
    pub fn selected_device(&self) -> (r: Option<&ProviderTarget>)
        ensures
            match r {
                Some(target) => self.spec_selected_device() == Some(*target),
                None => self.spec_selected_device() is None,
            },
    {
        match &self.selected_device {
            Some(id) => target_with_id(&self.devices, id.as_str()),
            None => None,
        }
    }

    /// Whether a connection test, a test action or an action is under way.
    pub fn is_busy(&self) -> (r: bool)
        ensures
            r == self.spec_is_busy(),
    {
        self.connection_pending || self.test_action_pending || self.action_in_flight != 0
    }
}

/// The target chosen from fresh `devices`: the preferred one while it is
/// among them, else the first.
pub open spec fn chosen_target(devices: Seq<ProviderTarget>, preferred: Option<Seq<char>>) -> Option<
    Seq<char>,
> {
    match preferred {
        Some(id) if first_with_id(devices, id) is Some => Some(id),
        _ => if devices.len() > 0 {
            Some(devices[0].id_view())
        } else {
            None
        },
    }
}

/// The ability catalog built from `entries`: each named slot above zero, a
/// later entry for a slot replacing an earlier one.
pub open spec fn catalog_map(entries: Seq<AbilityCatalogEntry>) -> Map<u32, Option<String>>
    decreases entries.len(),
{
    if entries.len() == 0 {
        Map::empty()
    } else {
        let earlier = catalog_map(entries.drop_last());
        if entries.last().ability_slot > 0 {
            earlier.insert(entries.last().ability_slot, entries.last().ability_name)
        } else {
            earlier
        }
    }
}

impl AppState {
    /// The state after the provider connection is dropped: no client, no
    /// live targets, no connection or test action under way or reported.
    pub open spec fn spec_reset_connection(self, devices: Vec<ProviderTarget>) -> AppState {
        AppState {
            credential_state: CredentialState::Unknown,
            connected: false,
            connection_pending: false,
            devices,
            selected_device: None,
            connection_error: None,
            test_action_pending: false,
            test_action_status: None,
            ..self
        }
    }

    /// Drops the provider connection and everything learned from it; the
    /// preferred target stays.
    pub fn reset_connection(&mut self)
        ensures
            final(self).devices@.len() == 0,
            *final(self) == old(self).spec_reset_connection(final(self).devices),
    {
        self.credential_state = CredentialState::Unknown;
        self.connected = false;
        self.connection_pending = false;
        self.devices.clear();
        self.selected_device = None;
        self.connection_error = None;
        self.test_action_pending = false;
        self.test_action_status = None;
    }

    /// Switches to another provider, unless it is already active or work is
    /// under way: the connection is dropped and the preferred target is
    /// forgotten; each provider's setup stays in its bank.
    pub fn set_provider(&mut self, provider: ProviderKind)
        ensures
            (old(self).provider == provider || old(self).spec_is_busy()) ==> *final(self) == *old(
                self,
            ),
            !(old(self).provider == provider || old(self).spec_is_busy()) ==> {
                &&& final(self).devices@.len() == 0
                &&& *final(self) == (AppState {
                    provider,
                    preferred_target: None,
                    ..old(self).spec_reset_connection(final(self).devices)
                })
            },
    {
        if self.provider == provider {
            return;
        }
        if self.is_busy() {
            return;
        }
        self.provider = provider;
        self.preferred_target = None;
        self.reset_connection();
    }

    /// Takes fresh targets from the provider: the preferred target is
    /// selected again while it is among them, else the first is selected and
    /// preferred; the setup is known to be valid.
    pub fn apply_devices(&mut self, devices: Vec<ProviderTarget>)
        ensures
            final(self).devices@ == devices@,
            option_view(final(self).selected_device) == chosen_target(
                devices@,
                option_view(old(self).preferred_target),
            ),
            option_view(final(self).preferred_target) == chosen_target(
                devices@,
                option_view(old(self).preferred_target),
            ),
            *final(self) == (AppState {
                devices: final(self).devices,
                selected_device: final(self).selected_device,
                preferred_target: final(self).preferred_target,
                credential_state: CredentialState::Valid,
                test_action_status: None,
                connection_error: None,
                ..*old(self)
            }),
    {
        let kept = match &self.preferred_target {
            Some(preferred) => match target_with_id(&devices, preferred.as_str()) {
                Some(_) => Some(preferred.clone()),
                None => None,
            },
            None => None,
        };
        let selected = match kept {
            Some(id) => Some(id),
            None => if devices.len() > 0 {
                Some(devices[0].id().clone())
            } else {
                None
            },
        };
        self.preferred_target = clone_option_text(&selected);
        self.selected_device = selected;
        self.devices = devices;
        self.credential_state = CredentialState::Valid;
        self.test_action_status = None;
        self.connection_error = None;
    }

    /// Selects the live target `target` and prefers it from now on; an
    /// identifier that no live target has is refused.
    pub fn select_device(&mut self, target: TargetId) -> (r: bool)
        ensures
            r == (first_with_id(old(self).devices@, target@) is Some),
            !r ==> *final(self) == *old(self),
            r ==> {
                &&& option_view(final(self).selected_device) == Some(target@)
                &&& option_view(final(self).preferred_target) == Some(target@)
                &&& *final(self) == (AppState {
                    selected_device: final(self).selected_device,
                    preferred_target: final(self).preferred_target,
                    test_action_status: None,
                    ..*old(self)
                })
            },
    {
        match target_with_id(&self.devices, target.as_str()) {
            Some(_) => {},
            None => return false,
        }
        self.selected_device = Some(target.clone());
        self.preferred_target = Some(target);
        self.test_action_status = None;
        true
    }

    /// Starts a connection test: the connection is dropped and the setup is
    /// being tested. Gives the settings to connect with.
    pub fn begin_connection_test(&mut self) -> (r: ProviderSettings)
        ensures
            r == old(self).spec_effective_provider_settings(),
            final(self).devices@.len() == 0,
            *final(self) == (AppState {
                credential_state: CredentialState::Testing,
                connection_pending: true,
                ..old(self).spec_reset_connection(final(self).devices)
            }),
    {
        let settings = self.effective_provider_settings();
        self.reset_connection();
        self.credential_state = CredentialState::Testing;
        self.connection_error = None;
        self.connection_pending = true;
        settings
    }

    /// Records a failed connection; the preferred target stays.
    pub fn apply_connection_error(&mut self, error: ProviderError)
        ensures
            final(self).devices@.len() == 0,
            option_view(final(self).connection_error) == Some(error.spec_message()),
            *final(self) == (AppState {
                connected: false,
                connection_pending: false,
                test_action_pending: false,
                test_action_status: None,
                devices: final(self).devices,
                selected_device: None,
                credential_state: CredentialState::Invalid,
                connection_error: final(self).connection_error,
                ..*old(self)
            }),
    {
        self.connected = false;
        self.connection_pending = false;
        self.test_action_pending = false;
        self.test_action_status = None;
        self.devices.clear();
        self.selected_device = None;
        self.credential_state = CredentialState::Invalid;
        self.connection_error = Some(error.message());
    }

    /// Takes the outcome of a connection test: on success the client is
    /// connected and its targets are taken; on failure the error is recorded.
    pub fn apply_connection_result(&mut self, result: Result<Vec<ProviderTarget>, ProviderError>)
        ensures
            !final(self).connection_pending,
            match result {
                Ok(devices) => {
                    &&& final(self).connected
                    &&& final(self).devices@ == devices@
                    &&& final(self).credential_state == CredentialState::Valid
                    &&& option_view(final(self).selected_device) == chosen_target(
                        devices@,
                        option_view(old(self).preferred_target),
                    )
                    &&& option_view(final(self).preferred_target) == chosen_target(
                        devices@,
                        option_view(old(self).preferred_target),
                    )
                    &&& final(self).connection_error is None
                    &&& final(self).test_action_status is None
                },
                Err(error) => {
                    &&& !final(self).connected
                    &&& final(self).devices@.len() == 0
                    &&& final(self).selected_device is None
                    &&& final(self).preferred_target == old(self).preferred_target
                    &&& final(self).credential_state == CredentialState::Invalid
                    &&& option_view(final(self).connection_error) == Some(error.spec_message())
                    &&& !final(self).test_action_pending
                    &&& final(self).test_action_status is None
                },
            },
            final(self).provider == old(self).provider,
            final(self).triggers == old(self).triggers,
            final(self).action_in_flight == old(self).action_in_flight,
            final(self).last_sequence == old(self).last_sequence,
    {
        self.connection_pending = false;
        match result {
            Ok(devices) => {
                self.connected = true;
                self.apply_devices(devices);
            },
            Err(error) => self.apply_connection_error(error),
        }
    }

    /// Starts a test action on the selected target, if a provider is
    /// connected and its target policy accepts the selection. Gives the
    /// target to test, or nothing when the test is skipped.
    pub fn begin_test_action(&mut self) -> (r: Option<Option<ProviderTarget>>)
        ensures
            !old(self).connected ==> r is None && *final(self) == *old(self),
            old(self).connected ==> {
                &&& r == Some(old(self).spec_selected_device())
                &&& *final(self) == (AppState {
                    test_action_pending: true,
                    test_action_status: Some(TestActionStatus::Sending),
                    ..*old(self)
                })
            },
    {
        if !self.connected {
            return None;
        }
        let target = match self.selected_device() {
            Some(target) => Some(target.clone()),
            None => None,
        };
        if !self.provider.target_policy().accepts(target.is_some()) {
            return None;
        }
        self.test_action_status = Some(TestActionStatus::Sending);
        self.test_action_pending = true;
        Some(target)
    }

    /// Takes the outcome of a test action.
    pub fn apply_test_action_result(&mut self, result: Result<(), ProviderError>)
        ensures
            match result {
                Ok(()) => final(self).test_action_status == Some(TestActionStatus::Sent),
                Err(error) => final(self).test_action_status matches Some(
                    TestActionStatus::Failed(message),
                ) && message@ == "Test sound failed: "@ + error.spec_message(),
            },
            *final(self) == (AppState {
                test_action_pending: false,
                test_action_status: final(self).test_action_status,
                ..*old(self)
            }),
    {
        self.test_action_pending = false;
        match result {
            Ok(()) => self.test_action_status = Some(TestActionStatus::Sent),
            Err(error) => {
                let mut message = owned("Test sound failed: ");
                let detail = error.message();
                append_text(&mut message, detail.as_str());
                self.test_action_status = Some(TestActionStatus::Failed(message));
            },
        }
    }

    /// Copies the vibration of `source` onto `destination`, leaving whether
    /// each trigger is enabled and every ability filter as they were.
    pub fn copy_action_settings(&mut self, source: TriggerKind, destination: TriggerKind) -> (r: bool)
        ensures
            r == (source != destination),
            !r ==> *final(self) == *old(self),
            r ==> {
                &&& final(self).triggers.spec_get(destination) == (TriggerSettings {
                    enabled: old(self).triggers.spec_get(destination).enabled,
                    actions: old(self).triggers.spec_get(source).actions,
                })
                &&& forall|other: TriggerKind| other != destination ==> #[trigger] final(self).triggers.spec_get(other) == old(self).triggers.spec_get(other)
                &&& final(self).triggers.ability_use.ability_filter == old(self).triggers.ability_use.ability_filter
                &&& final(self).triggers.ability_cooldown_ready.ability_filter == old(self).triggers.ability_cooldown_ready.ability_filter
                &&& option_view(final(self).copy_feedback) == Some(
                    "Copied "@ + source.spec_label() + " "@ + "vibrate"@ + " settings to "@
                        + destination.spec_label() + "."@,
                )
                &&& *final(self) == (AppState {
                    triggers: final(self).triggers,
                    copy_feedback: final(self).copy_feedback,
                    ..*old(self)
                })
            },
    {
        if source == destination {
            return false;
        }
        let source_settings = self.triggers.get(source).actions;
        let mut copied = self.triggers.get(destination).actions;
        copied.copy_active_from(&source_settings);
        self.triggers.set_actions(destination, copied);
        let mut feedback = owned("Copied ");
        append_text(&mut feedback, source.label());
        append_text(&mut feedback, " ");
        append_text(&mut feedback, self.provider.action_label());
        append_text(&mut feedback, " settings to ");
        append_text(&mut feedback, destination.label());
        append_text(&mut feedback, ".");
        self.copy_feedback = Some(feedback);
        true
    }

    /// Shows the effect editor of `kind`: the copy control then offers
    /// another trigger than the one being edited, and old feedback goes.
    pub fn select_effect(&mut self, kind: TriggerKind)
        ensures
            *final(self) == (AppState {
                selected_effect: kind,
                copy_source: if old(self).copy_source == kind {
                    spec_first_copy_source(kind)
                } else {
                    old(self).copy_source
                },
                copy_feedback: None,
                ..*old(self)
            }),
    {
        self.selected_effect = kind;
        if self.copy_source == kind {
            self.copy_source = first_copy_source(kind);
        }
        self.copy_feedback = None;
    }

    /// Replaces the ability catalog with the one the game reported.
    pub fn replace_ability_catalog(&mut self, catalog: &AbilityCatalog)
        ensures
            final(self).ability_catalog@ == catalog_map(catalog.abilities@),
            *final(self) == (AppState { ability_catalog: final(self).ability_catalog, ..*old(self) }),
    {
        let mut map: BTreeMap<u32, Option<String>> = BTreeMap::new();
        let mut i: usize = 0;
        while i < catalog.abilities.len()
            invariant
                0 <= i <= catalog.abilities@.len(),
                map@ == catalog_map(catalog.abilities@.take(i as int)),
            decreases catalog.abilities@.len() - i,
        {
            let entry = &catalog.abilities[i];
            assert(catalog.abilities@.take(i + 1).drop_last() =~= catalog.abilities@.take(i as int));
            assert(catalog.abilities@.take(i + 1).last() == *entry);
            if entry.ability_slot > 0 {
                let name = clone_option_text(&entry.ability_name);
                map.insert(entry.ability_slot, name);
            }
            i = i + 1;
        }
        assert(catalog.abilities@.take(i as int) =~= catalog.abilities@);
        self.ability_catalog = map;
    }
}

/// The view of the latest handled event's session and sequence.
pub open spec fn sequence_view(last: Option<(String, u64)>) -> Option<(Seq<char>, u64)> {
    match last {
        Some((session, sequence)) => Some((session@, sequence)),
        None => None,
    }
}

/// Whether `trigger` comes after the latest handled event: a new session,
/// or a later sequence number in the same session.
pub open spec fn is_new_trigger(last: Option<(Seq<char>, u64)>, trigger: TriggerIdentity) -> bool {
    match last {
        Some((session, sequence)) => !(session == trigger.session_id@ && trigger.sequence <= sequence),
        None => true,
    }
}

/// The target an action goes to under `policy`.
pub open spec fn spec_target_for_policy(policy: TargetPolicy, selected: Option<ProviderTarget>) -> Option<
    ProviderTarget,
> {
    match policy {
        TargetPolicy::NoTarget => None,
        _ => selected,
    }
}

/// The target an action goes to under `policy`: none for providers without
/// targets, else the selected one.
pub fn target_for_policy(policy: TargetPolicy, selected: Option<ProviderTarget>) -> (r: Option<ProviderTarget>)
    ensures
        r == spec_target_for_policy(policy, selected),
{
    match policy {
        TargetPolicy::NoTarget => None,
        TargetPolicy::Required | TargetPolicy::Optional => selected,
    }
}

/// Whether the trigger's settings let it fire: it is enabled and, for an
/// ability trigger, its filter accepts the slot.
pub open spec fn trigger_fires(state: AppState, trigger: TriggerIdentity) -> bool {
    &&& state.triggers.spec_get(trigger.kind).enabled
    &&& match (state.triggers.spec_ability_filter(trigger.kind), trigger.ability_slot) {
        (Some(filter), Some(slot)) => filter.spec_accepts(slot),
        _ => true,
    }
}

/// Whether `status` reports a skipped action with this snapshot's provider,
/// target and trigger, and the given reason.
pub open spec fn skipped_with(
    status: Option<ActionStatus>,
    provider: ProviderKind,
    target: Option<ProviderTarget>,
    trigger: TriggerIdentity,
    reason: Seq<char>,
) -> bool {
    status matches Some(ActionStatus::Skipped { snapshot, reason: text }) && snapshot.provider
        == provider && snapshot.target == target && snapshot.trigger == trigger && text@ == reason
}

/// One trigger taken from `old` to `new`, giving `request` for the worker.
/// A trigger that is not newer than the latest handled event changes
/// nothing. Otherwise it becomes the latest, and, if its settings let it
/// fire, its vibration is resolved for the provider's target: invalid
/// settings, a missing required target and a missing connection are each
/// reported as skipped; with a connection, the request is handed out and the
/// status waits for the queue's answer.
pub open spec fn trigger_step(
    old: AppState,
    trigger: TriggerIdentity,
    now_ms: u64,
    new: AppState,
    request: Option<ActionRequest>,
) -> bool {
    let provider = old.provider;
    let settings = old.triggers.spec_get(trigger.kind).actions;
    let target = spec_target_for_policy(provider.spec_target_policy(), old.spec_selected_device());
    if !is_new_trigger(sequence_view(old.last_sequence), trigger) {
        request is None && new == old
    } else {
        &&& sequence_view(new.last_sequence) == Some((trigger.session_id@, trigger.sequence))
        &&& new == (AppState {
            last_sequence: new.last_sequence,
            action_status: new.action_status,
            ..old
        })
        &&& if !trigger_fires(old, trigger) {
            request is None && new.action_status == old.action_status
        } else {
            match crate::action::action_bounds(settings) {
                Err(error) => {
                    &&& request is None
                    &&& skipped_with(
                        new.action_status,
                        provider,
                        target,
                        trigger,
                        "invalid action settings: "@ + error.spec_message(),
                    )
                    &&& new.action_status->Some_0->snapshot.resolved is None
                },
                Ok(_) => if !provider.spec_target_policy().spec_accepts(target is Some) {
                    &&& request is None
                    &&& skipped_with(new.action_status, provider, target, trigger, "no target is selected"@)
                    &&& skipped_resolution_allowed(new.action_status, settings)
                } else if !old.connected {
                    &&& request is None
                    &&& skipped_with(new.action_status, provider, target, trigger, "provider is not connected"@)
                    &&& skipped_resolution_allowed(new.action_status, settings)
                } else {
                    &&& new.action_status == old.action_status
                    &&& request matches Some(r)
                    &&& r.provider == provider
                    &&& r.target == target
                    &&& r.trigger == trigger
                    &&& r.queued_at_ms == now_ms
                    &&& crate::action::resolves_to(settings, r.resolved)
                },
            }
        }
    }
}

/// Whether a skipped status carries a vibration that `settings` resolve to.
pub open spec fn skipped_resolution_allowed(status: Option<ActionStatus>, settings: VibrateActionSettings) -> bool {
    status matches Some(ActionStatus::Skipped { snapshot, .. }) && snapshot.resolved matches Some(action)
        && crate::action::resolves_to(settings, action)
}

impl AppState {
    /// Records `trigger` as the latest handled event when it is newer than
    /// the one before; gives whether it was.
    pub fn trigger_is_new(&mut self, trigger: &TriggerIdentity) -> (r: bool)
        ensures
            r == is_new_trigger(sequence_view(old(self).last_sequence), *trigger),
            !r ==> *final(self) == *old(self),
            r ==> sequence_view(final(self).last_sequence) == Some((trigger.session_id@, trigger.sequence)),
            r ==> *final(self) == (AppState { last_sequence: final(self).last_sequence, ..*old(self) }),
    {
        match &self.last_sequence {
            Some((session_id, sequence)) => {
                if crate::text::same_text(session_id.as_str(), trigger.session_id.as_str())
                    && trigger.sequence <= *sequence {
                    return false;
                }
            },
            None => {},
        }
        self.last_sequence = Some((trigger.session_id.clone(), trigger.sequence));
        true
    }

    /// Takes one trigger from the game: see [`trigger_step`]. `now_ms` is the
    /// time the request is queued at.
    pub fn queue_trigger_action(&mut self, trigger: TriggerIdentity, now_ms: u64) -> (r: Option<ActionRequest>)
        ensures
            trigger_step(*old(self), trigger, now_ms, *final(self), r),
    {
        if !self.trigger_is_new(&trigger) {
            return None;
        }
        let settings = self.triggers.get(trigger.kind);
        if !settings.enabled {
            return None;
        }
        match (self.triggers.ability_filter(trigger.kind), trigger.ability_slot) {
            (Some(filter), Some(slot)) => {
                if !filter.accepts(slot) {
                    return None;
                }
            },
            _ => {},
        }
        let provider = self.provider;
        let policy = provider.target_policy();
        let selected = match self.selected_device() {
            Some(target) => Some(target.clone()),
            None => None,
        };
        let target = target_for_policy(policy, selected);
        let resolved = match settings.actions.resolve_checked() {
            Ok(resolved) => resolved,
            Err(error) => {
                let mut reason = owned("invalid action settings: ");
                let detail = error.message();
                append_text(&mut reason, detail.as_str());
                self.action_status = Some(ActionStatus::Skipped {
                    snapshot: ActionSnapshot { provider, target, resolved: None, trigger },
                    reason,
                });
                return None;
            },
        };
        if !policy.accepts(target.is_some()) {
            self.action_status = Some(ActionStatus::Skipped {
                snapshot: ActionSnapshot { provider, target, resolved: Some(resolved), trigger },
                reason: owned("no target is selected"),
            });
            return None;
        }
        let request = ActionRequest { provider, target, resolved, trigger, queued_at_ms: now_ms };
        if !self.connected {
            self.action_status = Some(ActionStatus::Skipped {
                snapshot: ActionSnapshot::from_request(&request),
                reason: owned("provider is not connected"),
            });
            return None;
        }
        Some(request)
    }
}

/// Whether `status` reports `request` as failed with the given error.
pub open spec fn failed_with(status: Option<ActionStatus>, request: ActionRequest, error: Seq<char>) -> bool {
    status matches Some(ActionStatus::Failed { request: r, error: text }) && r == request && text@ == error
}

/// Whether `status` reports `request` as skipped for the given reason.
pub open spec fn request_skipped_with(status: Option<ActionStatus>, request: ActionRequest, reason: Seq<char>) -> bool {
    status matches Some(ActionStatus::Skipped { snapshot, reason: text })
        && snapshot == ActionSnapshot::spec_from_request(request) && text@ == reason
}

/// One more action in flight, staying at the largest count.
pub open spec fn saturating_increment(count: usize) -> usize {
    if count == usize::MAX {
        count
    } else {
        (count + 1) as usize
    }
}

/// One fewer action in flight, staying at zero.
pub open spec fn saturating_decrement(count: usize) -> usize {
    if count == 0 {
        0
    } else {
        (count - 1) as usize
    }
}

/// One record of the game mod taken from `old` to `new`, giving `r`: see
/// [`AppState::handle_bridge_event`].
pub open spec fn bridge_step(
    old: AppState,
    event: BridgeEvent,
    now_ms: u64,
    new: AppState,
    r: Option<ActionRequest>,
) -> bool {
    match event_trigger(event) {
        Some(trigger) => trigger_step(
            AppState { last_bridge_event: Some(event), ..old },
            trigger,
            now_ms,
            new,
            r,
        ),
        None => {
            &&& r is None
            &&& new.ability_catalog@ == (match event {
                BridgeEvent::AbilityCatalog(catalog) => catalog_map(catalog.abilities@),
                _ => Map::empty(),
            })
            &&& new == (AppState {
                last_bridge_event: Some(event),
                ability_catalog: new.ability_catalog,
                ..old
            })
        },
    }
}

/// How a kill or assist record `count` was handled, for the trigger `kind`
/// with `settings`: a request carries this kind, the record's session and
/// sequence, and a vibration from these settings; a replayed record or a
/// disabled trigger sends nothing and reports nothing; an enabled trigger
/// with valid settings and a connection sends to the selected toy; and any
/// status reported is a skip of this kind.
pub open spec fn count_record_handled(
    old: AppState,
    count: CountTrigger,
    kind: TriggerKind,
    settings: TriggerSettings,
    now_ms: u64,
    new: AppState,
    r: Option<ActionRequest>,
) -> bool {
    let fresh = match sequence_view(old.last_sequence) {
        Some((session, sequence)) => !(session == count.session_id@ && count.sequence <= sequence),
        None => true,
    };
    &&& (r matches Some(request) ==> {
        &&& request.trigger.kind == kind
        &&& request.trigger.session_id@ == count.session_id@
        &&& request.trigger.sequence == count.sequence
        &&& request.queued_at_ms == now_ms
        &&& crate::action::resolves_to(settings.actions, request.resolved)
    })
    &&& (!fresh || !settings.enabled) ==> (r is None && new.action_status == old.action_status)
    &&& (fresh && settings.enabled && crate::action::action_bounds(settings.actions) is Ok && old.connected) ==> (
    r matches Some(request) && request.provider == old.provider && request.target == old.spec_selected_device())
    &&& new.action_status != old.action_status ==> (new.action_status matches Some(
        ActionStatus::Skipped { snapshot, .. },
    ) && snapshot.trigger.kind == kind)
}

/// A kill record fires the Kill trigger with the Kill settings, and an assist
/// record the Assist trigger with the Assist settings.
pub proof fn law_count_records_fire_their_own_trigger(
    old: AppState,
    event: BridgeEvent,
    now_ms: u64,
    new: AppState,
    r: Option<ActionRequest>,
)
    requires
        bridge_step(old, event, now_ms, new, r),
    ensures
        event matches BridgeEvent::LocalPlayerKill(kill) ==> count_record_handled(
            old,
            kill,
            TriggerKind::Kill,
            old.triggers.kill,
            now_ms,
            new,
            r,
        ),
        event matches BridgeEvent::LocalPlayerAssist(assist) ==> count_record_handled(
            old,
            assist,
            TriggerKind::Assist,
            old.triggers.assist,
            now_ms,
            new,
            r,
        ),
{
}

impl AppState {
    /// Takes the queue's answer for `request`: accepted requests are sending
    /// and in flight; a full queue skips the request; a closed queue fails it.
    pub fn apply_action_enqueue_result(&mut self, request: ActionRequest, result: ActionEnqueueResult)
        ensures
            match result {
                ActionEnqueueResult::Accepted => {
                    &&& final(self).action_status == Some(ActionStatus::Sending(request))
                    &&& final(self).action_in_flight == saturating_increment(old(self).action_in_flight)
                },
                ActionEnqueueResult::Full => {
                    &&& request_skipped_with(final(self).action_status, request, "action queue is full"@)
                    &&& final(self).action_in_flight == old(self).action_in_flight
                },
                ActionEnqueueResult::Disconnected => {
                    &&& failed_with(final(self).action_status, request, "action worker is unavailable"@)
                    &&& final(self).action_in_flight == old(self).action_in_flight
                },
            },
            *final(self) == (AppState {
                action_status: final(self).action_status,
                action_in_flight: final(self).action_in_flight,
                ..*old(self)
            }),
    {
        match result {
            ActionEnqueueResult::Accepted => {
                self.action_status = Some(ActionStatus::Sending(request));
                self.action_in_flight = if self.action_in_flight == usize::MAX {
                    self.action_in_flight
                } else {
                    self.action_in_flight + 1
                };
            },
            ActionEnqueueResult::Full => {
                self.action_status = Some(ActionStatus::Skipped {
                    snapshot: ActionSnapshot::from_request(&request),
                    reason: owned("action queue is full"),
                });
            },
            ActionEnqueueResult::Disconnected => {
                self.action_status = Some(ActionStatus::Failed {
                    request,
                    error: owned("action worker is unavailable"),
                });
            },
        }
    }

    /// Takes the worker's report on `request`: one fewer action is in flight,
    /// and the status says whether it was sent, failed, or skipped.
    pub fn apply_completion(&mut self, request: ActionRequest, result: ActionCompletionResult)
        ensures
            final(self).action_in_flight == saturating_decrement(old(self).action_in_flight),
            match result {
                ActionCompletionResult::Skipped { reason } => request_skipped_with(
                    final(self).action_status,
                    request,
                    reason@,
                ),
                ActionCompletionResult::Completed(Ok(())) => final(self).action_status == Some(
                    ActionStatus::Sent(request),
                ),
                ActionCompletionResult::Completed(Err(error)) => failed_with(
                    final(self).action_status,
                    request,
                    error.spec_message(),
                ),
            },
            *final(self) == (AppState {
                action_status: final(self).action_status,
                action_in_flight: final(self).action_in_flight,
                ..*old(self)
            }),
    {
        self.action_in_flight = if self.action_in_flight == 0 {
            0
        } else {
            self.action_in_flight - 1
        };
        match result {
            ActionCompletionResult::Skipped { reason } => {
                self.action_status = Some(ActionStatus::Skipped {
                    snapshot: ActionSnapshot::from_request(&request),
                    reason,
                });
            },
            ActionCompletionResult::Completed(Ok(())) => {
                self.action_status = Some(ActionStatus::Sent(request));
            },
            ActionCompletionResult::Completed(Err(error)) => {
                self.action_status = Some(ActionStatus::Failed { request, error: error.message() });
            },
        }
    }

    /// The worker is gone: nothing is in flight any more.
    pub fn apply_worker_disconnected(&mut self)
        ensures
            *final(self) == (AppState { action_in_flight: 0, ..*old(self) }),
    {
        self.action_in_flight = 0;
    }

    /// The bridge's event stream closed.
    pub fn apply_bridge_disconnected(&mut self)
        ensures
            *final(self) == (AppState { listener_subscribed: false, ..*old(self) }),
    {
        self.listener_subscribed = false;
    }

    /// Takes one record from the game mod: it becomes the latest event; a
    /// hook announcement empties the ability catalog, a catalog replaces it,
    /// and the other records are triggers, taken as [`trigger_step`] says.
    #[verifier::rlimit(50)]
    pub fn handle_bridge_event(&mut self, event: BridgeEvent, now_ms: u64) -> (r: Option<ActionRequest>)
        ensures
            bridge_step(*old(self), event, now_ms, *final(self), r),
            event matches BridgeEvent::LocalPlayerKill(kill) ==> count_record_handled(
                *old(self),
                kill,
                TriggerKind::Kill,
                old(self).triggers.kill,
                now_ms,
                *final(self),
                r,
            ),
            event matches BridgeEvent::LocalPlayerAssist(assist) ==> count_record_handled(
                *old(self),
                assist,
                TriggerKind::Assist,
                old(self).triggers.assist,
                now_ms,
                *final(self),
                r,
            ),
    {
        let trigger = match &event {
            BridgeEvent::HookReady(_) => {
                self.ability_catalog.clear();
                None
            },
            BridgeEvent::AbilityCatalog(catalog) => {
                self.replace_ability_catalog(catalog);
                None
            },
            BridgeEvent::LocalPlayerDeath(death) => Some(TriggerIdentity::from_death(death)),
            BridgeEvent::LocalPlayerKill(kill) => Some(TriggerIdentity::from_count(TriggerKind::Kill, kill)),
            BridgeEvent::LocalPlayerAssist(assist) => Some(
                TriggerIdentity::from_count(TriggerKind::Assist, assist),
            ),
            BridgeEvent::AbilityUsed(ability) => Some(
                TriggerIdentity::from_ability(TriggerKind::AbilityUse, ability),
            ),
            BridgeEvent::AbilityCooldownReady(ability) => Some(
                TriggerIdentity::from_ability(TriggerKind::AbilityCooldownReady, ability),
            ),
        };
        let ghost record = event;
        self.last_bridge_event = Some(event);
        let r = match trigger {
            Some(trigger) => self.queue_trigger_action(trigger, now_ms),
            None => None,
        };
        proof {
            law_count_records_fire_their_own_trigger(*old(self), record, now_ms, *self, r);
        }
        r
    }

    /// Returns everything that is saved to its defaults and clears what the
    /// runtime learned, unless work is under way. The page shown and the
    /// effect editor stay. Gives whether the reset happened; after it the
    /// listener is to be stopped and a fresh worker started.
    pub fn reset_saved_state(&mut self) -> (r: bool)
        ensures
            r == !old(self).spec_is_busy(),
            !r ==> *final(self) == *old(self),
            r ==> {
                &&& is_initial_state(
                    AppState {
                        selected_section: AppSection::Setup,
                        selected_effect: TriggerKind::Death,
                        copy_source: TriggerKind::AbilityUse,
                        ..*final(self)
                    },
                )
                &&& final(self).selected_section == old(self).selected_section
                &&& final(self).selected_effect == old(self).selected_effect
                &&& final(self).copy_source == old(self).copy_source
            },
    {
        if self.is_busy() {
            return false;
        }
        self.reset_connection();
        self.provider = ProviderKind::Lovense;
        self.lovense = LovenseSetup::default();
        self.intiface = IntifaceSetup::default();
        self.preferred_target = None;
        self.triggers = TriggerSettingsSet::default();
        self.log_path = String::new();
        self.last_sequence = None;
        self.ability_catalog = BTreeMap::new();
        self.listener_action_error = None;
        self.log_detection_status = None;
        self.listener_subscribed = false;
        self.last_bridge_event = None;
        self.copy_feedback = None;
        self.action_status = None;
        self.action_in_flight = 0;
        true
    }
}

/// What to do with the game log listener at startup.
#[derive(Debug, PartialEq, Eq)]
pub enum StartupListenerPlan {
    /// Start listening at the saved path.
    StartSaved { path: String },
    /// Stop the listener and look for the game's log.
    Detect,
}

/// The listener error that a start outcome leaves.
pub open spec fn listener_error_after(start: Result<(), String>) -> Option<Seq<char>> {
    match start {
        Ok(()) => None,
        Err(error) => Some("Could not start listener: "@ + error@),
    }
}

/// The detection status that a found log and a start outcome leave.
pub open spec fn detection_status_after(detection: Detection, start: Result<(), String>) -> (bool, Option<Seq<char>>) {
    match (detection, start) {
        (Detection::Ready { .. }, Ok(())) => (true, None),
        (Detection::NotCreated { .. }, Ok(())) => (false, None),
        (Detection::Ready { .. }, Err(error)) => (
            true,
            Some("Deadlock console.log was found, but the listener could not start: "@ + error@),
        ),
        (Detection::NotCreated { .. }, Err(error)) => (
            false,
            Some("Deadlock was found, but the listener could not start: "@ + error@),
        ),
    }
}

/// The view of a detection status: found or not created, or the failure.
pub open spec fn detection_status_view(status: Option<LogDetectionStatus>) -> Option<Result<bool, Seq<char>>> {
    match status {
        Some(LogDetectionStatus::Found) => Some(Ok(true)),
        Some(LogDetectionStatus::NotCreated) => Some(Ok(false)),
        Some(LogDetectionStatus::Failed(message)) => Some(Err(message@)),
        None => None,
    }
}

impl AppState {
    /// Takes the outcome of starting the listener: the bridge events are
    /// subscribed either way, and a failure is reported.
    pub fn apply_listener_start(&mut self, start: Result<(), String>)
        ensures
            option_view(final(self).listener_action_error) == listener_error_after(start),
            *final(self) == (AppState {
                listener_subscribed: true,
                listener_action_error: final(self).listener_action_error,
                ..*old(self)
            }),
    {
        self.listener_subscribed = true;
        self.listener_action_error = match start {
            Ok(()) => None,
            Err(error) => {
                let mut message = owned("Could not start listener: ");
                append_text(&mut message, error.as_str());
                Some(message)
            },
        };
    }

    /// The configured log path to start the listener at, without its
    /// surrounding white space; a blank path is refused and reported.
    pub fn start_configured_listener(&mut self) -> (r: Option<String>)
        ensures
            is_blank(old(self).log_path@) ==> {
                &&& r is None
                &&& option_view(final(self).listener_action_error) == Some(
                    "Enter a console.log path before starting the listener."@,
                )
                &&& *final(self) == (AppState {
                    listener_action_error: final(self).listener_action_error,
                    ..*old(self)
                })
            },
            !is_blank(old(self).log_path@) ==> {
                &&& r matches Some(path) && path@ == trimmed(old(self).log_path@)
                &&& *final(self) == *old(self)
            },
    {
        if blank(self.log_path.as_str()) {
            self.listener_action_error = Some(owned("Enter a console.log path before starting the listener."));
            return None;
        }
        Some(trimmed_owned(self.log_path.as_str()))
    }

    /// Decides how the listener starts: a saved path is kept without its
    /// surrounding white space and started; with none, the listener is
    /// stopped and the log is looked for.
    pub fn initialize_log_listener(&mut self) -> (r: StartupListenerPlan)
        ensures
            !is_blank(old(self).log_path@) ==> {
                &&& final(self).log_path@ == trimmed(old(self).log_path@)
                &&& r matches StartupListenerPlan::StartSaved { path } && path@ == trimmed(old(self).log_path@)
                &&& *final(self) == (AppState { log_path: final(self).log_path, ..*old(self) })
            },
            is_blank(old(self).log_path@) ==> {
                &&& r is Detect
                &&& *final(self) == (AppState { listener_action_error: None, ..*old(self) })
            },
    {
        if !blank(self.log_path.as_str()) {
            let path = trimmed_owned(self.log_path.as_str());
            self.log_path = path.clone();
            return StartupListenerPlan::StartSaved { path };
        }
        self.listener_action_error = None;
        StartupListenerPlan::Detect
    }

    /// Takes the outcome of looking for the game's log, and of starting the
    /// listener at the path found (unused when nothing was found). A found
    /// path becomes the log path and the status says whether the log exists
    /// yet or why listening failed. A failed search is reported; at startup
    /// it also clears the path, and the listener is to be stopped: the
    /// result says whether.
    pub fn apply_log_detection_with_context(
        &mut self,
        result: Result<Detection, String>,
        context: LogListenerStartContext,
        start: Result<(), String>,
    ) -> (r: bool)
        ensures
            match result {
                Ok(detection) => {
                    let path = match detection {
                        Detection::Ready { path } => path,
                        Detection::NotCreated { path } => path,
                    };
                    let (found, failure) = detection_status_after(detection, start);
                    &&& !r
                    &&& final(self).log_path@ == path@
                    &&& option_view(final(self).listener_action_error) == listener_error_after(start)
                    &&& detection_status_view(final(self).log_detection_status) == Some(match failure {
                        Some(message) => Err(message),
                        None => Ok(found),
                    })
                    &&& *final(self) == (AppState {
                        log_path: final(self).log_path,
                        listener_subscribed: true,
                        listener_action_error: final(self).listener_action_error,
                        log_detection_status: final(self).log_detection_status,
                        ..*old(self)
                    })
                },
                Err(error) => {
                    &&& r == (context == LogListenerStartContext::Startup)
                    &&& detection_status_view(final(self).log_detection_status) == Some(
                        Err::<bool, Seq<char>>("Auto-detect failed: "@ + error@),
                    )
                    &&& r ==> final(self).log_path@.len() == 0
                    &&& !r ==> final(self).log_path == old(self).log_path
                    &&& *final(self) == (AppState {
                        log_path: final(self).log_path,
                        log_detection_status: final(self).log_detection_status,
                        ..*old(self)
                    })
                },
            },
    {
        match result {
            Ok(detection) => {
                let (path, found) = match detection {
                    Detection::Ready { path } => (path, true),
                    Detection::NotCreated { path } => (path, false),
                };
                self.log_path = path;
                let failure = match &start {
                    Ok(()) => None,
                    Err(error) => {
                        let mut message = if found {
                            owned("Deadlock console.log was found, but the listener could not start: ")
                        } else {
                            owned("Deadlock was found, but the listener could not start: ")
                        };
                        append_text(&mut message, error.as_str());
                        Some(message)
                    },
                };
                self.apply_listener_start(start);
                self.log_detection_status = match failure {
                    Some(message) => Some(LogDetectionStatus::Failed(message)),
                    None => if found {
                        Some(LogDetectionStatus::Found)
                    } else {
                        Some(LogDetectionStatus::NotCreated)
                    },
                };
                false
            },
            Err(error) => {
                let stop = context == LogListenerStartContext::Startup;
                if stop {
                    self.log_path = String::new();
                }
                let mut message = owned("Auto-detect failed: ");
                append_text(&mut message, error.as_str());
                self.log_detection_status = Some(LogDetectionStatus::Failed(message));
                stop
            },
        }
    }

    /// Takes the outcome of a search for the game's log that the user asked
    /// for; see [`AppState::apply_log_detection_with_context`].
    pub fn apply_log_detection(&mut self, result: Result<Detection, String>, start: Result<(), String>)
        ensures
            match result {
                Ok(detection) => {
                    let path = match detection {
                        Detection::Ready { path } => path,
                        Detection::NotCreated { path } => path,
                    };
                    &&& final(self).log_path@ == path@
                    &&& option_view(final(self).listener_action_error) == listener_error_after(start)
                },
                Err(error) => {
                    &&& final(self).log_path == old(self).log_path
                    &&& detection_status_view(final(self).log_detection_status) == Some(
                        Err::<bool, Seq<char>>("Auto-detect failed: "@ + error@),
                    )
                    &&& *final(self) == (AppState {
                        log_detection_status: final(self).log_detection_status,
                        ..*old(self)
                    })
                },
            },
            result matches Ok(detection) ==> detection_status_view(final(self).log_detection_status)
                == Some(match detection_status_after(detection, start).1 {
                    Some(message) => Err(message),
                    None => Ok(detection_status_after(detection, start).0),
                }),
    {
        let _ = self.apply_log_detection_with_context(result, LogListenerStartContext::Manual, start);
    }
}

/// Once a trigger has been handled, any trigger of the same session that is
/// not later than it, of whatever kind, changes nothing and sends nothing:
/// the sequence watermark is shared by all triggers.
pub proof fn law_handled_trigger_blocks_replays(
    start: AppState,
    first: TriggerIdentity,
    first_ms: u64,
    middle: AppState,
    first_request: Option<ActionRequest>,
    replay: TriggerIdentity,
    replay_ms: u64,
    end: AppState,
    replay_request: Option<ActionRequest>,
)
    requires
        is_new_trigger(sequence_view(start.last_sequence), first),
        trigger_step(start, first, first_ms, middle, first_request),
        trigger_step(middle, replay, replay_ms, end, replay_request),
        replay.session_id@ == first.session_id@,
        replay.sequence <= first.sequence,
    ensures
        end == middle,
        replay_request is None,
{
}

/// A trigger from a new session, or later in the same session, is always
/// handled: it becomes the latest, whether or not its settings let it fire.
pub proof fn law_later_trigger_advances_watermark(
    start: AppState,
    trigger: TriggerIdentity,
    now_ms: u64,
    end: AppState,
    request: Option<ActionRequest>,
)
    requires
        trigger_step(start, trigger, now_ms, end, request),
        match sequence_view(start.last_sequence) {
            Some((session, sequence)) => session != trigger.session_id@ || trigger.sequence > sequence,
            None => true,
        },
    ensures
        sequence_view(end.last_sequence) == Some((trigger.session_id@, trigger.sequence)),
{
}

/// An accepted action that completes leaves the count of actions in flight
/// as it was before.
pub proof fn law_completion_balances_acceptance(in_flight: usize)
    requires
        in_flight < usize::MAX,
    ensures
        saturating_decrement(saturating_increment(in_flight)) == in_flight,
{
}

impl TriggerKind {
    /// The trigger's title in the effects editor.
    pub open spec fn spec_display_label(self) -> Seq<char> {
        match self {
            TriggerKind::Death => "Death"@,
            TriggerKind::Kill => "Kill"@,
            TriggerKind::Assist => "Assist"@,
            TriggerKind::AbilityUse => "Ability use"@,
            TriggerKind::AbilityCooldownReady => "Cooldown ready"@,
        }
    }

    /// The trigger's title in the effects editor.
    pub fn display_label(self) -> (r: &'static str)
        ensures
            r@ == self.spec_display_label(),
    {
        match self {
            TriggerKind::Death => "Death",
            TriggerKind::Kill => "Kill",
            TriggerKind::Assist => "Assist",
            TriggerKind::AbilityUse => "Ability use",
            TriggerKind::AbilityCooldownReady => "Cooldown ready",
        }
    }
}

impl BridgeEvent {
    /// The record's event name.
    pub open spec fn spec_event_name(&self) -> Seq<char> {
        match self {
            BridgeEvent::HookReady(_) => "hook_ready"@,
            BridgeEvent::AbilityCatalog(_) => "ability_catalog"@,
            BridgeEvent::LocalPlayerDeath(_) => "local_player_death"@,
            BridgeEvent::LocalPlayerKill(_) => "local_player_kill"@,
            BridgeEvent::LocalPlayerAssist(_) => "local_player_assist"@,
            BridgeEvent::AbilityUsed(_) => "ability_used"@,
            BridgeEvent::AbilityCooldownReady(_) => "ability_cooldown_ready"@,
        }
    }

    /// The record's event name.
    pub fn event_name(&self) -> (r: &'static str)
        ensures
            r@ == self.spec_event_name(),
    {
        match self {
            BridgeEvent::HookReady(_) => "hook_ready",
            BridgeEvent::AbilityCatalog(_) => "ability_catalog",
            BridgeEvent::LocalPlayerDeath(_) => "local_player_death",
            BridgeEvent::LocalPlayerKill(_) => "local_player_kill",
            BridgeEvent::LocalPlayerAssist(_) => "local_player_assist",
            BridgeEvent::AbilityUsed(_) => "ability_used",
            BridgeEvent::AbilityCooldownReady(_) => "ability_cooldown_ready",
        }
    }
}

/// `, <label> <before>→<after>` when both counts are known.
pub open spec fn change_text(label: Seq<char>, before: Option<u64>, after: Option<u64>) -> Seq<char> {
    match (before, after) {
        (Some(before), Some(after)) => ", "@ + label + " "@ + decimal(before as nat) + "→"@ + decimal(
            after as nat,
        ),
        _ => Seq::empty(),
    }
}

fn append_change(s: &mut String, label: &str, before: Option<u64>, after: Option<u64>)
    ensures
        final(s)@ == old(s)@ + change_text(label@, before, after),
{
    match (before, after) {
        (Some(before), Some(after)) => {
            append_text(s, ", ");
            append_text(s, label);
            append_text(s, " ");
            let first = decimal_text(before);
            append_text(s, first.as_str());
            append_text(s, "→");
            let second = decimal_text(after);
            append_text(s, second.as_str());
        },
        _ => {},
    }
}

/// How the game connection page describes a record: its name, and the
/// details of catalogs, counts and abilities.
pub open spec fn spec_event_description(event: BridgeEvent) -> Seq<char> {
    match event {
        BridgeEvent::AbilityCatalog(catalog) => "ability_catalog, "@ + decimal(catalog.abilities@.len())
            + " slot(s)"@,
        BridgeEvent::LocalPlayerKill(count) => "local_player_kill, detection "@ + count.detection@
            + change_text("count"@, count.count_before, count.count_after),
        BridgeEvent::LocalPlayerAssist(count) => "local_player_assist, detection "@ + count.detection@
            + change_text("count"@, count.count_before, count.count_after),
        BridgeEvent::AbilityUsed(ability) => ability_description("ability_used"@, ability),
        BridgeEvent::AbilityCooldownReady(ability) => ability_description("ability_cooldown_ready"@, ability),
        _ => event.spec_event_name(),
    }
}

/// `<name>, slot <slot>[ (<ability name>)], detection <detection>[, charges <before>→<after>]`.
pub open spec fn ability_description(name: Seq<char>, ability: AbilityTrigger) -> Seq<char> {
    name + ", slot "@ + decimal(ability.ability_slot as nat) + (match ability.ability_name {
        Some(ability_name) => " ("@ + ability_name@ + ")"@,
        None => Seq::empty(),
    }) + ", detection "@ + ability.detection@ + change_text(
        "charges"@,
        ability.charges_before,
        ability.charges_after,
    )
}

fn describe_ability(name: &str, ability: &AbilityTrigger) -> (r: String)
    ensures
        r@ == ability_description(name@, *ability),
{
    let mut s = owned(name);
    append_text(&mut s, ", slot ");
    let slot = decimal_text(ability.ability_slot as u64);
    append_text(&mut s, slot.as_str());
    match &ability.ability_name {
        Some(ability_name) => {
            append_text(&mut s, " (");
            append_text(&mut s, ability_name.as_str());
            append_text(&mut s, ")");
        },
        None => {},
    }
    append_text(&mut s, ", detection ");
    append_text(&mut s, ability.detection.as_str());
    append_change(&mut s, "charges", ability.charges_before, ability.charges_after);
    s
}

/// How the game connection page describes a record.
pub fn bridge_event_description(event: &BridgeEvent) -> (r: String)
    ensures
        r@ == spec_event_description(*event),
{
    match event {
        BridgeEvent::AbilityCatalog(catalog) => {
            let mut s = owned("ability_catalog, ");
            let count = decimal_text(catalog.abilities.len() as u64);
            append_text(&mut s, count.as_str());
            append_text(&mut s, " slot(s)");
            s
        },
        BridgeEvent::LocalPlayerKill(count) => {
            let mut s = owned("local_player_kill, detection ");
            append_text(&mut s, count.detection.as_str());
            append_change(&mut s, "count", count.count_before, count.count_after);
            s
        },
        BridgeEvent::LocalPlayerAssist(count) => {
            let mut s = owned("local_player_assist, detection ");
            append_text(&mut s, count.detection.as_str());
            append_change(&mut s, "count", count.count_before, count.count_after);
            s
        },
        BridgeEvent::AbilityUsed(ability) => describe_ability("ability_used", ability),
        BridgeEvent::AbilityCooldownReady(ability) => describe_ability("ability_cooldown_ready", ability),
        _ => owned(event.event_name()),
    }
}

} // verus!
