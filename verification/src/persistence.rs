//! The saved state: what of the companion is remembered between runs, how it
//! is taken from and restored into the application state, the checks a
//! loaded file must pass, and when changes are written.
use vstd::prelude::*;
use vstd::std_specs::iter::IteratorSpec;
use std::collections::BTreeSet;
use crate::action::VibrateActionSettings;
use crate::app::{fresh_runtime, option_view, AbilityFilter, AbilityTriggerSettings, AppSection, AppState, TriggerKind, TriggerSettings, TriggerSettingsSet};
use crate::provider::{IntifaceSetup, LovenseSetup};
use crate::providers::ProviderKind;
use crate::text::{append_text, blank, decimal, decimal_text, is_blank, owned};

verus! {

broadcast use {vstd::laws_cmp::group_laws_cmp, vstd::std_specs::btree::group_btree_axioms};

/// The one schema version that is read and written.
pub const SCHEMA_VERSION: u32 = 7;
/// How long a change waits before it is written, in milliseconds.
pub const SAVE_DEBOUNCE_MS: u64 = 500;

/// Whether `slots` is strictly increasing.
pub open spec fn strictly_increasing(slots: Seq<u32>) -> bool {
    forall|i: int, j: int| 0 <= i < j < slots.len() ==> slots[i] < slots[j]
}

/// Whether `slots` holds exactly the positive members of `source`.
pub open spec fn same_positive_slots(slots: Seq<u32>, source: Seq<u32>) -> bool {
    forall|slot: u32| slots.contains(slot) <==> (slot > 0 && source.contains(slot))
}

/// Adds `slot` to a strictly increasing list, keeping it strictly increasing.
fn insert_sorted(sorted: &mut Vec<u32>, slot: u32)
    requires
        strictly_increasing(old(sorted)@),
    ensures
        strictly_increasing(final(sorted)@),
        forall|x: u32| final(sorted)@.contains(x) <==> (old(sorted)@.contains(x) || x == slot),
{
    let mut i: usize = 0;
    while i < sorted.len() && sorted[i] < slot
        invariant
            0 <= i <= sorted@.len(),
            sorted@ == old(sorted)@,
            strictly_increasing(sorted@),
            forall|k: int| 0 <= k < i ==> sorted@[k] < slot,
        decreases sorted@.len() - i,
    {
        i = i + 1;
    }
    if i < sorted.len() && sorted[i] == slot {
        assert(sorted@[i as int] == slot);
        assert forall|x: u32| sorted@.contains(x) <==> (old(sorted)@.contains(x) || x == slot) by {
            if x == slot {
                assert(sorted@[i as int] == x);
            }
        }
        return;
    }
    let ghost before = sorted@;
    assert(before == old(sorted)@);
    sorted.insert(i, slot);
    assert(sorted@ =~= before.insert(i as int, slot));
    assert forall|a: int, b: int| 0 <= a < b < sorted@.len() implies sorted@[a] < sorted@[b] by {
        if b < i {
        } else if a < i && b == i {
        } else if a < i && b > i {
            assert(before[b - 1] > before[a]);
        } else if a == i {
            assert(i < before.len());
            assert(before[i as int] > slot);
            if b - 1 > i {
                assert(before[b - 1] > before[i as int]);
            }
        } else {
            assert(before[a - 1] < before[b - 1]);
        }
    }
    assert forall|x: u32| sorted@.contains(x) <==> (before.contains(x) || x == slot) by {
        if sorted@.contains(x) {
            let k = choose|k: int| 0 <= k < sorted@.len() && sorted@[k] == x;
            if k < i {
                assert(before[k] == x);
            } else if k > i {
                assert(before[k - 1] == x);
            }
        }
        if before.contains(x) {
            let k = choose|k: int| 0 <= k < before.len() && before[k] == x;
            if k < i {
                assert(sorted@[k] == x);
            } else {
                assert(sorted@[k + 1] == x);
            }
        }
        if x == slot {
            assert(sorted@[i as int] == x);
        }
    }
    assert(forall|x: u32| #[trigger] sorted@.contains(x) <==> (old(sorted)@.contains(x) || x == slot));
}

/// The positive members of `slots`, each once, in increasing order.
pub fn canonical_slots(slots: &Vec<u32>) -> (r: Vec<u32>)
    ensures
        strictly_increasing(r@),
        same_positive_slots(r@, slots@),
{
    let mut sorted: Vec<u32> = Vec::new();
    let mut i: usize = 0;
    while i < slots.len()
        invariant
            0 <= i <= slots@.len(),
            strictly_increasing(sorted@),
            same_positive_slots(sorted@, slots@.take(i as int)),
        decreases slots@.len() - i,
    {
        let slot = slots[i];
        let ghost before = sorted@;
        if slot > 0 {
            insert_sorted(&mut sorted, slot);
        }
        let ghost prefix = slots@.take(i as int);
        let ghost next = slots@.take(i + 1);
        assert(next =~= prefix.push(slot));
        assert forall|x: u32| sorted@.contains(x) <==> (x > 0 && next.contains(x)) by {
            if prefix.contains(x) {
                let k = choose|k: int| 0 <= k < prefix.len() && prefix[k] == x;
                assert(next[k] == x);
            }
            if next.contains(x) && x != slot {
                let k = choose|k: int| 0 <= k < next.len() && next[k] == x;
                assert(prefix[k] == x);
            }
            if x == slot {
                assert(next[i as int] == x);
            }
        }
        i = i + 1;
    }
    assert(slots@.take(i as int) =~= slots@);
    sorted
}

/// Slots are ordered as integers are, which the ordered set relies on.
proof fn lemma_slot_keys_ordered()
    ensures
        vstd::std_specs::btree::key_obeys_cmp_spec::<u32>(),
{
    assert(vstd::laws_cmp::obeys_cmp::<u32>());
}

/// Whether an ability filter lets every slot through or only chosen ones.
#[derive(Clone, Copy, Debug, PartialEq, Eq, Structural)]
pub enum PersistedAbilityFilterMode {
    All,
    Selected,
}

/// An ability filter as saved: its mode and, when selected, its slots.
#[derive(Debug, PartialEq, Eq)]
pub struct PersistedAbilityFilter {
    pub mode: PersistedAbilityFilterMode,
    pub slots: Vec<u32>,
}

/// Whether `filter` is in canonical form: no slots when all pass, else
/// positive slots in increasing order.
pub open spec fn canonical_filter(filter: PersistedAbilityFilter) -> bool {
    match filter.mode {
        PersistedAbilityFilterMode::All => filter.slots@.len() == 0,
        PersistedAbilityFilterMode::Selected => strictly_increasing(filter.slots@) && forall|slot: u32|
            #[trigger] filter.slots@.contains(slot) ==> slot > 0,
    }
}

impl PersistedAbilityFilter {
    /// The filter that lets every slot through.
    pub fn all() -> (r: Self)
        ensures
            r.mode == PersistedAbilityFilterMode::All,
            r.slots@.len() == 0,
    {
        PersistedAbilityFilter { mode: PersistedAbilityFilterMode::All, slots: Vec::new() }
    }

    /// Puts the filter in canonical form: an open filter keeps no slots; a
    /// selection keeps its positive slots, once each, in increasing order.
    pub fn normalize(&mut self)
        ensures
            final(self).mode == old(self).mode,
            canonical_filter(*final(self)),
            final(self).mode == PersistedAbilityFilterMode::Selected ==> same_positive_slots(
                final(self).slots@,
                old(self).slots@,
            ),
    {
        match self.mode {
            PersistedAbilityFilterMode::All => {
                self.slots = Vec::new();
            },
            PersistedAbilityFilterMode::Selected => {
                let slots = canonical_slots(&self.slots);
                self.slots = slots;
            },
        }
    }

    /// The saved form of an ability filter.
    pub fn from_app(filter: &AbilityFilter) -> (r: Self)
        ensures
            canonical_filter(r),
            *filter is All ==> r.mode == PersistedAbilityFilterMode::All,
            *filter is Selected ==> r.mode == PersistedAbilityFilterMode::Selected,
            *filter matches AbilityFilter::Selected(set) ==> forall|slot: u32|
                #[trigger] r.slots@.contains(slot) <==> (slot > 0 && set@.contains(slot)),
    {
        match filter {
            AbilityFilter::All => PersistedAbilityFilter::all(),
            AbilityFilter::Selected(set) => {
                proof {
                    lemma_slot_keys_ordered();
                }
                let ghost keys = vstd::std_specs::btree::spec_btree_keys_iter(set).remaining();
                proof {
                    vstd::std_specs::btree::axiom_spec_btree_keys_iter(set);
                }
                let mut members: Vec<u32> = Vec::new();
                for slot in it: set.iter()
                    invariant
                        it.seq() == keys,
                        keys.unref().to_set() == set@,
                        members@ == keys.take(it.index() as int).unref(),
                {
                    members.push(*slot);
                    assert(members@ =~= keys.take(it.index() + 1).unref());
                }
                assert(members@ =~= keys.unref());
                assert forall|slot: u32| members@.contains(slot) <==> set@.contains(slot) by {
                    if members@.contains(slot) {
                        assert(members@.to_set().contains(slot));
                    }
                    if set@.contains(slot) {
                        assert(members@.to_set().contains(slot));
                    }
                }
                let slots = canonical_slots(&members);
                PersistedAbilityFilter { mode: PersistedAbilityFilterMode::Selected, slots }
            },
        }
    }
}

impl PersistedAbilityFilter {
    /// The ability filter a saved one stands for: its positive slots.
    pub fn to_app(&self) -> (r: AbilityFilter)
        ensures
            self.mode == PersistedAbilityFilterMode::All ==> r is All,
            self.mode == PersistedAbilityFilterMode::Selected ==> (r matches AbilityFilter::Selected(set)
                && forall|slot: u32| #[trigger] set@.contains(slot) <==> (slot > 0 && self.slots@.contains(slot))),
    {
        match self.mode {
            PersistedAbilityFilterMode::All => AbilityFilter::All,
            PersistedAbilityFilterMode::Selected => {
                proof {
                    lemma_slot_keys_ordered();
                }
                let mut set: BTreeSet<u32> = BTreeSet::new();
                let mut i: usize = 0;
                while i < self.slots.len()
                    invariant
                        0 <= i <= self.slots@.len(),
                        forall|slot: u32| #[trigger] set@.contains(slot) <==> (slot > 0 && self.slots@.take(i as int).contains(slot)),
                    decreases self.slots@.len() - i,
                {
                    let slot = self.slots[i];
                    let ghost prefix = self.slots@.take(i as int);
                    let ghost next = self.slots@.take(i + 1);
                    assert(next =~= prefix.push(slot));
                    proof {
                        lemma_slot_keys_ordered();
                    }
                    if slot > 0 {
                        set.insert(slot);
                    }
                    assert forall|x: u32| #[trigger] set@.contains(x) <==> (x > 0 && next.contains(x)) by {
                        if prefix.contains(x) {
                            let k = choose|k: int| 0 <= k < prefix.len() && prefix[k] == x;
                            assert(next[k] == x);
                        }
                        if next.contains(x) && x != slot {
                            let k = choose|k: int| 0 <= k < next.len() && next[k] == x;
                            assert(prefix[k] == x);
                        }
                        if x == slot {
                            assert(next[i as int] == x);
                        }
                    }
                    i = i + 1;
                }
                assert(self.slots@.take(i as int) =~= self.slots@);
                AbilityFilter::Selected(set)
            },
        }
    }
}

/// An ability trigger as saved.
#[derive(Debug, PartialEq, Eq)]
pub struct PersistedAbilityTrigger {
    pub trigger: TriggerSettings,
    pub ability_filter: PersistedAbilityFilter,
}

/// Every trigger as saved.
#[derive(Debug, PartialEq, Eq)]
pub struct PersistedTriggers {
    pub local_player_death: TriggerSettings,
    pub local_player_kill: TriggerSettings,
    pub local_player_assist: TriggerSettings,
    pub ability_used: PersistedAbilityTrigger,
    pub ability_cooldown_ready: PersistedAbilityTrigger,
}

/// What is remembered between runs: the provider and each provider's setup,
/// the preferred target, every trigger, and the game log path. Ability names
/// are not remembered.
#[derive(Debug, PartialEq, Eq)]
pub struct PersistedState {
    pub schema_version: u32,
    pub provider: ProviderKind,
    pub lovense: LovenseSetup,
    pub intiface: IntifaceSetup,
    pub preferred_target: Option<String>,
    pub triggers: PersistedTriggers,
    pub log_path: String,
}

/// Whether a saved ability filter stands for `filter`.
pub open spec fn filter_matches(saved: PersistedAbilityFilter, filter: AbilityFilter) -> bool {
    match filter {
        AbilityFilter::All => saved.mode == PersistedAbilityFilterMode::All,
        AbilityFilter::Selected(set) => saved.mode == PersistedAbilityFilterMode::Selected
            && forall|slot: u32| #[trigger] saved.slots@.contains(slot) <==> (slot > 0 && set@.contains(slot)),
    }
}

/// Whether saved triggers stand for `triggers`.
pub open spec fn triggers_match(saved: PersistedTriggers, triggers: TriggerSettingsSet) -> bool {
    &&& saved.local_player_death == triggers.death
    &&& saved.local_player_kill == triggers.kill
    &&& saved.local_player_assist == triggers.assist
    &&& saved.ability_used.trigger == triggers.ability_use.trigger
    &&& filter_matches(saved.ability_used.ability_filter, triggers.ability_use.ability_filter)
    &&& saved.ability_cooldown_ready.trigger == triggers.ability_cooldown_ready.trigger
    &&& filter_matches(saved.ability_cooldown_ready.ability_filter, triggers.ability_cooldown_ready.ability_filter)
}

/// Whether both saved filters of `triggers` are canonical.
pub open spec fn canonical_triggers(triggers: PersistedTriggers) -> bool {
    canonical_filter(triggers.ability_used.ability_filter) && canonical_filter(
        triggers.ability_cooldown_ready.ability_filter,
    )
}

/// Whether `state` is the saved form of a fresh companion.
pub open spec fn is_default_state(state: PersistedState) -> bool {
    let actions = crate::action::default_action_settings();
    &&& state.schema_version == SCHEMA_VERSION
    &&& state.provider == ProviderKind::Lovense
    &&& state.lovense.domain@ == crate::provider::DEFAULT_LOVENSE_DOMAIN@
    &&& state.lovense.http_port == crate::provider::DEFAULT_LOVENSE_HTTP_PORT
    &&& state.intiface.websocket_url@ == crate::provider::DEFAULT_INTIFACE_URL@
    &&& state.preferred_target is None
    &&& state.triggers.local_player_death == (TriggerSettings { enabled: true, actions })
    &&& state.triggers.local_player_kill == (TriggerSettings { enabled: false, actions })
    &&& state.triggers.local_player_assist == (TriggerSettings { enabled: false, actions })
    &&& state.triggers.ability_used.trigger == (TriggerSettings { enabled: false, actions })
    &&& state.triggers.ability_used.ability_filter.mode == PersistedAbilityFilterMode::All
    &&& state.triggers.ability_used.ability_filter.slots@.len() == 0
    &&& state.triggers.ability_cooldown_ready.trigger == (TriggerSettings { enabled: false, actions })
    &&& state.triggers.ability_cooldown_ready.ability_filter.mode == PersistedAbilityFilterMode::All
    &&& state.triggers.ability_cooldown_ready.ability_filter.slots@.len() == 0
    &&& state.log_path@.len() == 0
}

impl Default for PersistedState {
    fn default() -> (r: Self)
        ensures
            is_default_state(r),
    {
        let actions = VibrateActionSettings::default();
        PersistedState {
            schema_version: SCHEMA_VERSION,
            provider: ProviderKind::Lovense,
            lovense: LovenseSetup::default(),
            intiface: IntifaceSetup::default(),
            preferred_target: None,
            triggers: PersistedTriggers {
                local_player_death: TriggerSettings { enabled: true, actions },
                local_player_kill: TriggerSettings { enabled: false, actions },
                local_player_assist: TriggerSettings { enabled: false, actions },
                ability_used: PersistedAbilityTrigger {
                    trigger: TriggerSettings { enabled: false, actions },
                    ability_filter: PersistedAbilityFilter::all(),
                },
                ability_cooldown_ready: PersistedAbilityTrigger {
                    trigger: TriggerSettings { enabled: false, actions },
                    ability_filter: PersistedAbilityFilter::all(),
                },
            },
            log_path: String::new(),
        }
    }
}

/// Why a saved state cannot be used, if it cannot: another schema version,
/// or a preferred target without an identifier.
pub open spec fn state_rejection(state: PersistedState) -> Option<Seq<char>> {
    if state.schema_version != SCHEMA_VERSION {
        Some("unsupported schema version "@ + decimal(state.schema_version as nat) + "; expected 7"@)
    } else if state.preferred_target matches Some(target) && is_blank(target@) {
        Some("preferred target ID is empty"@)
    } else {
        None
    }
}

/// What checking a saved state gives: the reason it is refused, or the same
/// state with its ability filters in canonical form, each keeping its mode
/// and its positive slots.
pub open spec fn normalizes_to(state: PersistedState, r: Result<PersistedState, String>) -> bool {
    let used = state.triggers.ability_used.ability_filter;
    let ready = state.triggers.ability_cooldown_ready.ability_filter;
    match state_rejection(state) {
        Some(message) => r matches Err(text) && text@ == message,
        None => r matches Ok(checked) && {
            let checked_used = checked.triggers.ability_used.ability_filter;
            let checked_ready = checked.triggers.ability_cooldown_ready.ability_filter;
            &&& canonical_triggers(checked.triggers)
            &&& checked_used.mode == used.mode
            &&& checked_ready.mode == ready.mode
            &&& (used.mode == PersistedAbilityFilterMode::Selected ==> same_positive_slots(
                checked_used.slots@,
                used.slots@,
            ))
            &&& (ready.mode == PersistedAbilityFilterMode::Selected ==> same_positive_slots(
                checked_ready.slots@,
                ready.slots@,
            ))
            &&& checked == (PersistedState {
                triggers: PersistedTriggers {
                    ability_used: PersistedAbilityTrigger {
                        ability_filter: checked_used,
                        ..state.triggers.ability_used
                    },
                    ability_cooldown_ready: PersistedAbilityTrigger {
                        ability_filter: checked_ready,
                        ..state.triggers.ability_cooldown_ready
                    },
                    ..state.triggers
                },
                ..state
            })
        },
    }
}

impl PersistedState {
    /// Checks a saved state and puts its ability filters in canonical form;
    /// everything else is kept.
    pub fn normalized(self) -> (r: Result<Self, String>)
        ensures
            normalizes_to(self, r),
    {
        let mut state = self;
        if state.schema_version != SCHEMA_VERSION {
            let mut message = owned("unsupported schema version ");
            let version = decimal_text(state.schema_version as u64);
            append_text(&mut message, version.as_str());
            append_text(&mut message, "; expected 7");
            return Err(message);
        }
        let target_blank = match &state.preferred_target {
            Some(target) => blank(target.as_str()),
            None => false,
        };
        if target_blank {
            return Err(owned("preferred target ID is empty"));
        }
        state.triggers.ability_used.ability_filter.normalize();
        state.triggers.ability_cooldown_ready.ability_filter.normalize();
        Ok(state)
    }
}

/// Whether `state` is the saved form of `app`: the provider and setups, the
/// preferred target, the triggers with their filters in canonical form, and
/// the log path.
pub open spec fn saved_from(state: PersistedState, app: AppState) -> bool {
    &&& state.schema_version == SCHEMA_VERSION
    &&& state.provider == app.provider
    &&& state.lovense == app.lovense
    &&& state.intiface == app.intiface
    &&& option_view(state.preferred_target) == option_view(app.preferred_target)
    &&& triggers_match(state.triggers, app.triggers)
    &&& canonical_triggers(state.triggers)
    &&& state.log_path@ == app.log_path@
}

/// Whether `app` is a fresh companion restored from `state`.
pub open spec fn restored_from(app: AppState, state: PersistedState) -> bool {
    &&& app.provider == state.provider
    &&& app.lovense == state.lovense
    &&& app.intiface == state.intiface
    &&& option_view(app.preferred_target) == option_view(state.preferred_target)
    &&& app.triggers.death == state.triggers.local_player_death
    &&& app.triggers.kill == state.triggers.local_player_kill
    &&& app.triggers.assist == state.triggers.local_player_assist
    &&& app.triggers.ability_use.trigger == state.triggers.ability_used.trigger
    &&& restored_filter(app.triggers.ability_use.ability_filter, state.triggers.ability_used.ability_filter)
    &&& app.triggers.ability_cooldown_ready.trigger == state.triggers.ability_cooldown_ready.trigger
    &&& restored_filter(
        app.triggers.ability_cooldown_ready.ability_filter,
        state.triggers.ability_cooldown_ready.ability_filter,
    )
    &&& app.log_path@ == state.log_path@
    &&& fresh_runtime(app)
    &&& app.selected_section == AppSection::Setup
    &&& app.selected_effect == TriggerKind::Death
    &&& app.copy_source == TriggerKind::AbilityUse
}

/// Whether `filter` is what the saved filter stands for.
pub open spec fn restored_filter(filter: AbilityFilter, saved: PersistedAbilityFilter) -> bool {
    match saved.mode {
        PersistedAbilityFilterMode::All => filter is All,
        PersistedAbilityFilterMode::Selected => filter matches AbilityFilter::Selected(set) && forall|slot: u32|
            #[trigger] set@.contains(slot) <==> (slot > 0 && saved.slots@.contains(slot)),
    }
}

fn clone_option_text(value: &Option<String>) -> (r: Option<String>)
    ensures
        option_view(r) == option_view(*value),
{
    match value {
        Some(text) => Some(text.clone()),
        None => None,
    }
}

impl PersistedState {
    /// The saved form of the companion's state; a preferred target without an
    /// identifier cannot be saved, and the defaults are saved instead.
    pub fn from_app(app: &AppState) -> (r: Self)
        ensures
            (app.preferred_target matches Some(target) && is_blank(target@)) ==> is_default_state(r),
            !(app.preferred_target matches Some(target) && is_blank(target@)) ==> saved_from(r, *app),
    {
        let state = PersistedState {
            schema_version: SCHEMA_VERSION,
            provider: app.provider,
            lovense: app.lovense.clone(),
            intiface: app.intiface.clone(),
            preferred_target: clone_option_text(&app.preferred_target),
            triggers: PersistedTriggers {
                local_player_death: app.triggers.death,
                local_player_kill: app.triggers.kill,
                local_player_assist: app.triggers.assist,
                ability_used: PersistedAbilityTrigger {
                    trigger: app.triggers.ability_use.trigger,
                    ability_filter: PersistedAbilityFilter::from_app(&app.triggers.ability_use.ability_filter),
                },
                ability_cooldown_ready: PersistedAbilityTrigger {
                    trigger: app.triggers.ability_cooldown_ready.trigger,
                    ability_filter: PersistedAbilityFilter::from_app(
                        &app.triggers.ability_cooldown_ready.ability_filter,
                    ),
                },
            },
            log_path: app.log_path.clone(),
        };
        let ghost before = state;
        match state.normalized() {
            Ok(normalized) => {
                assert forall|slot: u32| #[trigger] normalized.triggers.ability_used.ability_filter.slots@.contains(slot)
                    == before.triggers.ability_used.ability_filter.slots@.contains(slot) by {}
                assert forall|slot: u32| #[trigger] normalized.triggers.ability_cooldown_ready.ability_filter.slots@.contains(slot)
                    == before.triggers.ability_cooldown_ready.ability_filter.slots@.contains(slot) by {}
                normalized
            },
            Err(_) => PersistedState::default(),
        }
    }

    /// A fresh companion with what was saved.
    pub fn restore_app(&self) -> (r: AppState)
        ensures
            restored_from(r, *self),
    {
        let mut app = AppState::default();
        app.provider = self.provider;
        app.lovense = self.lovense.clone();
        app.intiface = self.intiface.clone();
        app.preferred_target = clone_option_text(&self.preferred_target);
        app.triggers = TriggerSettingsSet {
            death: self.triggers.local_player_death,
            kill: self.triggers.local_player_kill,
            assist: self.triggers.local_player_assist,
            ability_use: AbilityTriggerSettings {
                trigger: self.triggers.ability_used.trigger,
                ability_filter: self.triggers.ability_used.ability_filter.to_app(),
            },
            ability_cooldown_ready: AbilityTriggerSettings {
                trigger: self.triggers.ability_cooldown_ready.trigger,
                ability_filter: self.triggers.ability_cooldown_ready.ability_filter.to_app(),
            },
        };
        app.log_path = self.log_path.clone();
        app
    }
}

/// Whether `restored` is what restoring the saved form of `filter` gives:
/// the same openness, and a selection of the same positive slots.
pub open spec fn filter_round_trip(restored: AbilityFilter, filter: AbilityFilter) -> bool {
    match filter {
        AbilityFilter::All => restored is All,
        AbilityFilter::Selected(set) => restored matches AbilityFilter::Selected(kept) && forall|slot: u32|
            #[trigger] kept@.contains(slot) <==> (slot > 0 && set@.contains(slot)),
    }
}

/// Saving a companion's state and restoring it gives back everything that is
/// remembered: the provider and every provider's setup, the preferred target,
/// each trigger with its vibration, each ability filter (over the positive
/// slots, the only ones the game reports), and the log path; the restored
/// companion starts with a fresh runtime.
pub proof fn law_save_then_restore_keeps_setup(app: AppState, saved: PersistedState, restored: AppState)
    requires
        saved_from(saved, app),
        restored_from(restored, saved),
    ensures
        restored.provider == app.provider,
        restored.lovense == app.lovense,
        restored.intiface == app.intiface,
        option_view(restored.preferred_target) == option_view(app.preferred_target),
        restored.triggers.death == app.triggers.death,
        restored.triggers.kill == app.triggers.kill,
        restored.triggers.assist == app.triggers.assist,
        restored.triggers.ability_use.trigger == app.triggers.ability_use.trigger,
        restored.triggers.ability_cooldown_ready.trigger == app.triggers.ability_cooldown_ready.trigger,
        filter_round_trip(restored.triggers.ability_use.ability_filter, app.triggers.ability_use.ability_filter),
        filter_round_trip(
            restored.triggers.ability_cooldown_ready.ability_filter,
            app.triggers.ability_cooldown_ready.ability_filter,
        ),
        restored.log_path@ == app.log_path@,
        fresh_runtime(restored),
{
}

/// Whether two saved filters hold the same content.
pub open spec fn same_filter(a: PersistedAbilityFilter, b: PersistedAbilityFilter) -> bool {
    a.mode == b.mode && a.slots@ == b.slots@
}

/// Whether two saved states hold the same content.
pub open spec fn same_content(a: PersistedState, b: PersistedState) -> bool {
    &&& a.schema_version == b.schema_version
    &&& a.provider == b.provider
    &&& a.lovense.domain@ == b.lovense.domain@
    &&& a.lovense.http_port == b.lovense.http_port
    &&& a.intiface.websocket_url@ == b.intiface.websocket_url@
    &&& option_view(a.preferred_target) == option_view(b.preferred_target)
    &&& a.triggers.local_player_death == b.triggers.local_player_death
    &&& a.triggers.local_player_kill == b.triggers.local_player_kill
    &&& a.triggers.local_player_assist == b.triggers.local_player_assist
    &&& a.triggers.ability_used.trigger == b.triggers.ability_used.trigger
    &&& same_filter(a.triggers.ability_used.ability_filter, b.triggers.ability_used.ability_filter)
    &&& a.triggers.ability_cooldown_ready.trigger == b.triggers.ability_cooldown_ready.trigger
    &&& same_filter(
        a.triggers.ability_cooldown_ready.ability_filter,
        b.triggers.ability_cooldown_ready.ability_filter,
    )
    &&& a.log_path@ == b.log_path@
}

fn same_slots(a: &Vec<u32>, b: &Vec<u32>) -> (r: bool)
    ensures
        r == (a@ == b@),
{
    if a.len() != b.len() {
        return false;
    }
    let mut i: usize = 0;
    while i < a.len()
        invariant
            a@.len() == b@.len(),
            0 <= i <= a@.len(),
            forall|k: int| 0 <= k < i ==> a@[k] == b@[k],
        decreases a@.len() - i,
    {
        if a[i] != b[i] {
            return false;
        }
        i = i + 1;
    }
    assert(a@ =~= b@);
    true
}

fn same_option_text(a: &Option<String>, b: &Option<String>) -> (r: bool)
    ensures
        r == (option_view(*a) == option_view(*b)),
{
    match (a, b) {
        (Some(x), Some(y)) => crate::text::same_text(x.as_str(), y.as_str()),
        (None, None) => true,
        _ => false,
    }
}

fn copy_filter(filter: &PersistedAbilityFilter) -> (r: PersistedAbilityFilter)
    ensures
        same_filter(r, *filter),
{
    let mut slots: Vec<u32> = Vec::new();
    for i in 0..filter.slots.len()
        invariant
            slots@ == filter.slots@.take(i as int),
    {
        slots.push(filter.slots[i]);
        assert(slots@ =~= filter.slots@.take(i + 1));
    }
    assert(slots@ =~= filter.slots@);
    PersistedAbilityFilter { mode: filter.mode, slots }
}

impl PersistedState {
    /// Whether the two states hold the same content.
    pub fn same_as(&self, other: &PersistedState) -> (r: bool)
        ensures
            r == same_content(*self, *other),
    {
        self.schema_version == other.schema_version && self.provider == other.provider
            && crate::text::same_text(self.lovense.domain.as_str(), other.lovense.domain.as_str())
            && self.lovense.http_port == other.lovense.http_port && crate::text::same_text(
            self.intiface.websocket_url.as_str(),
            other.intiface.websocket_url.as_str(),
        ) && same_option_text(&self.preferred_target, &other.preferred_target)
            && self.triggers.local_player_death == other.triggers.local_player_death
            && self.triggers.local_player_kill == other.triggers.local_player_kill
            && self.triggers.local_player_assist == other.triggers.local_player_assist
            && self.triggers.ability_used.trigger == other.triggers.ability_used.trigger
            && self.triggers.ability_used.ability_filter.mode == other.triggers.ability_used.ability_filter.mode
            && same_slots(
            &self.triggers.ability_used.ability_filter.slots,
            &other.triggers.ability_used.ability_filter.slots,
        ) && self.triggers.ability_cooldown_ready.trigger == other.triggers.ability_cooldown_ready.trigger
            && self.triggers.ability_cooldown_ready.ability_filter.mode
            == other.triggers.ability_cooldown_ready.ability_filter.mode && same_slots(
            &self.triggers.ability_cooldown_ready.ability_filter.slots,
            &other.triggers.ability_cooldown_ready.ability_filter.slots,
        ) && crate::text::same_text(self.log_path.as_str(), other.log_path.as_str())
    }

    /// A copy with the same content.
    pub fn copy(&self) -> (r: PersistedState)
        ensures
            same_content(r, *self),
    {
        PersistedState {
            schema_version: self.schema_version,
            provider: self.provider,
            lovense: self.lovense.clone(),
            intiface: self.intiface.clone(),
            preferred_target: clone_option_text(&self.preferred_target),
            triggers: PersistedTriggers {
                local_player_death: self.triggers.local_player_death,
                local_player_kill: self.triggers.local_player_kill,
                local_player_assist: self.triggers.local_player_assist,
                ability_used: PersistedAbilityTrigger {
                    trigger: self.triggers.ability_used.trigger,
                    ability_filter: copy_filter(&self.triggers.ability_used.ability_filter),
                },
                ability_cooldown_ready: PersistedAbilityTrigger {
                    trigger: self.triggers.ability_cooldown_ready.trigger,
                    ability_filter: copy_filter(&self.triggers.ability_cooldown_ready.ability_filter),
                },
            },
            log_path: self.log_path.clone(),
        }
    }
}

/// Why a state is written.
#[derive(Clone, Copy, Debug, PartialEq, Eq, Structural)]
pub enum SaveReason {
    Autosave,
    Reset,
}

/// A write of a saved state, for the caller to perform.
#[derive(Debug, PartialEq, Eq)]
pub struct SaveRequest {
    pub state: PersistedState,
    pub reason: SaveReason,
}

/// When the companion's state is written: changes are written once they have
/// rested for the debounce interval, a return to what is on disk cancels the
/// write, and a failed write keeps the change pending and is retried.
#[derive(Debug)]
pub struct SaveScheduler {
    /// Whether there is a file to write to.
    pub has_path: bool,
    /// What is on disk.
    pub saved: PersistedState,
    /// The latest state observed.
    pub observed: PersistedState,
    /// The state waiting to be written.
    pub pending: Option<PersistedState>,
    pub pending_reason: SaveReason,
    /// When the pending state is due, in milliseconds of the monotonic clock.
    pub deadline_ms: Option<u64>,
    pub debounce_ms: u64,
    pub load_warning: Option<String>,
    pub save_error: Option<String>,
}

/// `now_ms` plus the debounce interval, staying at the clock's end.
pub open spec fn due_at(now_ms: u64, debounce_ms: u64) -> u64 {
    if now_ms + debounce_ms > u64::MAX {
        u64::MAX
    } else {
        (now_ms + debounce_ms) as u64
    }
}

fn due(now_ms: u64, debounce_ms: u64) -> (r: u64)
    ensures
        r == due_at(now_ms, debounce_ms),
{
    if now_ms > u64::MAX - debounce_ms {
        u64::MAX
    } else {
        now_ms + debounce_ms
    }
}

/// The message a failed write leaves.
pub open spec fn save_error_message(reason: SaveReason, error: Seq<char>) -> Seq<char> {
    match reason {
        SaveReason::Autosave => "Could not save settings: "@ + error
            + " Changes remain unsaved and will be retried."@,
        SaveReason::Reset => "Current settings were reset in memory, but saved state could not be replaced: "@
            + error + " The previous disk state may return after restart."@,
    }
}

/// The error of a write when there is no file to write to.
pub const NO_SAVE_PATH: &'static str = "No per-user saved-state path is available.";

/// One observation of `state` at `now_ms`, taking the scheduler from `old`
/// to `new` and giving `request`: see [`SaveScheduler::observe`].
pub open spec fn observe_step(
    old: SaveScheduler,
    state: PersistedState,
    now_ms: u64,
    new: SaveScheduler,
    request: Option<SaveRequest>,
) -> bool {
    &&& new.has_path == old.has_path
    &&& new.debounce_ms == old.debounce_ms
    &&& new.saved == old.saved
    &&& new.load_warning == old.load_warning
    &&& !same_content(state, old.observed) ==> same_content(new.observed, state)
    &&& same_content(state, old.observed) ==> new.observed == old.observed
    &&& !same_content(state, old.observed) && same_content(state, old.saved) ==> {
        &&& new.pending is None
        &&& new.deadline_ms is None
        &&& new.save_error is None
        &&& request is None
    }
    &&& !same_content(state, old.observed) && !same_content(state, old.saved) ==> {
        &&& new.pending matches Some(pending) && same_content(pending, state)
        &&& new.pending_reason == SaveReason::Autosave
        &&& new.deadline_ms == Some(due_at(now_ms, old.debounce_ms))
        &&& new.save_error == old.save_error
    }
    &&& same_content(state, old.observed) ==> {
        &&& new.pending == old.pending
        &&& new.pending_reason == old.pending_reason
        &&& new.save_error == old.save_error
        &&& new.deadline_ms == (if old.pending is Some && old.deadline_ms is None {
            Some(due_at(now_ms, old.debounce_ms))
        } else {
            old.deadline_ms
        })
    }
    &&& match request {
        Some(request) => {
            &&& new.deadline_ms matches Some(deadline) && deadline <= now_ms
            &&& new.pending matches Some(pending) && same_content(request.state, pending)
            &&& request.reason == new.pending_reason
        },
        None => !(new.deadline_ms matches Some(deadline) && deadline <= now_ms),
    }
}

impl SaveScheduler {
    /// A pending write always has its state.
    pub open spec fn wf(&self) -> bool {
        self.deadline_ms is Some ==> self.pending is Some
    }

    /// The scheduler for a state loaded from an existing file location.
    pub fn open(state: &PersistedState, load_warning: Option<String>) -> (r: Self)
        ensures
            r.wf(),
            r.has_path,
            same_content(r.saved, *state),
            same_content(r.observed, *state),
            r.pending is None,
            r.deadline_ms is None,
            r.debounce_ms == SAVE_DEBOUNCE_MS,
            r.load_warning == load_warning,
            r.save_error is None,
    {
        SaveScheduler {
            has_path: true,
            saved: state.copy(),
            observed: state.copy(),
            pending: None,
            pending_reason: SaveReason::Autosave,
            deadline_ms: None,
            debounce_ms: SAVE_DEBOUNCE_MS,
            load_warning,
            save_error: None,
        }
    }

    /// The scheduler when no file location is available: the defaults are
    /// used, kept in memory, with a warning.
    pub fn unavailable(message: &str) -> (r: (Self, PersistedState))
        ensures
            r.0.wf(),
            !r.0.has_path,
            is_default_state(r.1),
            same_content(r.0.saved, r.1),
            same_content(r.0.observed, r.1),
            r.0.pending is None,
            r.0.deadline_ms is None,
            r.0.debounce_ms == SAVE_DEBOUNCE_MS,
            option_view(r.0.load_warning) == Some(
                "Saved state is unavailable: "@ + message@
                    + " Settings will remain in memory for this session."@,
            ),
            r.0.save_error is None,
    {
        let state = PersistedState::default();
        let mut warning = owned("Saved state is unavailable: ");
        append_text(&mut warning, message);
        append_text(&mut warning, " Settings will remain in memory for this session.");
        let scheduler = SaveScheduler {
            has_path: false,
            saved: state.copy(),
            observed: state.copy(),
            pending: None,
            pending_reason: SaveReason::Autosave,
            deadline_ms: None,
            debounce_ms: SAVE_DEBOUNCE_MS,
            load_warning: Some(warning),
            save_error: None,
        };
        (scheduler, state)
    }

    /// Takes the companion's current state at `now_ms`. A change is pending
    /// until it has rested for the debounce interval; a return to what is on
    /// disk cancels it; a pending state without a due time is given one. Gives
    /// the write to perform once the pending state is due.
    pub fn observe(&mut self, state: PersistedState, now_ms: u64) -> (r: Option<SaveRequest>)
        requires
            old(self).wf(),
        ensures
            final(self).wf(),
            observe_step(*old(self), state, now_ms, *final(self), r),
    {
        if !state.same_as(&self.observed) {
            self.observed = state.copy();
            if state.same_as(&self.saved) {
                self.pending = None;
                self.deadline_ms = None;
                self.save_error = None;
            } else {
                self.pending = Some(state);
                self.pending_reason = SaveReason::Autosave;
                self.deadline_ms = Some(due(now_ms, self.debounce_ms));
            }
        } else if self.pending.is_some() && self.deadline_ms.is_none() {
            self.deadline_ms = Some(due(now_ms, self.debounce_ms));
        }
        match self.deadline_ms {
            Some(deadline) => if deadline <= now_ms {
                match &self.pending {
                    Some(pending) => {
                        return Some(SaveRequest { state: pending.copy(), reason: self.pending_reason });
                    },
                    None => {},
                }
            },
            None => {},
        }
        None
    }

    /// How long until the pending state is due, if a write is scheduled.
    pub fn time_until_due(&self, now_ms: u64) -> (r: Option<u64>)
        ensures
            match self.deadline_ms {
                Some(deadline) => r == Some(if deadline > now_ms { (deadline - now_ms) as u64 } else { 0u64 }),
                None => r is None,
            },
    {
        match self.deadline_ms {
            Some(deadline) => Some(if deadline > now_ms {
                deadline - now_ms
            } else {
                0
            }),
            None => None,
        }
    }

    /// Whether a write can be attempted at all.
    pub fn write_target(&self) -> (r: Result<(), String>)
        ensures
            self.has_path ==> r is Ok,
            !self.has_path ==> (r matches Err(message) && message@ == NO_SAVE_PATH@),
    {
        if self.has_path {
            Ok(())
        } else {
            Err(owned(NO_SAVE_PATH))
        }
    }

    /// Takes the outcome of writing `state` for `reason`. A written state is
    /// what is on disk and nothing is pending; a failed write keeps the state
    /// pending with its reason and reports the failure; when the write was
    /// due during observation (`retry_at_ms`), it is retried after another
    /// debounce interval.
    pub fn finish_write(
        &mut self,
        state: PersistedState,
        reason: SaveReason,
        result: Result<(), String>,
        retry_from_ms: Option<u64>,
    )
        requires
            old(self).wf(),
        ensures
            final(self).wf(),
            final(self).has_path == old(self).has_path,
            final(self).debounce_ms == old(self).debounce_ms,
            final(self).observed == old(self).observed,
            final(self).load_warning == old(self).load_warning,
            match result {
                Ok(()) => {
                    &&& same_content(final(self).saved, state)
                    &&& final(self).pending is None
                    &&& final(self).deadline_ms is None
                    &&& final(self).save_error is None
                },
                Err(error) => {
                    &&& final(self).saved == old(self).saved
                    &&& final(self).pending matches Some(pending) && same_content(pending, state)
                    &&& final(self).pending_reason == reason
                    &&& final(self).deadline_ms == (match retry_from_ms {
                        Some(now_ms) => Some(due_at(now_ms, old(self).debounce_ms)),
                        None => None,
                    })
                    &&& option_view(final(self).save_error) == Some(save_error_message(reason, error@))
                },
            },
    {
        match result {
            Ok(()) => {
                self.saved = state;
                self.pending = None;
                self.deadline_ms = None;
                self.save_error = None;
            },
            Err(error) => {
                self.pending = Some(state);
                self.pending_reason = reason;
                self.deadline_ms = match retry_from_ms {
                    Some(now_ms) => Some(due(now_ms, self.debounce_ms)),
                    None => None,
                };
                let message = match reason {
                    SaveReason::Autosave => {
                        let mut m = owned("Could not save settings: ");
                        append_text(&mut m, error.as_str());
                        append_text(&mut m, " Changes remain unsaved and will be retried.");
                        m
                    },
                    SaveReason::Reset => {
                        let mut m = owned(
                            "Current settings were reset in memory, but saved state could not be replaced: ",
                        );
                        append_text(&mut m, error.as_str());
                        append_text(&mut m, " The previous disk state may return after restart.");
                        m
                    },
                };
                self.save_error = Some(message);
            },
        }
    }

    /// Writes the reset state at once: it becomes the observed state and is
    /// handed out for writing as a reset.
    pub fn save_reset_now(&mut self, state: &PersistedState) -> (r: SaveRequest)
        ensures
            same_content(final(self).observed, *state),
            same_content(r.state, *state),
            r.reason == SaveReason::Reset,
            *final(self) == (SaveScheduler { observed: final(self).observed, ..*old(self) }),
    {
        self.observed = state.copy();
        SaveRequest { state: state.copy(), reason: SaveReason::Reset }
    }

    /// Writes the current state at once, unless it is what is on disk and
    /// nothing is pending; a pending write keeps its reason.
    pub fn flush(&mut self, state: &PersistedState) -> (r: Option<SaveRequest>)
        ensures
            same_content(*state, old(self).saved) && old(self).pending is None ==> (r is None && *final(self) == *old(self)),
            !(same_content(*state, old(self).saved) && old(self).pending is None) ==> {
                &&& r matches Some(request) && same_content(request.state, *state) && request.reason == (
                if old(self).pending is Some {
                    old(self).pending_reason
                } else {
                    SaveReason::Autosave
                })
                &&& same_content(final(self).observed, *state)
                &&& *final(self) == (SaveScheduler { observed: final(self).observed, ..*old(self) })
            },
    {
        if state.same_as(&self.saved) && self.pending.is_none() {
            return None;
        }
        self.observed = state.copy();
        let reason = if self.pending.is_some() {
            self.pending_reason
        } else {
            SaveReason::Autosave
        };
        Some(SaveRequest { state: state.copy(), reason })
    }
}

/// The warning when the saved state exists but cannot be read.
pub fn read_failure_warning(path: &str, error: &str) -> (r: String)
    ensures
        r@ == "Could not read saved state at "@ + path@ + ": "@ + error@ + ". Defaults were restored."@,
{
    let mut s = owned("Could not read saved state at ");
    append_text(&mut s, path);
    append_text(&mut s, ": ");
    append_text(&mut s, error);
    append_text(&mut s, ". Defaults were restored.");
    s
}

/// The warning when the saved state is invalid, with where the invalid file
/// went: the backup's location, or why it stayed in place.
pub fn invalid_state_warning(error: &str, path: &str, backup: Result<String, String>) -> (r: String)
    ensures
        r@ == "Saved state was invalid ("@ + error@ + "). "@ + (match backup {
            Ok(location) => "The invalid file was preserved at "@ + location@ + "."@,
            Err(problem) => "The invalid file could not be moved to a backup ("@ + problem@
                + "); it remains at "@ + path@ + "."@,
        }) + " Defaults were restored."@,
{
    let mut s = owned("Saved state was invalid (");
    append_text(&mut s, error);
    append_text(&mut s, "). ");
    let mut note = String::new();
    match &backup {
        Ok(location) => {
            note = owned("The invalid file was preserved at ");
            append_text(&mut note, location.as_str());
            append_text(&mut note, ".");
        },
        Err(problem) => {
            note = owned("The invalid file could not be moved to a backup (");
            append_text(&mut note, problem.as_str());
            append_text(&mut note, "); it remains at ");
            append_text(&mut note, path);
            append_text(&mut note, ".");
        },
    }
    append_text(&mut s, note.as_str());
    append_text(&mut s, " Defaults were restored.");
    s
}

/// Checks a state read from disk: a usable state comes back normalized, any
/// other gives the reason it was refused.
pub fn accept_loaded(parsed: Result<PersistedState, String>) -> (r: Result<PersistedState, String>)
    ensures
        match parsed {
            Err(error) => r matches Err(text) && text@ == error@,
            Ok(state) => normalizes_to(state, r),
        },
{
    match parsed {
        Err(error) => Err(error),
        Ok(state) => state.normalized(),
    }
}

/// Two strictly increasing lists of the same members are the same list.
proof fn lemma_increasing_lists_with_same_members(a: Seq<u32>, b: Seq<u32>)
    requires
        strictly_increasing(a),
        strictly_increasing(b),
        forall|x: u32| a.contains(x) <==> b.contains(x),
    ensures
        a == b,
    decreases a.len(),
{
    if a.len() == 0 {
        if b.len() > 0 {
            assert(b.contains(b[0]));
        }
        assert(a =~= b);
    } else {
        assert(a.contains(a[0]));
        assert(b.len() > 0);
        assert(b.contains(b[0]));
        let i = choose|i: int| 0 <= i < a.len() && a[i] == b[0];
        let j = choose|j: int| 0 <= j < b.len() && b[j] == a[0];
        assert(a[0] <= a[i]);
        assert(b[0] <= b[j]);
        assert(a[0] == b[0]);
        let ra = a.drop_first();
        let rb = b.drop_first();
        assert forall|x: u32| ra.contains(x) <==> rb.contains(x) by {
            if ra.contains(x) {
                let k = choose|k: int| 0 <= k < ra.len() && ra[k] == x;
                assert(a[k + 1] == x);
                assert(a.contains(x));
                let m = choose|m: int| 0 <= m < b.len() && b[m] == x;
                assert(a[0] < a[k + 1]);
                assert(m != 0);
                assert(rb[m - 1] == x);
            }
            if rb.contains(x) {
                let k = choose|k: int| 0 <= k < rb.len() && rb[k] == x;
                assert(b[k + 1] == x);
                assert(b.contains(x));
                let m = choose|m: int| 0 <= m < a.len() && a[m] == x;
                assert(b[0] < b[k + 1]);
                assert(m != 0);
                assert(ra[m - 1] == x);
            }
        }
        lemma_increasing_lists_with_same_members(ra, rb);
        assert(a =~= seq![a[0]] + ra);
        assert(b =~= seq![b[0]] + rb);
    }
}

/// A canonical filter is the only canonical filter of its mode with its
/// positive slots.
proof fn lemma_canonical_filter_unique(a: PersistedAbilityFilter, b: PersistedAbilityFilter)
    requires
        canonical_filter(a),
        canonical_filter(b),
        a.mode == b.mode,
        a.mode == PersistedAbilityFilterMode::Selected ==> same_positive_slots(a.slots@, b.slots@),
    ensures
        same_filter(a, b),
{
    if a.mode == PersistedAbilityFilterMode::All {
        assert(a.slots@ =~= b.slots@);
    } else {
        assert forall|x: u32| a.slots@.contains(x) <==> b.slots@.contains(x) by {
            if b.slots@.contains(x) {
                assert(x > 0);
            }
        }
        lemma_increasing_lists_with_same_members(a.slots@, b.slots@);
    }
}

/// Checking a saved state that is usable and already canonical gives back
/// the same content.
pub proof fn law_checking_a_canonical_state_keeps_it(state: PersistedState, r: Result<PersistedState, String>)
    requires
        state_rejection(state) is None,
        canonical_triggers(state.triggers),
        normalizes_to(state, r),
    ensures
        r matches Ok(checked) && same_content(checked, state),
{
    let checked = r->Ok_0;
    lemma_canonical_filter_unique(
        checked.triggers.ability_used.ability_filter,
        state.triggers.ability_used.ability_filter,
    );
    lemma_canonical_filter_unique(
        checked.triggers.ability_cooldown_ready.ability_filter,
        state.triggers.ability_cooldown_ready.ability_filter,
    );
}

/// Checking a saved state twice gives what checking it once gave.
pub proof fn law_checking_twice_changes_nothing(
    state: PersistedState,
    once: PersistedState,
    twice: Result<PersistedState, String>,
)
    requires
        normalizes_to(state, Ok(once)),
        normalizes_to(once, twice),
    ensures
        twice matches Ok(again) && same_content(again, once),
{
    law_checking_a_canonical_state_keeps_it(once, twice);
}

/// What the companion saves is read back unchanged: the saved form of a
/// companion whose preferred target, if any, has an identifier passes the
/// check on loading and comes back with the same content.
pub proof fn law_saved_state_loads_unchanged(app: AppState, saved: PersistedState, loaded: Result<PersistedState, String>)
    requires
        saved_from(saved, app),
        !(app.preferred_target matches Some(target) && is_blank(target@)),
        normalizes_to(saved, loaded),
    ensures
        loaded matches Ok(state) && same_content(state, saved),
{
    law_checking_a_canonical_state_keeps_it(saved, loaded);
}

/// Two saved states with the same content agree on every field that is
/// saved: the schema, the provider and its setups, the preferred target, the
/// vibration and enablement of every trigger, both ability filters, and the
/// log path.
pub proof fn law_same_content_agrees_on_every_saved_field(a: PersistedState, b: PersistedState)
    requires
        same_content(a, b),
    ensures
        a.schema_version == b.schema_version,
        a.provider == b.provider,
        a.lovense.domain@ == b.lovense.domain@,
        a.lovense.http_port == b.lovense.http_port,
        a.intiface.websocket_url@ == b.intiface.websocket_url@,
        option_view(a.preferred_target) == option_view(b.preferred_target),
        a.triggers.local_player_death == b.triggers.local_player_death,
        a.triggers.local_player_kill == b.triggers.local_player_kill,
        a.triggers.local_player_assist == b.triggers.local_player_assist,
        a.triggers.ability_used.trigger == b.triggers.ability_used.trigger,
        a.triggers.ability_used.ability_filter.mode == b.triggers.ability_used.ability_filter.mode,
        a.triggers.ability_used.ability_filter.slots@ == b.triggers.ability_used.ability_filter.slots@,
        a.triggers.ability_cooldown_ready.trigger == b.triggers.ability_cooldown_ready.trigger,
        a.triggers.ability_cooldown_ready.ability_filter.mode == b.triggers.ability_cooldown_ready.ability_filter.mode,
        a.triggers.ability_cooldown_ready.ability_filter.slots@ == b.triggers.ability_cooldown_ready.ability_filter.slots@,
        a.log_path@ == b.log_path@,
{
}

/// Whether some trigger's enablement or vibration differs between `a` and
/// `b`.
pub open spec fn trigger_settings_differ(a: PersistedState, b: PersistedState) -> bool {
    ||| a.triggers.local_player_death != b.triggers.local_player_death
    ||| a.triggers.local_player_kill != b.triggers.local_player_kill
    ||| a.triggers.local_player_assist != b.triggers.local_player_assist
    ||| a.triggers.ability_used.trigger != b.triggers.ability_used.trigger
    ||| a.triggers.ability_cooldown_ready.trigger != b.triggers.ability_cooldown_ready.trigger
}

/// A new vibration or enablement of any trigger is scheduled for writing:
/// observing a state whose trigger settings differ both from the last state
/// observed and from what is on disk leaves that state pending, with every
/// trigger's settings as observed, as an autosave.
pub proof fn law_changed_trigger_settings_are_scheduled(
    start: SaveScheduler,
    state: PersistedState,
    now_ms: u64,
    end: SaveScheduler,
    request: Option<SaveRequest>,
)
    requires
        trigger_settings_differ(state, start.observed),
        trigger_settings_differ(state, start.saved),
        observe_step(start, state, now_ms, end, request),
    ensures
        end.pending matches Some(pending) && {
            &&& pending.triggers.local_player_death == state.triggers.local_player_death
            &&& pending.triggers.local_player_kill == state.triggers.local_player_kill
            &&& pending.triggers.local_player_assist == state.triggers.local_player_assist
            &&& pending.triggers.ability_used.trigger == state.triggers.ability_used.trigger
            &&& pending.triggers.ability_cooldown_ready.trigger == state.triggers.ability_cooldown_ready.trigger
        },
        end.pending_reason == SaveReason::Autosave,
{
}

/// A change is written once it has rested: observing a state that differs
/// from what was last observed and from what is on disk writes nothing yet,
/// and observing the same content again once the debounce interval has
/// passed hands out a write of that content, as an autosave.
pub proof fn law_change_is_written_once_it_has_rested(
    start: SaveScheduler,
    changed: PersistedState,
    first_ms: u64,
    middle: SaveScheduler,
    first: Option<SaveRequest>,
    again: PersistedState,
    second_ms: u64,
    end: SaveScheduler,
    second: Option<SaveRequest>,
)
    requires
        start.debounce_ms > 0,
        first_ms + start.debounce_ms <= u64::MAX,
        !same_content(changed, start.observed),
        !same_content(changed, start.saved),
        observe_step(start, changed, first_ms, middle, first),
        same_content(again, changed),
        second_ms >= first_ms + start.debounce_ms,
        observe_step(middle, again, second_ms, end, second),
    ensures
        first is None,
        second matches Some(request) && same_content(request.state, changed) && request.reason
            == SaveReason::Autosave,
{
}

/// Returning to what is on disk before a change is written cancels the
/// write: nothing is pending and nothing is due.
pub proof fn law_reverting_cancels_the_write(
    start: SaveScheduler,
    state: PersistedState,
    now_ms: u64,
    end: SaveScheduler,
    request: Option<SaveRequest>,
)
    requires
        same_content(state, start.saved),
        !same_content(state, start.observed),
        observe_step(start, state, now_ms, end, request),
    ensures
        request is None,
        end.pending is None,
        end.deadline_ms is None,
{
}

} // verus!
