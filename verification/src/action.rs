//! Vibration action settings and their resolution into one concrete action.
//!
//! Each setting is kept as the IEEE 754 binary32 encoding of the value the
//! user entered, so that exactly the values that are whole numbers within the
//! supported range can be told apart from every other value.
use vstd::prelude::*;
use rand::Rng;
use crate::text::{append_text, decimal, decimal_text, owned};

verus! {

/// The weakest vibration strength.
pub const MIN_VIBRATE_STRENGTH: u8 = 0;
/// The strongest vibration strength.
pub const MAX_VIBRATE_STRENGTH: u8 = 20;
/// The shortest vibration, in seconds.
pub const MIN_VIBRATE_DURATION: u32 = 1;
/// The longest vibration, in seconds.
pub const MAX_VIBRATE_DURATION: u32 = 30;
/// The binary32 encoding of 0.0.
pub const ZERO_BITS: u32 = 0;
/// The binary32 encoding of 1.0.
pub const ONE_BITS: u32 = 0x3f80_0000;

/// The whole number below 2^23 that the binary32 encoding `bits` stands for,
/// if it stands for one: zero of either sign, or a positive normal number
/// whose exponent leaves no fractional significand bits.
pub open spec fn binary32_small_integer(bits: u32) -> Option<u32> {
    let exponent = (bits >> 23u32) & 0xffu32;
    let significand = (bits & 0x7f_ffffu32) | 0x80_0000u32;
    if bits & 0x7fff_ffffu32 == 0 {
        Some(0u32)
    } else if bits >> 31u32 != 0 || exponent < 127 || exponent >= 150 {
        None
    } else {
        let shift = (150 - exponent) as u32;
        if significand & (((1u32 << shift) - 1) as u32) == 0 {
            Some(significand >> shift)
        } else {
            None
        }
    }
}

/// The strength that `bits` encodes, when it is a whole number from 0 to 20.
pub open spec fn spec_portable_strength(bits: u32) -> Option<u8> {
    match binary32_small_integer(bits) {
        Some(n) => if n <= MAX_VIBRATE_STRENGTH as u32 {
            Some(n as u8)
        } else {
            None
        },
        None => None,
    }
}

/// The duration that `bits` encodes, when it is a whole number from 1 to 30.
pub open spec fn spec_portable_vibrate_duration(bits: u32) -> Option<u32> {
    match binary32_small_integer(bits) {
        Some(n) => if MIN_VIBRATE_DURATION <= n <= MAX_VIBRATE_DURATION {
            Some(n)
        } else {
            None
        },
        None => None,
    }
}

/// The whole number below 2^23 that a binary32 encoding stands for, if any.
fn small_integer(bits: u32) -> (r: Option<u32>)
    ensures
        r == binary32_small_integer(bits),
{
    let exponent = (bits >> 23u32) & 0xffu32;
    let significand = (bits & 0x7f_ffffu32) | 0x80_0000u32;
    if bits & 0x7fff_ffffu32 == 0 {
        Some(0u32)
    } else if bits >> 31u32 != 0 || exponent < 127 || exponent >= 150 {
        None
    } else {
        let shift: u32 = 150 - exponent;
        assert(1 <= shift <= 23);
        assert(1u32 <= shift <= 23u32 ==> (1u32 << shift) >= 1u32) by (bit_vector);
        let mask: u32 = (1u32 << shift) - 1;
        if significand & mask == 0 {
            Some(significand >> shift)
        } else {
            None
        }
    }
}

/// The strength a setting stands for, when it is a whole number from 0 to 20.
pub fn portable_strength(value_bits: u32) -> (r: Option<u8>)
    ensures
        r == spec_portable_strength(value_bits),
{
    match small_integer(value_bits) {
        Some(n) => if n <= MAX_VIBRATE_STRENGTH as u32 {
            Some(n as u8)
        } else {
            None
        },
        None => None,
    }
}

/// The duration a setting stands for, when it is a whole number from 1 to 30.
pub fn portable_vibrate_duration(value_bits: u32) -> (r: Option<u32>)
    ensures
        r == spec_portable_vibrate_duration(value_bits),
{
    match small_integer(value_bits) {
        Some(n) => if MIN_VIBRATE_DURATION <= n && n <= MAX_VIBRATE_DURATION {
            Some(n)
        } else {
            None
        },
        None => None,
    }
}

/// How an action picks its strength and duration.
#[derive(Clone, Copy, Debug, PartialEq, Eq, Structural)]
pub enum VibrateMode {
    /// A random strength and duration from configured ranges.
    Interval,
    /// One configured strength and duration.
    Fixed,
}

impl Default for VibrateMode {
    fn default() -> (r: Self)
        ensures
            r == VibrateMode::Interval,
    {
        VibrateMode::Interval
    }
}

impl VibrateMode {
    /// The display name.
    pub open spec fn spec_label(self) -> Seq<char> {
        match self {
            VibrateMode::Interval => "Random"@,
            VibrateMode::Fixed => "Fixed"@,
        }
    }

    /// The display name.
    pub fn label(self) -> (r: &'static str)
        ensures
            r@ == self.spec_label(),
    {
        match self {
            VibrateMode::Interval => "Random",
            VibrateMode::Fixed => "Fixed",
        }
    }
}

/// The ranges of a random action, each bound as a binary32 encoding.
#[derive(Clone, Copy, Debug, PartialEq, Eq, Structural)]
pub struct VibrateIntervalSettings {
    pub minimum_strength: u32,
    pub maximum_strength: u32,
    pub minimum_duration_seconds: u32,
    pub maximum_duration_seconds: u32,
}

/// A fixed action, each value as a binary32 encoding.
#[derive(Clone, Copy, Debug, PartialEq, Eq, Structural)]
pub struct VibrateFixedSettings {
    pub strength: u32,
    pub duration_seconds: u32,
}

/// The vibration configured for one trigger.
#[derive(Clone, Copy, Debug, PartialEq, Eq, Structural)]
pub struct VibrateActionSettings {
    pub mode: VibrateMode,
    pub interval: VibrateIntervalSettings,
    pub fixed: VibrateFixedSettings,
}

/// The default vibration: random mode with both ranges at their minimum.
pub open spec fn default_action_settings() -> VibrateActionSettings {
    VibrateActionSettings {
        mode: VibrateMode::Interval,
        interval: VibrateIntervalSettings {
            minimum_strength: ZERO_BITS,
            maximum_strength: ZERO_BITS,
            minimum_duration_seconds: ONE_BITS,
            maximum_duration_seconds: ONE_BITS,
        },
        fixed: VibrateFixedSettings { strength: ZERO_BITS, duration_seconds: ONE_BITS },
    }
}

impl Default for VibrateActionSettings {
    fn default() -> (r: Self)
        ensures
            r == default_action_settings(),
    {
        VibrateActionSettings {
            mode: VibrateMode::Interval,
            interval: VibrateIntervalSettings {
                minimum_strength: ZERO_BITS,
                maximum_strength: ZERO_BITS,
                minimum_duration_seconds: ONE_BITS,
                maximum_duration_seconds: ONE_BITS,
            },
            fixed: VibrateFixedSettings { strength: ZERO_BITS, duration_seconds: ONE_BITS },
        }
    }
}

/// One concrete vibration, ready to send.
#[derive(Clone, Copy, Debug, PartialEq, Eq, Structural)]
pub struct ResolvedVibrateAction {
    pub strength: u8,
    pub duration_secs: u32,
}

impl ResolvedVibrateAction {
    /// The compact description, such as `12/20 for 4 s`.
    pub open spec fn spec_summary(self) -> Seq<char> {
        decimal(self.strength as nat) + "/20 for "@ + decimal(self.duration_secs as nat) + " s"@
    }

    /// The compact description, such as `12/20 for 4 s`.
    pub fn summary(self) -> (r: String)
        ensures
            r@ == self.spec_summary(),
    {
        let mut s = decimal_text(self.strength as u64);
        append_text(&mut s, "/20 for ");
        let seconds = decimal_text(self.duration_secs as u64);
        append_text(&mut s, seconds.as_str());
        append_text(&mut s, " s");
        s
    }
}

/// Why settings cannot be resolved into an action.
#[derive(Clone, Copy, Debug, PartialEq, Eq, Structural)]
pub enum ActionValidationError {
    InvalidDuration,
    InvalidInterval,
    InvalidStrength,
}

impl ActionValidationError {
    /// The description shown to users.
    pub open spec fn spec_message(self) -> Seq<char> {
        match self {
            ActionValidationError::InvalidDuration => "duration is out of the supported range for this action"@,
            ActionValidationError::InvalidInterval => "interval minimum must not exceed maximum"@,
            ActionValidationError::InvalidStrength => "vibration strength must be an integer from 0 to 20"@,
        }
    }

    /// The description shown to users.
    pub fn message(self) -> (r: String)
        ensures
            r@ == self.spec_message(),
    {
        match self {
            ActionValidationError::InvalidDuration => owned("duration is out of the supported range for this action"),
            ActionValidationError::InvalidInterval => owned("interval minimum must not exceed maximum"),
            ActionValidationError::InvalidStrength => owned("vibration strength must be an integer from 0 to 20"),
        }
    }
}

/// The inclusive ranges an action is drawn from: strength low and high, then
/// duration low and high; or why the settings are invalid. Strength is
/// checked before duration.
pub open spec fn action_bounds(settings: VibrateActionSettings) -> Result<
    (u8, u8, u32, u32),
    ActionValidationError,
> {
    let strength = match settings.mode {
        VibrateMode::Fixed => match spec_portable_strength(settings.fixed.strength) {
            Some(s) => Ok((s, s)),
            None => Err(ActionValidationError::InvalidStrength),
        },
        VibrateMode::Interval => match (
            spec_portable_strength(settings.interval.minimum_strength),
            spec_portable_strength(settings.interval.maximum_strength),
        ) {
            (Some(low), Some(high)) => if low > high {
                Err(ActionValidationError::InvalidInterval)
            } else {
                Ok((low, high))
            },
            _ => Err(ActionValidationError::InvalidStrength),
        },
    };
    let duration = match settings.mode {
        VibrateMode::Fixed => match spec_portable_vibrate_duration(settings.fixed.duration_seconds) {
            Some(d) => Ok((d, d)),
            None => Err(ActionValidationError::InvalidDuration),
        },
        VibrateMode::Interval => match (
            spec_portable_vibrate_duration(settings.interval.minimum_duration_seconds),
            spec_portable_vibrate_duration(settings.interval.maximum_duration_seconds),
        ) {
            (Some(low), Some(high)) => if low > high {
                Err(ActionValidationError::InvalidInterval)
            } else {
                Ok((low, high))
            },
            _ => Err(ActionValidationError::InvalidDuration),
        },
    };
    match strength {
        Err(e) => Err(e),
        Ok((slow, shigh)) => match duration {
            Err(e) => Err(e),
            Ok((dlow, dhigh)) => Ok((slow, shigh, dlow, dhigh)),
        },
    }
}

/// Whether `action` is one that `settings` can resolve to.
pub open spec fn resolves_to(settings: VibrateActionSettings, action: ResolvedVibrateAction) -> bool {
    match action_bounds(settings) {
        Ok((slow, shigh, dlow, dhigh)) => slow <= action.strength <= shigh && dlow
            <= action.duration_secs <= dhigh,
        Err(_) => false,
    }
}

/// What resolving `settings` may give: the validation error, or an action
/// drawn from the ranges.
pub open spec fn resolution_allowed(
    settings: VibrateActionSettings,
    r: Result<ResolvedVibrateAction, ActionValidationError>,
) -> bool {
    match action_bounds(settings) {
        Err(e) => r == Err::<ResolvedVibrateAction, ActionValidationError>(e),
        Ok(_) => r matches Ok(action) && resolves_to(settings, action),
    }
}

#[verifier::external_type_specification]
#[verifier::external_body]
pub struct ExThreadRng(rand::rngs::ThreadRng);

/// `rand::rng`: a handle to the thread-local random number generator.
#[verifier::external_body]
fn thread_rng() -> rand::rngs::ThreadRng {
    rand::rng()
}

/// `Rng::random_range` over an inclusive range of `u8`: some value between
/// `low` and `high`.
#[verifier::external_body]
fn random_u8_between(rng: &mut rand::rngs::ThreadRng, low: u8, high: u8) -> (r: u8)
    requires
        low <= high,
    ensures
        low <= r <= high,
{
    rng.random_range(low..=high)
}

/// `Rng::random_range` over an inclusive range of `u32`: some value between
/// `low` and `high`.
#[verifier::external_body]
fn random_u32_between(rng: &mut rand::rngs::ThreadRng, low: u32, high: u32) -> (r: u32)
    requires
        low <= high,
    ensures
        low <= r <= high,
{
    rng.random_range(low..=high)
}

impl VibrateActionSettings {
    /// Resolves the settings into one action, drawing random values from `rng`
    /// in interval mode.
    pub fn resolve_with(&self, rng: &mut rand::rngs::ThreadRng) -> (r: Result<
        ResolvedVibrateAction,
        ActionValidationError,
    >)
        ensures
            resolution_allowed(*self, r),
    {
        let strength = match self.mode {
            VibrateMode::Fixed => match portable_strength(self.fixed.strength) {
                Some(s) => s,
                None => return Err(ActionValidationError::InvalidStrength),
            },
            VibrateMode::Interval => {
                let low = match portable_strength(self.interval.minimum_strength) {
                    Some(s) => s,
                    None => return Err(ActionValidationError::InvalidStrength),
                };
                let high = match portable_strength(self.interval.maximum_strength) {
                    Some(s) => s,
                    None => return Err(ActionValidationError::InvalidStrength),
                };
                if low > high {
                    return Err(ActionValidationError::InvalidInterval);
                }
                random_u8_between(rng, low, high)
            },
        };
        let duration_secs = match self.mode {
            VibrateMode::Fixed => match portable_vibrate_duration(self.fixed.duration_seconds) {
                Some(d) => d,
                None => return Err(ActionValidationError::InvalidDuration),
            },
            VibrateMode::Interval => {
                let low = match portable_vibrate_duration(self.interval.minimum_duration_seconds) {
                    Some(d) => d,
                    None => return Err(ActionValidationError::InvalidDuration),
                };
                let high = match portable_vibrate_duration(self.interval.maximum_duration_seconds) {
                    Some(d) => d,
                    None => return Err(ActionValidationError::InvalidDuration),
                };
                if low > high {
                    return Err(ActionValidationError::InvalidInterval);
                }
                random_u32_between(rng, low, high)
            },
        };
        Ok(ResolvedVibrateAction { strength, duration_secs })
    }

    /// Resolves the settings with the thread's random number generator.
    pub fn resolve_checked(&self) -> (r: Result<ResolvedVibrateAction, ActionValidationError>)
        ensures
            resolution_allowed(*self, r),
    {
        let mut rng = thread_rng();
        self.resolve_with(&mut rng)
    }

    /// Resolves the settings, or gives nothing when they are invalid.
    pub fn resolve(&self) -> (r: Option<ResolvedVibrateAction>)
        ensures
            action_bounds(*self) is Err ==> r is None,
            action_bounds(*self) is Ok ==> (r matches Some(action) && resolves_to(*self, action)),
    {
        match self.resolve_checked() {
            Ok(action) => Some(action),
            Err(_) => None,
        }
    }

    /// Replaces these settings with a copy of `source`.
    pub fn copy_active_from(&mut self, source: &Self)
        ensures
            *final(self) == *source,
    {
        *self = *source;
    }
}

} // verus!
