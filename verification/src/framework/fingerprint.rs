//! Fingerprint-LED brightness policy.
//!
//! The UI always presents the LED brightness as a 0-100 percentage slider
//! with delta stepping.  Depending on the hardware generation the firmware
//! accepts either a true percentage or one of three discrete levels; the
//! capability is probed once at startup and injected here, so the panel code
//! never branches on it.

use vstd::prelude::*;

verus! {

/// Percentage band boundaries and level representatives: a percentage of at
/// most `LOW` maps to the low level, at most `MEDIUM` to the medium level,
/// anything above to high; each level displays as its named value.
pub const FP_LED_BRIGHTNESS_LEVEL_LOW: u8 = 15;

pub const FP_LED_BRIGHTNESS_LEVEL_MEDIUM: u8 = 40;

pub const FP_LED_BRIGHTNESS_LEVEL_HIGH: u8 = 55;

/// One of the three discrete brightness steps that level-only firmware
/// accepts.
#[derive(Clone, Copy, Debug, PartialEq, Eq, Structural)]
pub enum FpLedBrightnessLevel {
    Low,
    Medium,
    High,
}

/// What the fingerprint firmware can be asked for: three discrete levels, or
/// a true percentage.  Determined once at startup by probing the hardware
/// and immutable for the process lifetime.
#[derive(Clone, Copy, Debug, PartialEq, Eq, Structural)]
pub enum FpLedBrightnessCapability {
    Level,
    Percentage,
}

/// The brightness policy, parameterised by the probed capability.
#[derive(Clone, Copy, Debug, PartialEq, Eq, Structural)]
pub struct Fingerprint {
    pub led_brightness_capability: FpLedBrightnessCapability,
}

/// The band a displayed percentage falls into.
pub open spec fn spec_percentage_to_level(value: u8) -> FpLedBrightnessLevel {
    if value <= FP_LED_BRIGHTNESS_LEVEL_LOW {
        FpLedBrightnessLevel::Low
    } else if value <= FP_LED_BRIGHTNESS_LEVEL_MEDIUM {
        FpLedBrightnessLevel::Medium
    } else {
        FpLedBrightnessLevel::High
    }
}

/// The fixed percentage a level displays as.
pub open spec fn spec_level_to_percentage(level: FpLedBrightnessLevel) -> u8 {
    match level {
        FpLedBrightnessLevel::Low => FP_LED_BRIGHTNESS_LEVEL_LOW,
        FpLedBrightnessLevel::Medium => FP_LED_BRIGHTNESS_LEVEL_MEDIUM,
        FpLedBrightnessLevel::High => FP_LED_BRIGHTNESS_LEVEL_HIGH,
    }
}

/// The 3-cycle over levels: a positive delta rotates low, medium, high, low;
/// a non-positive delta rotates the other way.  Any delta changes the level;
/// the cycle wraps indefinitely instead of clamping.
pub open spec fn spec_cycle_level(level: FpLedBrightnessLevel, delta: int) -> FpLedBrightnessLevel {
    match level {
        FpLedBrightnessLevel::Low => if delta > 0 {
            FpLedBrightnessLevel::Medium
        } else {
            FpLedBrightnessLevel::High
        },
        FpLedBrightnessLevel::Medium => if delta > 0 {
            FpLedBrightnessLevel::High
        } else {
            FpLedBrightnessLevel::Low
        },
        FpLedBrightnessLevel::High => if delta > 0 {
            FpLedBrightnessLevel::Low
        } else {
            FpLedBrightnessLevel::Medium
        },
    }
}

/// Delta adjustment under the percentage capability: `current + delta`, with
/// a hard floor of 5 so that the LED is never dimmed into invisibility; a
/// step that would land below the floor is ignored.
pub open spec fn spec_adjust_percentage(current: u8, delta: int) -> int {
    if current + delta < 5 {
        current as int
    } else {
        current + delta
    }
}

/// Delta adjustment as the policy performs it for either capability.
pub open spec fn spec_adjust_led_brightness(
    capability: FpLedBrightnessCapability,
    current: u8,
    delta: int,
) -> int {
    match capability {
        FpLedBrightnessCapability::Level => spec_level_to_percentage(
            spec_cycle_level(spec_percentage_to_level(current), delta),
        ) as int,
        FpLedBrightnessCapability::Percentage => spec_adjust_percentage(current, delta),
    }
}

impl Fingerprint {
    /// A policy for hardware that accepts a true percentage.
    pub fn percentage() -> (r: Self)
        ensures
            r.led_brightness_capability == FpLedBrightnessCapability::Percentage,
    {
        Fingerprint { led_brightness_capability: FpLedBrightnessCapability::Percentage }
    }

    /// A policy for hardware that accepts only the three discrete levels.
    pub fn level() -> (r: Self)
        ensures
            r.led_brightness_capability == FpLedBrightnessCapability::Level,
    {
        Fingerprint { led_brightness_capability: FpLedBrightnessCapability::Level }
    }

    /// Steps the displayed brightness by `delta` according to the probed
    /// capability.  Under the level capability the result is always one of
    /// the three representative percentages; under the percentage capability
    /// the result may exceed 100, and the caller commits it only after its
    /// own range check.
    pub fn adjust_led_brightness_by_delta(&self, current: u8, delta: i8) -> (r: u8)
        requires
            current <= 100,
        ensures
            r == spec_adjust_led_brightness(self.led_brightness_capability, current, delta as int),
    {
        match self.led_brightness_capability {
            FpLedBrightnessCapability::Level => {
                let level = led_brightness_percentage_to_level(current);
                let new_level = adjust_led_brightness_level_by_delta(level, delta);
                led_brightness_level_to_percentage(new_level)
            },
            FpLedBrightnessCapability::Percentage => {
                let new_value: i16 = current as i16 + delta as i16;
                if new_value < 5 {
                    current
                } else {
                    new_value as u8
                }
            },
        }
    }
}

/// The band a displayed percentage falls into.
pub fn led_brightness_percentage_to_level(value: u8) -> (r: FpLedBrightnessLevel)
    ensures
        r == spec_percentage_to_level(value),
{
    if value <= FP_LED_BRIGHTNESS_LEVEL_LOW {
        FpLedBrightnessLevel::Low
    } else if value <= FP_LED_BRIGHTNESS_LEVEL_MEDIUM {
        FpLedBrightnessLevel::Medium
    } else {
        FpLedBrightnessLevel::High
    }
}

/// The display name of the band a percentage falls into.
pub fn led_brightness_percentage_to_level_name(value: u8) -> (r: &'static str)
    ensures
        spec_percentage_to_level(value) == FpLedBrightnessLevel::Low ==> r@ == "Low"@,
        spec_percentage_to_level(value) == FpLedBrightnessLevel::Medium ==> r@ == "Medium"@,
        spec_percentage_to_level(value) == FpLedBrightnessLevel::High ==> r@ == "High"@,
{
    if value <= FP_LED_BRIGHTNESS_LEVEL_LOW {
        "Low"
    } else if value <= FP_LED_BRIGHTNESS_LEVEL_MEDIUM {
        "Medium"
    } else {
        "High"
    }
}

/// The fixed representative percentage a level displays as.
pub fn led_brightness_level_to_percentage(level: FpLedBrightnessLevel) -> (r: u8)
    ensures
        r == spec_level_to_percentage(level),
{
    match level {
        FpLedBrightnessLevel::Low => FP_LED_BRIGHTNESS_LEVEL_LOW,
        FpLedBrightnessLevel::Medium => FP_LED_BRIGHTNESS_LEVEL_MEDIUM,
        FpLedBrightnessLevel::High => FP_LED_BRIGHTNESS_LEVEL_HIGH,
    }
}

/// One step around the 3-cycle of levels.
pub fn adjust_led_brightness_level_by_delta(level: FpLedBrightnessLevel, delta: i8) -> (r:
    FpLedBrightnessLevel)
    ensures
        r == spec_cycle_level(level, delta as int),
{
    match level {
        FpLedBrightnessLevel::Low => {
            if delta > 0 {
                FpLedBrightnessLevel::Medium
            } else {
                FpLedBrightnessLevel::High
            }
        },
        FpLedBrightnessLevel::Medium => {
            if delta > 0 {
                FpLedBrightnessLevel::High
            } else {
                FpLedBrightnessLevel::Low
            }
        },
        FpLedBrightnessLevel::High => {
            if delta > 0 {
                FpLedBrightnessLevel::Low
            } else {
                FpLedBrightnessLevel::Medium
            }
        },
    }
}

/// The level rotation is a true 3-cycle: from any level, one step under a
/// positive delta followed by one step under a non-positive delta returns to
/// the starting level, and the other way round.
pub proof fn lemma_level_cycle_round_trip(
    level: FpLedBrightnessLevel,
    forward: int,
    backward: int,
)
    requires
        forward > 0,
        backward <= 0,
    ensures
        spec_cycle_level(spec_cycle_level(level, forward), backward) == level,
        spec_cycle_level(spec_cycle_level(level, backward), forward) == level,
{
}

} // verus!
