//! Plain-value models of the hardware interface: the fingerprint brightness
//! policy, snapshot data, the refresh schedule, and the shapes that commands
//! and their outcomes take on the way to the firmware.

pub mod fingerprint;
pub mod info;

use vstd::prelude::*;
use crate::framework::fingerprint::{
    led_brightness_percentage_to_level, spec_percentage_to_level, Fingerprint,
    FpLedBrightnessCapability, FpLedBrightnessLevel,
};

verus! {

/// A failed hardware command, as the surrounding program reports it back:
/// either the firmware rejected the command because it predates the feature,
/// or some other failure, carried as its rendered text.
#[derive(Clone, Debug, PartialEq, Eq)]
pub enum HwError {
    FirmwareUpdateRequired,
    Other(String),
}

/// The firmware write that realises one fingerprint-brightness commit:
/// level-only hardware is told the band the percentage falls into,
/// percentage hardware is told the percentage itself.
#[derive(Clone, Copy, Debug, PartialEq, Eq, Structural)]
pub enum FpBrightnessCommand {
    SetLevel(FpLedBrightnessLevel),
    SetPercentage(u8),
}

/// Chooses the firmware write for a committed fingerprint brightness, per
/// the probed capability.
pub fn fp_brightness_command(fingerprint: &Fingerprint, percentage: u8) -> (r: FpBrightnessCommand)
    ensures
        r == match fingerprint.led_brightness_capability {
            FpLedBrightnessCapability::Level => FpBrightnessCommand::SetLevel(
                spec_percentage_to_level(percentage),
            ),
            FpLedBrightnessCapability::Percentage => FpBrightnessCommand::SetPercentage(percentage),
        },
{
    match fingerprint.led_brightness_capability {
        FpLedBrightnessCapability::Level => FpBrightnessCommand::SetLevel(
            led_brightness_percentage_to_level(percentage),
        ),
        FpLedBrightnessCapability::Percentage => FpBrightnessCommand::SetPercentage(percentage),
    }
}

/// The fan-speed word starting at byte `2 * i`, read little-endian.
pub open spec fn spec_fan_word(bytes: Seq<u8>, i: int) -> int {
    bytes[2 * i] + 256 * bytes[2 * i + 1]
}

/// The fan speeds among the first `n` slots, in slot order, with the
/// firmware's not-present marker (`0xFFFF`) filtered out.
pub open spec fn spec_fan_rpms(bytes: Seq<u8>, n: int) -> Seq<u16>
    decreases n,
{
    if n <= 0 {
        Seq::empty()
    } else {
        let prev = spec_fan_rpms(bytes, n - 1);
        let word = spec_fan_word(bytes, n - 1);
        if word == 0xFFFF {
            prev
        } else {
            prev.push(word as u16)
        }
    }
}

/// Decodes the fan-speed block of the controller's memory map: four
/// little-endian 16-bit slots, of which a slot reading `0xFFFF` marks a fan
/// that is not present.
pub fn fan_rpms_from_bytes(bytes: &Vec<u8>) -> (r: Vec<u16>)
    requires
        bytes@.len() >= 8,
    ensures
        r@ == spec_fan_rpms(bytes@, 4),
{
    let mut rpms: Vec<u16> = Vec::new();
    let mut i: usize = 0;
    while i < 4
        invariant
            i <= 4,
            bytes@.len() >= 8,
            rpms@ == spec_fan_rpms(bytes@, i as int),
        decreases 4 - i,
    {
        let low = bytes[2 * i];
        let high = bytes[2 * i + 1];
        let rpm: u16 = low as u16 + 256 * (high as u16);
        if rpm != 0xFFFF {
            rpms.push(rpm);
        }
        i = i + 1;
    }
    rpms
}

/// When snapshots are re-fetched: the configured minimum period and the
/// instant of the last fetch, in milliseconds of a monotone clock.
///
/// The decision to fetch is taken here; the fetch itself is the caller's.
#[derive(Clone, Copy, Debug, PartialEq, Eq, Structural)]
pub struct RefreshSource {
    pub period_ms: u64,
    pub last_poll_ms: u64,
}

impl RefreshSource {
    /// A fetch is due once at least a full period has elapsed since the last
    /// one.
    pub open spec fn due(self, now_ms: u64) -> bool {
        now_ms - self.last_poll_ms >= self.period_ms
    }

    /// The source as it stands after `poll_if_needed` at `now_ms`.
    pub open spec fn spec_poll_if_needed(self, now_ms: u64) -> RefreshSource {
        if self.due(now_ms) {
            RefreshSource { last_poll_ms: now_ms, ..self }
        } else {
            self
        }
    }

    /// A source whose first fetch just happened at `now_ms`.
    pub fn new(now_ms: u64, period_ms: u64) -> (r: Self)
        ensures
            r.period_ms == period_ms,
            r.last_poll_ms == now_ms,
    {
        RefreshSource { period_ms, last_poll_ms: now_ms }
    }

    /// Records an unconditional re-fetch at `now_ms`.
    pub fn poll(&mut self, now_ms: u64)
        ensures
            *final(self) == (RefreshSource { last_poll_ms: now_ms, ..*old(self) }),
    {
        self.last_poll_ms = now_ms;
    }

    /// Decides whether a re-fetch is owed at `now_ms`: true, with the fetch
    /// recorded, exactly when the elapsed time since the last fetch has
    /// reached the configured period; otherwise a no-op.
    pub fn poll_if_needed(&mut self, now_ms: u64) -> (fetch: bool)
        requires
            now_ms >= old(self).last_poll_ms,
        ensures
            fetch == old(self).due(now_ms),
            *final(self) == old(self).spec_poll_if_needed(now_ms),
    {
        if now_ms - self.last_poll_ms >= self.period_ms {
            self.last_poll_ms = now_ms;
            true
        } else {
            false
        }
    }

    /// Records a change of the configured period.
    pub fn set_period(&mut self, period_ms: u64)
        ensures
            *final(self) == (RefreshSource { period_ms, ..*old(self) }),
    {
        self.period_ms = period_ms;
    }
}

/// Two `poll_if_needed` decisions in immediate succession fetch at most
/// once: whenever the configured period is positive, a fetch at some instant
/// leaves no second fetch due at that same instant.
pub proof fn lemma_poll_if_needed_at_most_once(source: RefreshSource, now_ms: u64)
    requires
        source.period_ms >= 1,
        now_ms >= source.last_poll_ms,
    ensures
        !(source.due(now_ms) && source.spec_poll_if_needed(now_ms).due(now_ms)),
{
}

} // verus!
