//! The snapshot: one immutable, point-in-time read of all displayed
//! telemetry, and the small rules that derive displayed values from raw
//! firmware answers.
//!
//! A snapshot is produced wholesale by one poll of the hardware and never
//! partially mutated; each poll replaces the whole value.  The raw firmware
//! structures are unpacked into the plain values below by the surrounding
//! program; fractional readings arrive in their natural integer unit
//! (millivolts rather than volts).

use vstd::prelude::*;

verus! {

/// What one USB-PD port reported.
#[derive(Clone, Debug, PartialEq, Eq)]
pub struct PdPortInfo {
    pub role: String,
    pub dualrole: String,
    pub charging_type: String,
    pub max_power: u32,
    pub voltage_now_mv: u32,
    pub voltage_max_mv: u32,
    pub current_limit: u16,
    pub current_max: u16,
}

/// The four chassis ports, named by their position.
#[derive(Clone, Debug, PartialEq, Eq)]
pub struct PdPortsInfo {
    pub left_back: Option<PdPortInfo>,
    pub left_front: Option<PdPortInfo>,
    pub right_back: Option<PdPortInfo>,
    pub right_front: Option<PdPortInfo>,
}

impl Default for PdPortsInfo {
    fn default() -> (r: Self)
        ensures
            r.left_back is None,
            r.left_front is None,
            r.right_back is None,
            r.right_front is None,
    {
        PdPortsInfo { left_back: None, left_front: None, right_back: None, right_front: None }
    }
}

/// One point-in-time read of the displayed device state.  A reading the
/// firmware could not provide is `None` and displays as unavailable.
#[derive(Clone, Debug, PartialEq, Eq)]
pub struct FrameworkInfo {
    pub charge_percentage: Option<u32>,
    pub charger_voltage: Option<u32>,
    pub charger_current: Option<u32>,
    pub design_capacity: Option<u32>,
    pub last_full_charge_capacity: Option<u32>,
    pub cycle_count: Option<u32>,
    pub is_charging: bool,
    pub is_ac_connected: bool,
    pub charging_status: &'static str,
    pub max_charge_limit: Option<u8>,
    pub is_microphone_enabled: bool,
    pub is_camera_enabled: bool,
    pub fp_brightness_percentage: Option<u8>,
    pub kb_brightness_percentage: Option<u8>,
    pub smbios_version: Option<String>,
    pub smbios_release_date: Option<String>,
    pub smbios_vendor: Option<String>,
    pub pd_ports: PdPortsInfo,
    pub fan_rpm: Option<Vec<u16>>,
}

impl Default for FrameworkInfo {
    /// The empty snapshot shown before the first poll answers: nothing
    /// available, nothing charging, both privacy switches off.
    fn default() -> (r: Self)
        ensures
            r.charge_percentage is None,
            r.charger_voltage is None,
            r.charger_current is None,
            r.design_capacity is None,
            r.last_full_charge_capacity is None,
            r.cycle_count is None,
            !r.is_charging,
            !r.is_ac_connected,
            r.charging_status@ == spec_charging_status(false, false),
            r.max_charge_limit is None,
            !r.is_microphone_enabled,
            !r.is_camera_enabled,
            r.fp_brightness_percentage is None,
            r.kb_brightness_percentage is None,
            r.smbios_version is None,
            r.smbios_release_date is None,
            r.smbios_vendor is None,
            r.fan_rpm is None,
    {
        FrameworkInfo {
            charge_percentage: None,
            charger_voltage: None,
            charger_current: None,
            design_capacity: None,
            last_full_charge_capacity: None,
            cycle_count: None,
            is_charging: false,
            is_ac_connected: false,
            charging_status: charging_status(false, false),
            max_charge_limit: None,
            is_microphone_enabled: false,
            is_camera_enabled: false,
            fp_brightness_percentage: None,
            kb_brightness_percentage: None,
            smbios_version: None,
            smbios_release_date: None,
            smbios_vendor: None,
            pd_ports: PdPortsInfo::default(),
            fan_rpm: None,
        }
    }
}

/// The battery status line shown next to the charge gauge, as a function of
/// the charging flag and the AC flag.
pub open spec fn spec_charging_status(is_charging: bool, is_ac_connected: bool) -> Seq<char> {
    if is_charging && is_ac_connected {
        "Charging"@
    } else if !is_charging && is_ac_connected {
        "Fully charged"@
    } else if !is_charging && !is_ac_connected {
        "Discharging"@
    } else {
        "Unknown"@
    }
}

/// See `spec_charging_status`.
pub fn charging_status(is_charging: bool, is_ac_connected: bool) -> (r: &'static str)
    ensures
        r@ == spec_charging_status(is_charging, is_ac_connected),
{
    match (is_charging, is_ac_connected) {
        (true, true) => "Charging",
        (false, true) => "Fully charged",
        (false, false) => "Discharging",
        (true, false) => "Unknown",
    }
}

/// The displayed charge limit is the upper bound of the firmware's
/// `(minimum, maximum)` pair.
pub fn max_charge_limit(charge_limit: &Option<(u8, u8)>) -> (r: Option<u8>)
    ensures
        r == match *charge_limit {
            Some(pair) => Some(pair.1),
            None => None::<u8>,
        },
{
    match charge_limit {
        Some(pair) => Some(pair.1),
        None => None,
    }
}

/// The microphone switch is the first flag of the firmware's privacy pair;
/// an unanswered probe displays as disabled.
pub fn is_microphone_enabled(privacy: &Option<(bool, bool)>) -> (r: bool)
    ensures
        r == match *privacy {
            Some(pair) => pair.0,
            None => false,
        },
{
    match privacy {
        Some(pair) => pair.0,
        None => false,
    }
}

/// The camera switch is the second flag of the firmware's privacy pair; an
/// unanswered probe displays as disabled.
pub fn is_camera_enabled(privacy: &Option<(bool, bool)>) -> (r: bool)
    ensures
        r == match *privacy {
            Some(pair) => pair.1,
            None => false,
        },
{
    match privacy {
        Some(pair) => pair.1,
        None => false,
    }
}

/// The keyboard backlight reading is used as reported.
pub fn kb_brightness_percentage(kb_brightness: Option<u8>) -> (r: Option<u8>)
    ensures
        r == kb_brightness,
{
    kb_brightness
}

} // verus!
