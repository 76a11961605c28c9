//! The application controller: owns the snapshot and the interface state,
//! and executes the commands that committed edits produce.
//!
//! The firmware write itself happens outside the library; the controller is
//! handed its outcome and decides, for every event and every outcome, how
//! the state changes.  A failed command never stops the loop: it becomes a
//! dismissible status message.

use vstd::prelude::*;
use crate::config::Config;
use crate::framework::fingerprint::Fingerprint;
use crate::framework::info::FrameworkInfo;
use crate::framework::HwError;
use crate::tui::{StatusMessage, Tui, TuiView};

verus! {

/// A high-level command yielded by the interface for the controller to
/// execute: stop the loop, write a committed setting to the firmware, or
/// retime the background refresh.
#[derive(Clone, Copy, Debug, PartialEq, Eq, Structural)]
pub enum AppEvent {
    Quit,
    SetMaxChargeLimit(u8),
    SetFingerprintBrightness(u8),
    SetKeyboardBrightness(u8),
    SetTickInterval(u64),
}

/// The controller state: the current snapshot, the loop flag, the interface
/// and the configuration.
pub struct App {
    pub info: FrameworkInfo,
    pub running: bool,
    pub tui: Tui,
    pub config: Config,
}

/// The mathematical model of the controller state.
#[verifier::ext_equal]
pub struct AppView {
    pub info: FrameworkInfo,
    pub running: bool,
    pub tui: TuiView,
    pub config: Config,
}

impl View for App {
    type V = AppView;

    open spec fn view(&self) -> AppView {
        AppView { info: self.info, running: self.running, tui: self.tui@, config: self.config }
    }
}

/// The status message a failed command turns into: the firmware-too-old
/// rejection gets its dedicated text, anything else is shown as reported.
pub open spec fn spec_status_of(error: HwError) -> StatusMessage {
    match error {
        HwError::FirmwareUpdateRequired => StatusMessage::FirmwareUpdateRequired,
        HwError::Other(message) => StatusMessage::Hardware(message),
    }
}

impl AppView {
    pub open spec fn wf(self) -> bool {
        self.tui.wf()
    }

    /// The same state with a status message shown.
    pub open spec fn with_error(self, message: StatusMessage) -> AppView {
        AppView { tui: TuiView { error_message: Some(message), ..self.tui }, ..self }
    }

    /// How one command and the outcome of its firmware write change the
    /// state.
    ///
    /// - `Quit` stops the loop.
    /// - A successful setter is mirrored into the snapshot at once, so the
    ///   display does not wait for the next poll.
    /// - A failed fingerprint write whose cause is outdated firmware is
    ///   rewritten into its dedicated message; every other failure is shown
    ///   as reported.  The loop always continues.
    /// - The keyboard backlight write is fire-and-forget by design of the
    ///   firmware interface: no outcome is surfaced, the snapshot is
    ///   mirrored unconditionally.
    /// - A tick-interval change is recorded in the configuration; the
    ///   caller retimes the background task.
    pub open spec fn spec_handle_event(
        self,
        event: AppEvent,
        hw: Result<(), HwError>,
    ) -> AppView {
        match event {
            AppEvent::Quit => AppView { running: false, ..self },
            AppEvent::SetMaxChargeLimit(value) => match hw {
                Ok(_) => AppView {
                    info: FrameworkInfo { max_charge_limit: Some(value), ..self.info },
                    ..self
                },
                Err(error) => self.with_error(spec_status_of(error)),
            },
            AppEvent::SetFingerprintBrightness(percentage) => match hw {
                Ok(_) => AppView {
                    info: FrameworkInfo {
                        fp_brightness_percentage: Some(percentage),
                        ..self.info
                    },
                    ..self
                },
                Err(HwError::FirmwareUpdateRequired) => self.with_error(
                    StatusMessage::FingerprintNeedsBiosUpdate,
                ),
                Err(error) => self.with_error(spec_status_of(error)),
            },
            AppEvent::SetKeyboardBrightness(percentage) => AppView {
                info: FrameworkInfo { kb_brightness_percentage: Some(percentage), ..self.info },
                ..self
            },
            AppEvent::SetTickInterval(interval_ms) => AppView {
                config: Config { tick_interval_ms: interval_ms, ..self.config },
                ..self
            },
        }
    }
}

impl App {
    /// A fresh controller around the probed fingerprint policy, the
    /// pre-fetched snapshot and the loaded configuration.
    pub fn new(fingerprint: Fingerprint, info: FrameworkInfo, config: Config) -> (r: Self)
        ensures
            r@.wf(),
            r@.info == info,
            r@.running,
            r@.config == config,
            r@.tui.error_message is None,
            r@.tui.config == config,
            r@.tui.main == crate::tui::component::main::spec_initial_main(fingerprint),
    {
        let tui = Tui::new(fingerprint, &info, config);
        App { info, running: true, tui, config }
    }

    /// Installs the snapshot a completed poll produced; each poll replaces
    /// the whole value.
    pub fn set_info(&mut self, info: FrameworkInfo)
        ensures
            *final(self) == (App { info, ..*old(self) }),
    {
        self.info = info;
    }

    /// Applies one command and the outcome of its firmware write; see
    /// `AppView::spec_handle_event`.
    pub fn handle_event(&mut self, event: AppEvent, hw: Result<(), HwError>)
        requires
            old(self)@.wf(),
        ensures
            final(self)@.wf(),
            final(self)@ == old(self)@.spec_handle_event(event, hw),
    {
        match event {
            AppEvent::Quit => self.quit(),
            AppEvent::SetMaxChargeLimit(value) => {
                match hw {
                    Ok(_) => {
                        self.info.max_charge_limit = Some(value);
                    },
                    Err(error) => {
                        self.tui.error_message = Some(status_of(error));
                    },
                }
            },
            AppEvent::SetFingerprintBrightness(percentage) => {
                match hw {
                    Ok(_) => {
                        self.info.fp_brightness_percentage = Some(percentage);
                    },
                    Err(HwError::FirmwareUpdateRequired) => {
                        self.tui.error_message = Some(StatusMessage::FingerprintNeedsBiosUpdate);
                    },
                    Err(error) => {
                        self.tui.error_message = Some(status_of(error));
                    },
                }
            },
            AppEvent::SetKeyboardBrightness(percentage) => {
                self.info.kb_brightness_percentage = Some(percentage);
            },
            AppEvent::SetTickInterval(interval_ms) => {
                self.config.set_tick_interval(interval_ms);
            },
        }
    }

    /// Stops the foreground loop.
    pub fn quit(&mut self)
        ensures
            *final(self) == (App { running: false, ..*old(self) }),
    {
        self.running = false;
    }
}

/// See `spec_status_of`.
fn status_of(error: HwError) -> (r: StatusMessage)
    ensures
        r == spec_status_of(error),
{
    match error {
        HwError::FirmwareUpdateRequired => StatusMessage::FirmwareUpdateRequired,
        HwError::Other(message) => StatusMessage::Hardware(message),
    }
}

} // verus!
