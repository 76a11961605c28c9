//! Terminal-side state: controls, panels, focus routing and themes.

pub mod component;
pub mod control;
pub mod theme;

use vstd::prelude::*;
use crate::app::AppEvent;
use crate::config::Config;
use crate::event::Key;
use crate::framework::fingerprint::Fingerprint;
use crate::framework::info::FrameworkInfo;
use crate::tui::component::main::{spec_initial_main, MainComponent, MainView};
use crate::tui::theme::ThemeVariant;

verus! {

/// The transient, dismissible message shown to the operator after a failed
/// hardware command.  The newest message replaces the old one; Esc dismisses
/// it.
#[derive(Clone, Debug, PartialEq, Eq)]
pub enum StatusMessage {
    /// The firmware predates the fingerprint-brightness command; shown with
    /// a dedicated text instead of the raw error.
    FingerprintNeedsBiosUpdate,
    /// Some other setting was rejected for the same reason.
    FirmwareUpdateRequired,
    /// Any other hardware failure, carried as its rendered text.
    Hardware(String),
}

impl StatusMessage {
    pub open spec fn spec_text(self) -> Seq<char> {
        match self {
            StatusMessage::FingerprintNeedsBiosUpdate => "Couldn't set fingerprint brightness. Please, update your BIOS."@,
            StatusMessage::FirmwareUpdateRequired => "This setting requires a firmware update."@,
            StatusMessage::Hardware(message) => message@,
        }
    }

    /// The text the message area displays.
    pub fn text(&self) -> (r: &str)
        ensures
            r@ == self.spec_text(),
    {
        match self {
            StatusMessage::FingerprintNeedsBiosUpdate => "Couldn't set fingerprint brightness. Please, update your BIOS.",
            StatusMessage::FirmwareUpdateRequired => "This setting requires a firmware update.",
            StatusMessage::Hardware(message) => message.as_str(),
        }
    }
}

/// The interface state the renderer reads and the input keys mutate: the
/// panel registry, the pending status message, and the configured theme.
pub struct Tui {
    pub main: MainComponent,
    pub error_message: Option<StatusMessage>,
    pub config: Config,
}

/// The mathematical model of the interface state.
#[verifier::ext_equal]
pub struct TuiView {
    pub main: MainView,
    pub error_message: Option<StatusMessage>,
    pub config: Config,
}

impl View for Tui {
    type V = TuiView;

    open spec fn view(&self) -> TuiView {
        TuiView { main: self.main@, error_message: self.error_message, config: self.config }
    }
}

impl TuiView {
    pub open spec fn wf(self) -> bool {
        self.main.wf()
    }

    /// Effect of the top-level keys, checked before any panel sees the
    /// event: `q` yields quit, `b` and `n` cycle the theme, and Esc
    /// dismisses a pending status message.
    pub open spec fn spec_top_level(self, key: Key) -> (TuiView, Option<AppEvent>) {
        match key {
            Key::Char(c) => {
                if c == 'q' {
                    (self, Some(AppEvent::Quit))
                } else if c == 'b' {
                    (
                        TuiView {
                            config: Config {
                                theme: self.config.theme.spec_previous(),
                                ..self.config
                            },
                            ..self
                        },
                        None,
                    )
                } else if c == 'n' {
                    (
                        TuiView {
                            config: Config { theme: self.config.theme.spec_next(), ..self.config },
                            ..self
                        },
                        None,
                    )
                } else {
                    (self, None)
                }
            },
            Key::Esc => {
                if self.error_message is Some {
                    (TuiView { error_message: None, ..self }, None)
                } else {
                    (self, None)
                }
            },
            _ => (self, None),
        }
    }

    /// The full effect of one key: the top-level keys are checked first;
    /// then, unless a status message is (still) showing, the key is offered
    /// to the panel registry, and a top-level command wins over a panel one.
    pub open spec fn spec_handle_input(self, key: Key) -> (TuiView, Option<AppEvent>) {
        let (mid, top_level) = self.spec_top_level(key);
        if mid.error_message is Some {
            (mid, top_level)
        } else {
            let (main, routed) = mid.main.spec_handle_input(key);
            (
                TuiView { main, ..mid },
                if top_level is Some {
                    top_level
                } else {
                    routed
                },
            )
        }
    }
}

impl Tui {
    /// A fresh interface over the given fingerprint policy and persisted
    /// configuration, with no panel selected and no message pending.  The
    /// snapshot is taken by reference for symmetry with the render path; the
    /// controls sync to it on the first render.
    pub fn new(fingerprint: Fingerprint, _info: &FrameworkInfo, config: Config) -> (r: Self)
        ensures
            r@.wf(),
            r@.main == spec_initial_main(fingerprint),
            r@.error_message is None,
            r@.config == config,
    {
        Tui { main: MainComponent::new(fingerprint), error_message: None, config }
    }

    /// Switches to the next theme in the cycle; the surrounding program
    /// persists the change.
    pub fn next_theme(&mut self)
        ensures
            *final(self) == (Tui {
                config: Config { theme: old(self).config.theme.spec_next(), ..old(self).config },
                ..*old(self)
            }),
    {
        let next_variant = self.config.theme.next();
        self.config.set_theme(next_variant);
    }

    /// Switches to the previous theme in the cycle; the surrounding program
    /// persists the change.
    pub fn previous_theme(&mut self)
        ensures
            *final(self) == (Tui {
                config: Config {
                    theme: old(self).config.theme.spec_previous(),
                    ..old(self).config
                },
                ..*old(self)
            }),
    {
        let previous_variant = self.config.theme.previous();
        self.config.set_theme(previous_variant);
    }

    pub fn current_theme_name(&self) -> (r: &'static str)
        ensures
            r@ == self.config.theme.spec_name(),
    {
        self.config.theme.name()
    }

    /// Shows a failure to the operator; the newest message replaces any
    /// older one.
    pub fn set_error(&mut self, message: String)
        ensures
            *final(self) == (Tui {
                error_message: Some(StatusMessage::Hardware(message)),
                ..*old(self)
            }),
    {
        self.error_message = Some(StatusMessage::Hardware(message));
    }

    /// Routes one key per `TuiView::spec_handle_input`.
    pub fn handle_input(&mut self, key: Key) -> (r: Option<AppEvent>)
        requires
            old(self)@.wf(),
        ensures
            final(self)@.wf(),
            (final(self)@, r) == old(self)@.spec_handle_input(key),
    {
        let top_level_event: Option<AppEvent> = match key {
            Key::Char(c) => {
                if c == 'q' {
                    Some(AppEvent::Quit)
                } else if c == 'b' {
                    self.previous_theme();
                    None
                } else if c == 'n' {
                    self.next_theme();
                    None
                } else {
                    None
                }
            },
            Key::Esc => {
                if self.error_message.is_some() {
                    self.error_message = None;
                }
                None
            },
            _ => None,
        };
        if self.error_message.is_some() {
            top_level_event
        } else {
            let routed = self.main.handle_input(key);
            if top_level_event.is_some() {
                top_level_event
            } else {
                routed
            }
        }
    }
}

} // verus!
