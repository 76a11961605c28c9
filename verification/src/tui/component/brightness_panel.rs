//! The brightness panel: the fingerprint-LED control, stepped through the
//! capability-aware policy, and the keyboard-backlight control.

use vstd::prelude::*;
use crate::app::AppEvent;
use crate::event::Key;
use crate::framework::fingerprint::{spec_adjust_led_brightness, Fingerprint};
use crate::tui::component::{spec_synced_percentage, AdjustablePanel, PanelView};
use crate::tui::control::{percentage_control, AdjustableControl};

verus! {

/// The two editable controls of this panel, in order.
pub const FINGERPRINT_BRIGHTNESS_CONTROL_INDEX: usize = 0;

pub const KEYBOARD_BRIGHTNESS_CONTROL_INDEX: usize = 1;

/// The brightness panel's adjustable state plus the immutable fingerprint
/// policy injected at construction.
pub struct BrightnessPanelComponent {
    pub panel: AdjustablePanel,
    pub fingerprint: Fingerprint,
}

impl BrightnessPanelComponent {
    /// The panel holds exactly its two controls, well-formed.
    pub open spec fn wf(self) -> bool {
        &&& self.panel@.wf()
        &&& self.panel@.controls.len() == 2
    }

    /// Effect of stepping the fingerprint control through the brightness
    /// policy: only while the panel is armed and the current control is a
    /// percentage, and committed only if the policy's answer stays within
    /// `[0, 100]` — an answer beyond the scale is ignored.
    pub open spec fn spec_adjust_fp(panel: PanelView, fingerprint: Fingerprint, delta: int) -> PanelView {
        match panel.current_control() {
            AdjustableControl::Percentage(focused, value) => {
                if panel.armed() {
                    let stepped = spec_adjust_led_brightness(
                        fingerprint.led_brightness_capability,
                        value,
                        delta,
                    );
                    if 0 <= stepped <= 100 {
                        panel.with_control(
                            panel.selected_control,
                            AdjustableControl::Percentage(focused, stepped as u8),
                        )
                    } else {
                        panel
                    }
                } else {
                    panel
                }
            },
            _ => panel,
        }
    }

    /// The command an Enter-commit yields: the edited value for whichever of
    /// the two controls the panel is armed on.
    pub open spec fn spec_commit_event(panel: PanelView) -> Option<AppEvent> {
        if panel.armed() {
            match panel.current_control() {
                AdjustableControl::Percentage(_, value) => {
                    if panel.selected_control == FINGERPRINT_BRIGHTNESS_CONTROL_INDEX {
                        Some(AppEvent::SetFingerprintBrightness(value))
                    } else if panel.selected_control == KEYBOARD_BRIGHTNESS_CONTROL_INDEX {
                        Some(AppEvent::SetKeyboardBrightness(value))
                    } else {
                        None
                    }
                },
                _ => None,
            }
        } else {
            None
        }
    }

    /// How one key changes the panel and what command it yields.  Left and
    /// Right step the keyboard control linearly but send the fingerprint
    /// control through the brightness policy, so one interaction serves both
    /// hardware generations.
    pub open spec fn spec_handle_input(panel: PanelView, fingerprint: Fingerprint, key: Key) -> (
        PanelView,
        Option<AppEvent>,
    ) {
        if !panel.selected {
            (panel, None)
        } else {
            match key {
                Key::Down => (panel.with_cursor(panel.cursor_down()), None),
                Key::Up => (panel.with_cursor(panel.cursor_up()), None),
                Key::Enter => (panel.spec_toggle_current_focus(), Self::spec_commit_event(panel)),
                Key::Left => {
                    if panel.selected_control == KEYBOARD_BRIGHTNESS_CONTROL_INDEX {
                        (panel.spec_adjust_focused_percentage(-5), None)
                    } else {
                        (Self::spec_adjust_fp(panel, fingerprint, -5), None)
                    }
                },
                Key::Right => {
                    if panel.selected_control == KEYBOARD_BRIGHTNESS_CONTROL_INDEX {
                        (panel.spec_adjust_focused_percentage(5), None)
                    } else {
                        (Self::spec_adjust_fp(panel, fingerprint, 5), None)
                    }
                },
                Key::Esc => (panel.spec_toggle_current_focus(), None),
                _ => (panel, None),
            }
        }
    }

    /// A fresh, unselected panel whose controls start at zero until the
    /// first snapshot re-syncs them.
    pub fn new(fingerprint: Fingerprint) -> (r: Self)
        ensures
            r.wf(),
            !r.panel@.selected,
            r.panel@.selected_control == FINGERPRINT_BRIGHTNESS_CONTROL_INDEX,
            r.panel@.controls[0] == AdjustableControl::Percentage(false, 0),
            r.panel@.controls[1] == AdjustableControl::Percentage(false, 0),
            r.fingerprint == fingerprint,
    {
        let mut controls: Vec<AdjustableControl> = Vec::new();
        controls.push(percentage_control(0));
        controls.push(percentage_control(0));
        BrightnessPanelComponent {
            panel: AdjustablePanel {
                selected: false,
                controls,
                selected_control: FINGERPRINT_BRIGHTNESS_CONTROL_INDEX,
            },
            fingerprint,
        }
    }

    /// Steps the fingerprint control through the policy; see
    /// `spec_adjust_fp`.
    pub fn adjust_focused_fp_brightness_control(&mut self, delta: i8)
        requires
            old(self).wf(),
        ensures
            final(self).wf(),
            final(self).panel@ == Self::spec_adjust_fp(
                old(self).panel@,
                old(self).fingerprint,
                delta as int,
            ),
            final(self).fingerprint == old(self).fingerprint,
    {
        if let Some(AdjustableControl::Percentage(focused, value)) =
            self.panel.get_selected_and_focused_control() {
            let stepped = self.fingerprint.adjust_led_brightness_by_delta(value, delta);
            if stepped <= 100 {
                let index = self.panel.selected_control;
                self.panel.set_percentage_control_by_index(
                    index,
                    AdjustableControl::Percentage(focused, stepped),
                );
            }
        }
    }

    /// Routes one key per `spec_handle_input`.
    pub fn handle_input(&mut self, key: Key) -> (r: Option<AppEvent>)
        requires
            old(self).wf(),
        ensures
            final(self).wf(),
            (final(self).panel@, r) == Self::spec_handle_input(
                old(self).panel@,
                old(self).fingerprint,
                key,
            ),
            final(self).fingerprint == old(self).fingerprint,
    {
        let mut app_event: Option<AppEvent> = None;
        if self.panel.is_selected() {
            match key {
                Key::Down => self.panel.cycle_controls_down(),
                Key::Up => self.panel.cycle_controls_up(),
                Key::Enter => {
                    match self.panel.get_selected_and_focused_control() {
                        Some(control) if self.panel.selected_control
                            == FINGERPRINT_BRIGHTNESS_CONTROL_INDEX => {
                            if let Some(value) = control.get_percentage_value() {
                                app_event = Some(AppEvent::SetFingerprintBrightness(value));
                            }
                        },
                        Some(control) if self.panel.selected_control
                            == KEYBOARD_BRIGHTNESS_CONTROL_INDEX => {
                            if let Some(value) = control.get_percentage_value() {
                                app_event = Some(AppEvent::SetKeyboardBrightness(value));
                            }
                        },
                        _ => {},
                    }
                    self.panel.toggle_selected_control_focus();
                },
                Key::Left => {
                    if self.panel.selected_control == KEYBOARD_BRIGHTNESS_CONTROL_INDEX {
                        self.panel.adjust_focused_percentage_control_by_delta(-5);
                    } else {
                        self.adjust_focused_fp_brightness_control(-5);
                    }
                },
                Key::Right => {
                    if self.panel.selected_control == KEYBOARD_BRIGHTNESS_CONTROL_INDEX {
                        self.panel.adjust_focused_percentage_control_by_delta(5);
                    } else {
                        self.adjust_focused_fp_brightness_control(5);
                    }
                },
                Key::Esc => self.panel.toggle_selected_control_focus(),
                _ => {},
            }
        }
        app_event
    }

    /// The value the fingerprint row displays, re-synced from the snapshot
    /// while not being edited; see `AdjustablePanel::displayed_percentage`.
    pub fn displayed_fp_brightness(&mut self, snapshot_value: Option<u8>) -> (r: Option<u8>)
        requires
            old(self).wf(),
            snapshot_value matches Some(v) ==> v <= 100,
        ensures
            final(self).wf(),
            final(self).fingerprint == old(self).fingerprint,
            ({
                let (panel, shown) = spec_synced_percentage(
                    old(self).panel@,
                    FINGERPRINT_BRIGHTNESS_CONTROL_INDEX as int,
                    snapshot_value,
                );
                final(self).panel@ == panel && r == shown
            }),
    {
        self.panel.displayed_percentage(FINGERPRINT_BRIGHTNESS_CONTROL_INDEX, snapshot_value)
    }

    /// The value the keyboard row displays, re-synced from the snapshot
    /// while not being edited; see `AdjustablePanel::displayed_percentage`.
    pub fn displayed_kb_brightness(&mut self, snapshot_value: Option<u8>) -> (r: Option<u8>)
        requires
            old(self).wf(),
            snapshot_value matches Some(v) ==> v <= 100,
        ensures
            final(self).wf(),
            final(self).fingerprint == old(self).fingerprint,
            ({
                let (panel, shown) = spec_synced_percentage(
                    old(self).panel@,
                    KEYBOARD_BRIGHTNESS_CONTROL_INDEX as int,
                    snapshot_value,
                );
                final(self).panel@ == panel && r == shown
            }),
    {
        self.panel.displayed_percentage(KEYBOARD_BRIGHTNESS_CONTROL_INDEX, snapshot_value)
    }
}

} // verus!
