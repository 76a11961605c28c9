//! The charge panel: battery telemetry plus the editable max-charge-limit
//! control.

use vstd::prelude::*;
use crate::app::AppEvent;
use crate::event::Key;
use crate::tui::component::{spec_synced_percentage, AdjustablePanel, PanelView};
use crate::tui::control::{percentage_control, AdjustableControl};

verus! {

/// The single editable control of this panel.
pub const MAX_CHARGE_LIMIT_CONTROL_INDEX: usize = 0;

/// The charge panel's adjustable state.  All other rows of the panel are
/// read straight from the snapshot by the renderer.
pub struct ChargePanelComponent(pub AdjustablePanel);

impl ChargePanelComponent {
    /// The panel holds exactly its one control, well-formed.
    pub open spec fn wf(self) -> bool {
        &&& self.0@.wf()
        &&& self.0@.controls.len() == 1
    }

    /// The command an Enter-commit yields: the edited limit, provided the
    /// panel is armed on the max-charge-limit control.
    pub open spec fn spec_commit_event(panel: PanelView) -> Option<AppEvent> {
        if panel.armed() && panel.selected_control == MAX_CHARGE_LIMIT_CONTROL_INDEX {
            match panel.current_control() {
                AdjustableControl::Percentage(_, value) => Some(AppEvent::SetMaxChargeLimit(value)),
                _ => None,
            }
        } else {
            None
        }
    }

    /// How one key changes the panel and what command it yields.  A panel
    /// without top-level focus ignores every key.  Enter is the single
    /// moment an edited value becomes an outbound command; Esc performs the
    /// same focus transition without emitting one.
    pub open spec fn spec_handle_input(panel: PanelView, key: Key) -> (PanelView, Option<
        AppEvent,
    >) {
        if !panel.selected {
            (panel, None)
        } else {
            match key {
                Key::Down => (panel.with_cursor(panel.cursor_down()), None),
                Key::Up => (panel.with_cursor(panel.cursor_up()), None),
                Key::Enter => (panel.spec_toggle_current_focus(), Self::spec_commit_event(panel)),
                Key::Left => (panel.spec_adjust_focused_percentage(-5), None),
                Key::Right => (panel.spec_adjust_focused_percentage(5), None),
                Key::Esc => (panel.spec_toggle_current_focus(), None),
                _ => (panel, None),
            }
        }
    }

    /// A fresh, unselected panel whose control starts at zero until the
    /// first snapshot re-syncs it.
    pub fn new() -> (r: Self)
        ensures
            r.wf(),
            !r.0@.selected,
            r.0@.selected_control == MAX_CHARGE_LIMIT_CONTROL_INDEX,
            r.0@.controls[0] == AdjustableControl::Percentage(false, 0),
    {
        let mut controls: Vec<AdjustableControl> = Vec::new();
        controls.push(percentage_control(0));
        ChargePanelComponent(
            AdjustablePanel {
                selected: false,
                controls,
                selected_control: MAX_CHARGE_LIMIT_CONTROL_INDEX,
            },
        )
    }

    /// Routes one key per `spec_handle_input`.
    pub fn handle_input(&mut self, key: Key) -> (r: Option<AppEvent>)
        requires
            old(self).wf(),
        ensures
            final(self).wf(),
            (final(self).0@, r) == Self::spec_handle_input(old(self).0@, key),
    {
        let mut app_event: Option<AppEvent> = None;
        if self.0.is_selected() {
            match key {
                Key::Down => self.0.cycle_controls_down(),
                Key::Up => self.0.cycle_controls_up(),
                Key::Enter => {
                    match self.0.get_selected_and_focused_control() {
                        Some(control) if self.0.selected_control
                            == MAX_CHARGE_LIMIT_CONTROL_INDEX => {
                            if let Some(value) = control.get_percentage_value() {
                                app_event = Some(AppEvent::SetMaxChargeLimit(value));
                            }
                        },
                        _ => {},
                    }
                    self.0.toggle_selected_control_focus();
                },
                Key::Left => self.0.adjust_focused_percentage_control_by_delta(-5),
                Key::Right => self.0.adjust_focused_percentage_control_by_delta(5),
                Key::Esc => self.0.toggle_selected_control_focus(),
                _ => {},
            }
        }
        app_event
    }

    /// The value the max-charge-limit row displays, re-synced from the
    /// snapshot while not being edited; see
    /// `AdjustablePanel::displayed_percentage`.
    pub fn displayed_max_charge_limit(&mut self, snapshot_value: Option<u8>) -> (r: Option<u8>)
        requires
            old(self).wf(),
            snapshot_value matches Some(v) ==> v <= 100,
        ensures
            final(self).wf(),
            ({
                let (panel, shown) = spec_synced_percentage(
                    old(self).0@,
                    MAX_CHARGE_LIMIT_CONTROL_INDEX as int,
                    snapshot_value,
                );
                final(self).0@ == panel && r == shown
            }),
    {
        self.0.displayed_percentage(MAX_CHARGE_LIMIT_CONTROL_INDEX, snapshot_value)
    }
}

/// Commit against cancel, from any armed edit of the max-charge-limit
/// control holding `value`:
///
/// - Esc leaves the control unfocused and yields no command, and the next
///   non-focused render against a snapshot reading `snapshot_value` reverts
///   the control to that snapshot-derived value;
/// - Enter leaves the control unfocused too, but yields exactly the one
///   command carrying the edited value.
pub proof fn lemma_commit_vs_cancel(panel: PanelView, value: u8, snapshot_value: u8)
    requires
        panel.wf(),
        panel.controls.len() == 1,
        panel.selected_control == MAX_CHARGE_LIMIT_CONTROL_INDEX,
        panel.armed(),
        panel.current_control() == AdjustableControl::Percentage(true, value),
        snapshot_value <= 100,
    ensures
        ({
            let (after_esc, command) = ChargePanelComponent::spec_handle_input(panel, Key::Esc);
            let (after_render, shown) = spec_synced_percentage(
                after_esc,
                MAX_CHARGE_LIMIT_CONTROL_INDEX as int,
                Some(snapshot_value),
            );
            &&& command is None
            &&& after_esc.current_control() == AdjustableControl::Percentage(false, value)
            &&& !after_esc.armed()
            &&& shown == Some(snapshot_value)
            &&& after_render.current_control() == AdjustableControl::Percentage(
                false,
                snapshot_value,
            )
        }),
        ({
            let (after_enter, command) = ChargePanelComponent::spec_handle_input(panel, Key::Enter);
            &&& command == Some(AppEvent::SetMaxChargeLimit(value))
            &&& after_enter.current_control() == AdjustableControl::Percentage(false, value)
            &&& !after_enter.armed()
        }),
{
}

} // verus!
