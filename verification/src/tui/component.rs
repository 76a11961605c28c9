//! Panels: ordered groups of controls that hold top-level focus as a unit.

pub mod brightness_panel;
pub mod charge_panel;
pub mod main;

use vstd::prelude::*;
use crate::tui::control::AdjustableControl;

verus! {

/// The state of one adjustable panel: whether the panel itself holds
/// top-level focus, its ordered controls, and which control is current.
///
/// The panel is armed for value edits only while it is selected and the
/// current control is focused.
pub struct AdjustablePanel {
    pub selected: bool,
    pub controls: Vec<AdjustableControl>,
    pub selected_control: usize,
}

/// The mathematical model of a panel: the same three components with the
/// control list as a sequence.
#[verifier::ext_equal]
pub struct PanelView {
    pub selected: bool,
    pub controls: Seq<AdjustableControl>,
    pub selected_control: int,
}

impl View for AdjustablePanel {
    type V = PanelView;

    open spec fn view(&self) -> PanelView {
        PanelView {
            selected: self.selected,
            controls: self.controls@,
            selected_control: self.selected_control as int,
        }
    }
}

impl PanelView {
    /// `selected_control` always indexes into `controls`, and every control
    /// keeps its own invariant.
    pub open spec fn wf(self) -> bool {
        &&& self.controls.len() > 0
        &&& 0 <= self.selected_control < self.controls.len()
        &&& forall|i: int| 0 <= i < self.controls.len() ==> self.controls[i].wf()
    }

    /// The control the cursor is on.
    pub open spec fn current_control(self) -> AdjustableControl {
        self.controls[self.selected_control]
    }

    /// Armed for value edits: the panel is selected and the current control
    /// is focused.
    pub open spec fn armed(self) -> bool {
        self.selected && self.current_control().spec_is_focused()
    }

    /// The same panel with the top-level focus flag replaced.
    pub open spec fn with_selected(self, selected: bool) -> Self {
        PanelView { selected, ..self }
    }

    /// The same panel with one control replaced.
    pub open spec fn with_control(self, index: int, control: AdjustableControl) -> Self {
        PanelView { controls: self.controls.update(index, control), ..self }
    }

    /// The same panel with the cursor moved.
    pub open spec fn with_cursor(self, index: int) -> Self {
        PanelView { selected_control: index, ..self }
    }

    /// The cursor position after one step up, wrapping at the first control.
    pub open spec fn cursor_up(self) -> int {
        if self.selected_control == 0 {
            self.controls.len() - 1
        } else {
            self.selected_control - 1
        }
    }

    /// The cursor position after one step down, wrapping past the last one.
    pub open spec fn cursor_down(self) -> int {
        (self.selected_control + 1) % self.controls.len() as int
    }

    /// Effect of a bounded delta on the current control: commits
    /// `value + delta` only when the panel is armed, the current control is a
    /// percentage and the new value stays in `[0, 100]`; otherwise the panel
    /// is unchanged.
    pub open spec fn spec_adjust_focused_percentage(self, delta: int) -> Self {
        match self.current_control() {
            AdjustableControl::Percentage(focused, value) => {
                if self.armed() && 0 <= value + delta <= 100 {
                    self.with_control(
                        self.selected_control,
                        AdjustableControl::Percentage(focused, (value + delta) as u8),
                    )
                } else {
                    self
                }
            },
            _ => self,
        }
    }

    /// The current control with its focus flag flipped in place.
    pub open spec fn spec_toggle_current_focus(self) -> Self {
        self.with_control(self.selected_control, self.current_control().spec_toggle_focus())
    }
}

impl AdjustablePanel {
    /// Flips the panel's top-level focus flag; used when focus moves onto or
    /// off this panel.
    pub fn toggle(&mut self)
        ensures
            final(self)@ == old(self)@.with_selected(!old(self)@.selected),
    {
        self.selected = !self.selected;
    }

    pub fn is_selected(&self) -> (r: bool)
        ensures
            r == self@.selected,
    {
        self.selected
    }

    /// Moves the cursor one control up, wrapping at the first control.
    pub fn cycle_controls_up(&mut self)
        requires
            old(self)@.wf(),
        ensures
            final(self)@.wf(),
            final(self)@ == old(self)@.with_cursor(old(self)@.cursor_up()),
    {
        if self.selected_control == 0 {
            self.selected_control = self.controls.len() - 1;
        } else {
            self.selected_control = self.selected_control - 1;
        }
    }

    /// Moves the cursor one control down, wrapping past the last control.
    pub fn cycle_controls_down(&mut self)
        requires
            old(self)@.wf(),
        ensures
            final(self)@.wf(),
            final(self)@ == old(self)@.with_cursor(old(self)@.cursor_down()),
    {
        let len = self.controls.len();
        self.selected_control = (self.selected_control + 1) % len;
    }

    /// Flips the focus flag of the current control: entering focus arms the
    /// panel for value edits, leaving focus disarms it.
    pub fn toggle_selected_control_focus(&mut self)
        requires
            old(self)@.wf(),
        ensures
            final(self)@.wf(),
            final(self)@ == old(self)@.spec_toggle_current_focus(),
    {
        let toggled = self.controls[self.selected_control].toggle_focus();
        self.controls.set(self.selected_control, toggled);
    }

    pub fn get_selected_control(&self) -> (r: AdjustableControl)
        requires
            self@.wf(),
        ensures
            r == self@.current_control(),
    {
        self.controls[self.selected_control]
    }

    /// The current control, but only while the panel is armed.
    pub fn get_selected_and_focused_control(&self) -> (r: Option<AdjustableControl>)
        requires
            self@.wf(),
        ensures
            r == if self@.armed() {
                Some(self@.current_control())
            } else {
                None::<AdjustableControl>
            },
    {
        if self.selected && self.controls[self.selected_control].is_focused() {
            Some(self.controls[self.selected_control])
        } else {
            None
        }
    }

    pub fn is_panel_selected_and_control_focused_by_index(&self, index: usize) -> (r: bool)
        requires
            self@.wf(),
            index < self@.controls.len(),
        ensures
            r == (self@.selected && self@.controls[index as int].spec_is_focused()),
    {
        self.selected && self.controls[index].is_focused()
    }

    /// Replaces one control wholesale; the render path uses this to re-sync a
    /// control's displayed value from a fresh snapshot while it is not being
    /// edited.
    pub fn set_percentage_control_by_index(&mut self, index: usize, control: AdjustableControl)
        requires
            old(self)@.wf(),
            index < old(self)@.controls.len(),
            control.wf(),
        ensures
            final(self)@.wf(),
            final(self)@ == old(self)@.with_control(index as int, control),
    {
        self.controls.set(index, control);
    }

    /// Picks the value to display for the percentage control at `index` and
    /// re-syncs the control from the snapshot while it is not being edited.
    ///
    /// While the panel is selected and the control at `index` is focused,
    /// the locally edited value is shown and live telemetry cannot overwrite
    /// it.  Otherwise the snapshot value, if any, is both shown and written
    /// back into the control, so hardware-driven changes — and a cancelled
    /// edit — are reflected on the next render.
    pub fn displayed_percentage(&mut self, index: usize, snapshot_value: Option<u8>) -> (r: Option<
        u8,
    >)
        requires
            old(self)@.wf(),
            index < old(self)@.controls.len(),
            snapshot_value matches Some(v) ==> v <= 100,
    ensures
        final(self)@.wf(),
        ({
            let (panel, shown) = spec_synced_percentage(old(self)@, index as int, snapshot_value);
            final(self)@ == panel && r == shown
        }),
    {
        if self.is_panel_selected_and_control_focused_by_index(index) {
            self.get_selected_control().get_percentage_value()
        } else if let Some(value) = snapshot_value {
            self.set_percentage_control_by_index(
                index,
                AdjustableControl::Percentage(false, value),
            );
            Some(value)
        } else {
            None
        }
    }

    /// Applies `delta` to the current control if the panel is armed and the
    /// control is a percentage; a delta that would leave `[0, 100]` is
    /// ignored outright, never clamped.
    pub fn adjust_focused_percentage_control_by_delta(&mut self, delta: i8)
        requires
            old(self)@.wf(),
        ensures
            final(self)@.wf(),
            final(self)@ == old(self)@.spec_adjust_focused_percentage(delta as int),
    {
        if self.selected {
            if let AdjustableControl::Percentage(focused, value) =
                self.controls[self.selected_control] {
                if focused {
                    let new_value: i32 = value as i32 + delta as i32;
                    if 0 <= new_value && new_value <= 100 {
                        self.controls.set(
                            self.selected_control,
                            AdjustableControl::Percentage(focused, new_value as u8),
                        );
                    }
                }
            }
        }
    }
}

/// The displayed value and re-synced panel for the percentage control at
/// `index`, given the snapshot reading; see
/// `AdjustablePanel::displayed_percentage`.
pub open spec fn spec_synced_percentage(
    panel: PanelView,
    index: int,
    snapshot_value: Option<u8>,
) -> (PanelView, Option<u8>) {
    if panel.selected && panel.controls[index].spec_is_focused() {
        (panel, panel.current_control().spec_percentage_value())
    } else {
        match snapshot_value {
            Some(value) => (
                panel.with_control(index, AdjustableControl::Percentage(false, value)),
                Some(value),
            ),
            None => (panel, None),
        }
    }
}

/// Any run of delta adjustments applied in order, as a single spec value.
pub open spec fn spec_adjust_sequence(panel: PanelView, deltas: Seq<int>) -> PanelView
    decreases deltas.len(),
{
    if deltas.len() == 0 {
        panel
    } else {
        spec_adjust_sequence(panel, deltas.drop_last()).spec_adjust_focused_percentage(
            deltas.last(),
        )
    }
}

/// However many delta adjustments are applied, and whatever their sizes, a
/// well-formed panel stays well-formed: every percentage control still holds
/// a value in `[0, 100]`.  A delta that would leave that range leaves the
/// panel exactly as it was, which the single-step spec states directly.
pub proof fn lemma_adjust_sequence_stays_in_range(panel: PanelView, deltas: Seq<int>)
    requires
        panel.wf(),
    ensures
        spec_adjust_sequence(panel, deltas).wf(),
    decreases deltas.len(),
{
    if deltas.len() > 0 {
        lemma_adjust_sequence_stays_in_range(panel, deltas.drop_last());
    }
}

} // verus!
