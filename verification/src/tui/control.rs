//! One editable scalar value inside a panel.

use vstd::prelude::*;

verus! {

/// An editable scalar shown by a panel: either a bounded percentage or a
/// numeric range, each carrying its own focus flag.  A focused control is
/// armed for value-editing keys until the edit is committed or cancelled.
///
/// The range endpoints are kept in thousandths of the displayed unit so that
/// the value stays an integer.
#[derive(Clone, Copy, Debug, PartialEq, Eq, Structural)]
pub enum AdjustableControl {
    Percentage(bool, u8),
    Range(bool, i64, i64),
}

impl AdjustableControl {
    /// A percentage control never stores a value outside `[0, 100]`.
    pub open spec fn wf(self) -> bool {
        self matches AdjustableControl::Percentage(_, value) ==> value <= 100
    }

    pub open spec fn spec_is_focused(self) -> bool {
        match self {
            AdjustableControl::Percentage(focused, _) => focused,
            AdjustableControl::Range(focused, _, _) => focused,
        }
    }

    /// The same control with the focus flag flipped.
    pub open spec fn spec_toggle_focus(self) -> Self {
        match self {
            AdjustableControl::Percentage(focused, value) => AdjustableControl::Percentage(
                !focused,
                value,
            ),
            AdjustableControl::Range(focused, from, to) => AdjustableControl::Range(
                !focused,
                from,
                to,
            ),
        }
    }

    pub open spec fn spec_percentage_value(self) -> Option<u8> {
        match self {
            AdjustableControl::Percentage(_, value) => Some(value),
            _ => None,
        }
    }

    pub fn toggle_focus(&self) -> (r: Self)
        ensures
            r == self.spec_toggle_focus(),
    {
        match self {
            AdjustableControl::Percentage(focused, value) => AdjustableControl::Percentage(
                !*focused,
                *value,
            ),
            AdjustableControl::Range(focused, from, to) => AdjustableControl::Range(
                !*focused,
                *from,
                *to,
            ),
        }
    }

    pub fn is_focused(&self) -> (r: bool)
        ensures
            r == self.spec_is_focused(),
    {
        match self {
            AdjustableControl::Percentage(focused, _) => *focused,
            AdjustableControl::Range(focused, _, _) => *focused,
        }
    }

    pub fn get_percentage_value(&self) -> (r: Option<u8>)
        ensures
            r == self.spec_percentage_value(),
    {
        match self {
            AdjustableControl::Percentage(_, value) => Some(*value),
            _ => None,
        }
    }
}

/// A fresh, unfocused percentage control holding `value`.
pub fn percentage_control(value: u8) -> (r: AdjustableControl)
    requires
        value <= 100,
    ensures
        r == AdjustableControl::Percentage(false, value),
        r.wf(),
{
    AdjustableControl::Percentage(false, value)
}

/// A fresh, unfocused range control spanning `from..to` (in thousandths).
pub fn range_control(from: i64, to: i64) -> (r: AdjustableControl)
    ensures
        r == AdjustableControl::Range(false, from, to),
        r.wf(),
{
    AdjustableControl::Range(false, from, to)
}

} // verus!
