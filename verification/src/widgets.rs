//! Small widgets with state: check boxes and enum buttons.

use vstd::prelude::*;

verus! {

/// Whether a check box is checked.
pub struct CheckboxState {
    pub checked: bool,
}

impl Default for CheckboxState {
    fn default() -> (s: Self)
        ensures
            !s.checked,
    {
        CheckboxState { checked: false }
    }
}

/// A check box's state after an interaction: a press toggles it.
pub open spec fn checkbox_click_spec(checked: bool, pressed: bool) -> bool {
    checked != pressed
}

impl CheckboxState {
    /// A press toggles the check box; returns whether the check mark shows.
    pub fn handle_checkbox_click(&mut self, pressed: bool) -> (shown: bool)
        ensures
            final(self).checked == checkbox_click_spec(old(self).checked, pressed),
            shown == final(self).checked,
    {
        if pressed {
            self.checked = !self.checked;
        }
        self.checked
    }
}

/// Two presses leave a check box as it was, one press changes it, and
/// without a press it stays as it is.
pub proof fn lemma_checkbox_two_presses(checked: bool)
    ensures
        checkbox_click_spec(checked, false) == checked,
        checkbox_click_spec(checkbox_click_spec(checked, true), true) == checked,
        checkbox_click_spec(checked, true) != checked,
{
}

/// How a check box is made: its label and whether it starts checked.
pub struct CheckboxProps {
    pub label: String,
    pub checked: bool,
}

impl CheckboxProps {
    /// An unchecked check box with a label.
    pub fn new(label: String) -> (p: Self)
        ensures
            p.label == label,
            !p.checked,
    {
        CheckboxProps { label, checked: false }
    }

    /// The same check box, starting checked or not.
    pub fn checked(self, checked: bool) -> (p: Self)
        ensures
            p.label == self.label,
            p.checked == checked,
    {
        CheckboxProps { label: self.label, checked }
    }
}

/// How an enum button is made: an icon and a label.
pub struct EnumButtonProps {
    pub icon: String,
    pub label: String,
}

impl EnumButtonProps {
    pub fn new(icon: String, label: String) -> (p: Self)
        ensures
            p.icon == icon,
            p.label == label,
    {
        EnumButtonProps { icon, label }
    }
}

/// The popover an enum button opened, if any.
pub struct EnumButtonState {
    pub popover: Option<u64>,
}

impl Default for EnumButtonState {
    fn default() -> (s: Self)
        ensures
            s.popover is None,
    {
        EnumButtonState { popover: None }
    }
}

/// What a click on an enum button does.
#[derive(Clone, Copy, Debug, PartialEq, Eq, Structural)]
pub enum EnumButtonAction {
    /// close the button's open popover and restore the button
    Close(u64),
    /// open the popover and show the button as active
    Open,
}

impl EnumButtonState {
    /// A click closes the button's popover while it is still open, else
    /// opens one.  `popover_exists` tells whether the recorded popover
    /// still exists.
    pub fn handle_enum_button_click(&mut self, popover_exists: bool) -> (a: EnumButtonAction)
        ensures
            a == (match old(self).popover {
                Some(p) => if popover_exists {
                    EnumButtonAction::Close(p)
                } else {
                    EnumButtonAction::Open
                },
                None => EnumButtonAction::Open,
            }),
            a is Close ==> final(self).popover is None,
            a is Open ==> final(self).popover == old(self).popover,
    {
        match self.popover {
            Some(p) => if popover_exists {
                self.popover = None;
                EnumButtonAction::Close(p)
            } else {
                EnumButtonAction::Open
            },
            None => EnumButtonAction::Open,
        }
    }

    /// Records the popover made after `EnumButtonAction::Open`.
    pub fn popover_opened(&mut self, popover: u64)
        ensures
            final(self).popover == Some(popover),
    {
        self.popover = Some(popover);
    }

    /// Forgets the popover once it no longer exists; returns whether it was
    /// forgotten, so that the button is restored.
    pub fn handle_popover_closed(&mut self, popover_exists: bool) -> (closed: bool)
        ensures
            closed == (old(self).popover is Some && !popover_exists),
            final(self).popover == (if closed {
                None
            } else {
                old(self).popover
            }),
    {
        if self.popover.is_some() && !popover_exists {
            self.popover = None;
            true
        } else {
            false
        }
    }
}

} // verus!
