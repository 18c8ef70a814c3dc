//! The looks a button can take.

use vstd::prelude::*;

verus! {

/// The look of a button.
#[derive(Clone, Copy, Debug, PartialEq, Eq, Structural)]
pub enum ButtonVariant {
    Default,
    Primary,
    /// transparent until hovered
    Plain,
    Active,
    ActiveAlt,
    Disabled,
    /// for actions that delete
    Destructive,
}

impl Default for ButtonVariant {
    fn default() -> (v: Self)
        ensures
            v == ButtonVariant::Default,
    {
        ButtonVariant::Default
    }
}

/// The look of an entry of a context menu: disabled entries are greyed,
/// the current one is active, the others plain.
pub fn menu_button_variant(is_active: bool, is_disabled: bool) -> (v: ButtonVariant)
    ensures
        v == (if is_disabled {
            ButtonVariant::Disabled
        } else if is_active {
            ButtonVariant::Active
        } else {
            ButtonVariant::Plain
        }),
{
    if is_disabled {
        ButtonVariant::Disabled
    } else if is_active {
        ButtonVariant::Active
    } else {
        ButtonVariant::Plain
    }
}

/// A press on a button is a click unless the button is disabled.
pub fn handle_button_click(pressed: bool, variant: ButtonVariant) -> (click: bool)
    ensures
        click == (pressed && variant != ButtonVariant::Disabled),
{
    pressed && variant != ButtonVariant::Disabled
}

} // verus!
