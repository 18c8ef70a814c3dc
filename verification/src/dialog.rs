//! Dialogs: what opens one, and what dismisses it.

use vstd::prelude::*;

use crate::button::ButtonVariant;
use crate::text::{chars_of, string_from_chars};

verus! {

/// Whether a dialog's action is an ordinary one or deletes something.
#[derive(Clone, Copy, Debug, PartialEq, Eq, Structural)]
pub enum DialogVariant {
    Default,
    Destructive,
}

impl Default for DialogVariant {
    fn default() -> (v: Self)
        ensures
            v == DialogVariant::Default,
    {
        DialogVariant::Default
    }
}

impl DialogVariant {
    /// The look of the dialog's action button.
    pub fn action_button_variant(&self) -> (b: ButtonVariant)
        ensures
            b == match *self {
                DialogVariant::Default => ButtonVariant::Primary,
                DialogVariant::Destructive => ButtonVariant::Destructive,
            },
    {
        match self {
            DialogVariant::Default => ButtonVariant::Primary,
            DialogVariant::Destructive => ButtonVariant::Destructive,
        }
    }
}

/// "Cancel", the default label of a dialog's cancel button.
pub open spec fn cancel_label() -> Seq<char> {
    seq!['C', 'a', 'n', 'c', 'e', 'l']
}

/// The request to open a dialog.
pub struct OpenDialogEvent {
    pub title: Option<String>,
    pub description: Option<String>,
    pub action: Option<String>,
    pub cancel: Option<String>,
    pub variant: DialogVariant,
    pub has_close_button: bool,
    pub close_on_click_outside: bool,
    pub close_on_esc: bool,
}

impl OpenDialogEvent {
    /// A dialog with a title and an action, a "Cancel" button and a close
    /// button, dismissed by a click outside or by Escape.
    pub fn new(title: String, action: String) -> (e: Self)
        ensures
            e.title == Some(title),
            e.description is None,
            e.action == Some(action),
            e.cancel matches Some(c) && c@ == cancel_label(),
            e.variant == DialogVariant::Default,
            e.has_close_button,
            e.close_on_click_outside,
            e.close_on_esc,
    {
        let lit = "Cancel";
        proof {
            reveal_strlit("Cancel");
        }
        let v = chars_of(lit);
        assert(v@ =~= cancel_label());
        OpenDialogEvent {
            title: Some(title),
            description: None,
            action: Some(action),
            cancel: Some(string_from_chars(&v)),
            variant: DialogVariant::Default,
            has_close_button: true,
            close_on_click_outside: true,
            close_on_esc: true,
        }
    }

    pub fn with_title(self, title: String) -> (e: Self)
        ensures
            e == (OpenDialogEvent { title: Some(title), ..self }),
    {
        OpenDialogEvent { title: Some(title), ..self }
    }

    pub fn with_description(self, description: String) -> (e: Self)
        ensures
            e == (OpenDialogEvent { description: Some(description), ..self }),
    {
        OpenDialogEvent { description: Some(description), ..self }
    }

    pub fn with_action(self, action: String) -> (e: Self)
        ensures
            e == (OpenDialogEvent { action: Some(action), ..self }),
    {
        OpenDialogEvent { action: Some(action), ..self }
    }

    pub fn with_cancel(self, cancel: String) -> (e: Self)
        ensures
            e == (OpenDialogEvent { cancel: Some(cancel), ..self }),
    {
        OpenDialogEvent { cancel: Some(cancel), ..self }
    }

    pub fn without_cancel(self) -> (e: Self)
        ensures
            e == (OpenDialogEvent { cancel: None, ..self }),
    {
        OpenDialogEvent { cancel: None, ..self }
    }

    pub fn with_variant(self, variant: DialogVariant) -> (e: Self)
        ensures
            e == (OpenDialogEvent { variant, ..self }),
    {
        OpenDialogEvent { variant, ..self }
    }

    pub fn with_close_button(self, has_close_button: bool) -> (e: Self)
        ensures
            e == (OpenDialogEvent { has_close_button, ..self }),
    {
        OpenDialogEvent { has_close_button, ..self }
    }

    pub fn with_close_on_click_outside(self, close_on_click_outside: bool) -> (e: Self)
        ensures
            e == (OpenDialogEvent { close_on_click_outside, ..self }),
    {
        OpenDialogEvent { close_on_click_outside, ..self }
    }

    pub fn with_close_on_esc(self, close_on_esc: bool) -> (e: Self)
        ensures
            e == (OpenDialogEvent { close_on_esc, ..self }),
    {
        OpenDialogEvent { close_on_esc, ..self }
    }

    /// The dialog that asks to confirm a destructive action: no close
    /// button, not dismissed by a click outside, with the request's
    /// description.
    pub fn from_confirmation(event: &OpenConfirmationDialogEvent) -> (e: Self)
        ensures
            e.title matches Some(t) && t@ == event.title@,
            e.action matches Some(a) && a@ == event.action@,
            e.cancel matches Some(c) && c@ == cancel_label(),
            match (e.description, event.description) {
                (Some(d), Some(ed)) => d@ == ed@,
                (None, None) => true,
                _ => false,
            },
            e.variant == DialogVariant::Destructive,
            !e.has_close_button,
            !e.close_on_click_outside,
            e.close_on_esc,
    {
        let title = string_from_chars(&chars_of(event.title.as_str()));
        let action = string_from_chars(&chars_of(event.action.as_str()));
        let mut dialog = OpenDialogEvent::new(title, action).with_variant(
            DialogVariant::Destructive,
        ).with_close_button(false).with_close_on_click_outside(false);
        dialog.description = match &event.description {
            Some(d) => Some(string_from_chars(&chars_of(d.as_str()))),
            None => None,
        };
        dialog
    }
}

/// The request to confirm a destructive action.
pub struct OpenConfirmationDialogEvent {
    pub title: String,
    pub description: Option<String>,
    pub action: String,
}

impl OpenConfirmationDialogEvent {
    pub fn new(title: String, action: String) -> (e: Self)
        ensures
            e.title == title,
            e.description is None,
            e.action == action,
    {
        OpenConfirmationDialogEvent { title, description: None, action }
    }

    pub fn with_description(self, description: String) -> (e: Self)
        ensures
            e.title == self.title,
            e.description == Some(description),
            e.action == self.action,
    {
        OpenConfirmationDialogEvent { title: self.title, description: Some(description), action: self.action }
    }
}

/// A press on a dialog's backdrop dismisses it when the dialog allows it
/// and the press did not land on the dialog's panel.
pub fn handle_backdrop_click(backdrop_pressed: bool, close_on_click_outside: bool, any_panel_pressed: bool) -> (r:
    bool)
    ensures
        r == (backdrop_pressed && close_on_click_outside && !any_panel_pressed),
{
    backdrop_pressed && close_on_click_outside && !any_panel_pressed
}

/// Escape dismisses the dialogs that allow it.
pub fn handle_esc_key(esc_just_pressed: bool, close_on_esc: bool) -> (r: bool)
    ensures
        r == (esc_just_pressed && close_on_esc),
{
    esc_just_pressed && close_on_esc
}

/// Which parts a dialog is built with.
#[derive(Clone, Copy, Debug, PartialEq, Eq, Structural)]
pub struct DialogLayout {
    /// a header, holding the title and the description that are given
    pub has_header: bool,
    /// a footer, holding the cancel and action buttons that are given
    pub has_footer: bool,
    pub has_close_button: bool,
    pub has_cancel_button: bool,
    pub has_action_button: bool,
    /// the look of the action button
    pub action_variant: ButtonVariant,
}

impl OpenDialogEvent {
    /// The parts of the dialog: a header when it has a title or a
    /// description, a footer when it has an action or a cancel button, and
    /// a close button when asked for.
    pub fn layout(&self) -> (l: DialogLayout)
        ensures
            l.has_header == (self.title is Some || self.description is Some),
            l.has_footer == (self.action is Some || self.cancel is Some),
            l.has_close_button == self.has_close_button,
            l.has_cancel_button == self.cancel is Some,
            l.has_action_button == self.action is Some,
            l.action_variant == match self.variant {
                DialogVariant::Default => ButtonVariant::Primary,
                DialogVariant::Destructive => ButtonVariant::Destructive,
            },
    {
        DialogLayout {
            has_header: self.title.is_some() || self.description.is_some(),
            has_footer: self.action.is_some() || self.cancel.is_some(),
            has_close_button: self.has_close_button,
            has_cancel_button: self.cancel.is_some(),
            has_action_button: self.action.is_some(),
            action_variant: self.variant.action_button_variant(),
        }
    }
}

} // verus!
