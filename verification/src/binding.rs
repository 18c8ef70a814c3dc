//! Binding inspector widgets to the inspected emitter's properties: when
//! they are filled again, and which enum case a picked entry names.

use vstd::prelude::*;

use crate::fields::label_to_variant_name;
use crate::text::{chars_of, is_whitespace_char, string_from_chars};

verus! {

/// The inspector's inputs are filled from the emitter when the inspected
/// emitter changed or new inputs, fields or check boxes appeared.
pub fn bind_values_needed(
    tracker_changed: bool,
    new_fields: bool,
    new_text_edits: bool,
    new_checkboxes: bool,
) -> (r: bool)
    ensures
        r == (tracker_changed || new_fields || new_text_edits || new_checkboxes),
{
    let has_new_widgets = new_fields || new_text_edits || new_checkboxes;
    tracker_changed || has_new_widgets
}

/// The enum case a picked combo box entry names: its value when it has
/// one, else its label without whitespace.
pub fn combobox_variant_name(value: Option<&str>, label: &str) -> (r: String)
    ensures
        r@ == match value {
            Some(v) => v@,
            None => label@.filter(|c: char| !is_whitespace_char(c)),
        },
{
    match value {
        Some(v) => string_from_chars(&chars_of(v)),
        None => label_to_variant_name(label),
    }
}

} // verus!
