//! The variant editor: a button naming the selected case of an enum
//! property, and a popover to pick another case and edit its fields.

use vstd::prelude::*;

use crate::combobox::ComboBoxOptionData;
use crate::fields::VariantField;
use crate::labels::{path_label_spec, path_to_label};

verus! {

/// One case offered by a variant editor: its name, icon and fields.
pub struct VariantDefinition {
    pub name: String,
    pub icon: Option<String>,
    pub fields: Vec<VariantField>,
}

impl VariantDefinition {
    /// A case with a name, no icon and no fields.
    pub fn new(name: String) -> (d: Self)
        ensures
            d.name == name,
            d.icon is None,
            d.fields@.len() == 0,
    {
        VariantDefinition { name, icon: None, fields: Vec::new() }
    }

    /// The same case with an icon.
    pub fn with_icon(self, icon: String) -> (d: Self)
        ensures
            d.name == self.name,
            d.icon == Some(icon),
            d.fields@ == self.fields@,
    {
        VariantDefinition { name: self.name, icon: Some(icon), fields: self.fields }
    }

    /// The same case with its fields.
    pub fn with_fields(self, fields: Vec<VariantField>) -> (d: Self)
        ensures
            d.name == self.name,
            d.icon == self.icon,
            d.fields@ == fields@,
    {
        VariantDefinition { name: self.name, icon: self.icon, fields }
    }
}

/// How a variant editor is made.
pub struct VariantEditProps {
    /// the path of the property it edits
    pub path: String,
    pub label: Option<String>,
    pub popover_title: Option<String>,
    pub variants: Vec<VariantDefinition>,
    pub selected_index: usize,
}

impl VariantEditProps {
    /// An editor of the property at `path`, with no cases yet.
    pub fn new(path: String) -> (p: Self)
        ensures
            p.path == path,
            p.label is None,
            p.popover_title is None,
            p.variants@.len() == 0,
            p.selected_index == 0,
    {
        VariantEditProps { path, label: None, popover_title: None, variants: Vec::new(), selected_index: 0 }
    }

    pub fn with_label(self, label: String) -> (p: Self)
        ensures
            p.path == self.path,
            p.label == Some(label),
            p.popover_title == self.popover_title,
            p.variants@ == self.variants@,
            p.selected_index == self.selected_index,
    {
        VariantEditProps {
            path: self.path,
            label: Some(label),
            popover_title: self.popover_title,
            variants: self.variants,
            selected_index: self.selected_index,
        }
    }

    pub fn with_popover_title(self, title: String) -> (p: Self)
        ensures
            p.path == self.path,
            p.label == self.label,
            p.popover_title == Some(title),
            p.variants@ == self.variants@,
            p.selected_index == self.selected_index,
    {
        VariantEditProps {
            path: self.path,
            label: self.label,
            popover_title: Some(title),
            variants: self.variants,
            selected_index: self.selected_index,
        }
    }

    pub fn with_variants(self, variants: Vec<VariantDefinition>) -> (p: Self)
        ensures
            p.path == self.path,
            p.label == self.label,
            p.popover_title == self.popover_title,
            p.variants@ == variants@,
            p.selected_index == self.selected_index,
    {
        VariantEditProps {
            path: self.path,
            label: self.label,
            popover_title: self.popover_title,
            variants,
            selected_index: self.selected_index,
        }
    }

    pub fn with_selected(self, index: usize) -> (p: Self)
        ensures
            p.path == self.path,
            p.label == self.label,
            p.popover_title == self.popover_title,
            p.variants@ == self.variants@,
            p.selected_index == index,
    {
        VariantEditProps {
            path: self.path,
            label: self.label,
            popover_title: self.popover_title,
            variants: self.variants,
            selected_index: index,
        }
    }
}

/// A variant editor's configuration.
pub struct VariantEditConfig {
    pub path: String,
    pub label: Option<String>,
    pub popover_title: Option<String>,
    pub variants: Vec<VariantDefinition>,
    pub selected_index: usize,
    pub initialized: bool,
}

/// The editor made from its props, not yet built.
pub fn variant_edit(props: VariantEditProps) -> (c: VariantEditConfig)
    ensures
        c.path == props.path,
        c.label == props.label,
        c.popover_title == props.popover_title,
        c.variants@ == props.variants@,
        c.selected_index == props.selected_index,
        !c.initialized,
{
    VariantEditConfig {
        path: props.path,
        label: props.label,
        popover_title: props.popover_title,
        variants: props.variants,
        selected_index: props.selected_index,
        initialized: false,
    }
}

fn copy_string(s: &String) -> (r: String)
    ensures
        r@ == s@,
{
    s.clone()
}

impl VariantEditConfig {
    /// The popover's title: the one given, else the editor's label, else
    /// the label of the property's path.
    pub fn popover_title_text(&self) -> (t: String)
        ensures
            t@ == match self.popover_title {
                Some(p) => p@,
                None => match self.label {
                    Some(l) => l@,
                    None => path_label_spec(self.path@),
                },
            },
    {
        match &self.popover_title {
            Some(p) => copy_string(p),
            None => match &self.label {
                Some(l) => copy_string(l),
                None => path_to_label(self.path.as_str()),
            },
        }
    }

    /// The options of the popover's combo box: each case's name and icon.
    pub fn variant_options(&self) -> (o: Vec<ComboBoxOptionData>)
        ensures
            o@.len() == self.variants@.len(),
            forall|i: int|
                0 <= i < o@.len() ==> {
                    &&& (#[trigger] o@[i]).label@ == self.variants@[i].name@
                    &&& o@[i].icon == self.variants@[i].icon
                },
    {
        let mut out: Vec<ComboBoxOptionData> = Vec::new();
        let mut i: usize = 0;
        while i < self.variants.len()
            invariant
                i <= self.variants@.len(),
                out@.len() == i,
                forall|j: int|
                    0 <= j < i ==> {
                        &&& (#[trigger] out@[j]).label@ == self.variants@[j].name@
                        &&& out@[j].icon == self.variants@[j].icon
                    },
            decreases self.variants@.len() - i,
        {
            let v = &self.variants[i];
            let icon = match &v.icon {
                Some(p) => Some(p.clone()),
                None => None,
            };
            out.push(ComboBoxOptionData { label: copy_string(&v.name), icon });
            i = i + 1;
        }
        out
    }

    /// Whether the selected case has fields to edit in the popover.
    pub fn selected_has_fields(&self) -> (r: bool)
        ensures
            r == (self.selected_index < self.variants@.len()
                && self.variants@[self.selected_index as int].fields@.len() > 0),
    {
        if self.selected_index < self.variants.len() {
            self.variants[self.selected_index].fields.len() > 0
        } else {
            false
        }
    }

    /// Another case is picked in the popover: it becomes the selection;
    /// returns whether it changed.
    pub fn handle_variant_combobox_change(&mut self, new_index: usize) -> (changed: bool)
        ensures
            changed == (new_index != old(self).selected_index),
            final(self).selected_index == new_index,
            final(self).variants@ == old(self).variants@,
            final(self).path == old(self).path,
    {
        if new_index == self.selected_index {
            return false;
        }
        self.selected_index = new_index;
        true
    }
}

/// A variant editor's state: its open popover, and the case its button
/// was last made to show.
pub struct VariantEditState {
    pub popover: Option<u64>,
    pub last_synced_index: Option<usize>,
}

impl Default for VariantEditState {
    fn default() -> (s: Self)
        ensures
            s.popover is None,
            s.last_synced_index is None,
    {
        VariantEditState { popover: None, last_synced_index: None }
    }
}

/// What a click on a variant editor's button does.
#[derive(Clone, Copy, Debug, PartialEq, Eq, Structural)]
pub enum VariantEditAction {
    /// close the editor's open popover and restore the button
    Close(u64),
    /// another popover is open and the editor is not inside it
    Ignore,
    /// open the popover
    Open,
}

impl VariantEditState {
    /// Whether the button must be made to show the selected case: it shows
    /// another, or none yet, and the case exists.
    pub fn needs_sync(&self, selected_index: usize, variant_count: usize) -> (r: bool)
        ensures
            r == (self.last_synced_index != Some(selected_index) && selected_index < variant_count),
    {
        let same = match self.last_synced_index {
            Some(i) => i == selected_index,
            None => false,
        };
        !same && selected_index < variant_count
    }

    /// Records that the button shows the selected case, once its text was
    /// updated.
    pub fn synced(&mut self, selected_index: usize, text_updated: bool)
        ensures
            final(self).last_synced_index == (if text_updated {
                Some(selected_index)
            } else {
                old(self).last_synced_index
            }),
            final(self).popover == old(self).popover,
    {
        if text_updated {
            self.last_synced_index = Some(selected_index);
        }
    }

    /// A click on the button: it closes the editor's popover while that
    /// still exists, else opens one unless another popover is open that
    /// the editor does not lie in.
    pub fn handle_variant_edit_click(&mut self, popover_exists: bool, any_popover_open: bool, nested: bool) -> (a:
        VariantEditAction)
        ensures
            a == (match old(self).popover {
                Some(p) if popover_exists => VariantEditAction::Close(p),
                _ => if any_popover_open && !nested {
                    VariantEditAction::Ignore
                } else {
                    VariantEditAction::Open
                },
            }),
            final(self).popover == (if a is Close {
                None
            } else {
                old(self).popover
            }),
            final(self).last_synced_index == old(self).last_synced_index,
    {
        match self.popover {
            Some(p) => {
                if popover_exists {
                    self.popover = None;
                    return VariantEditAction::Close(p);
                }
            },
            None => {},
        }
        if any_popover_open && !nested {
            VariantEditAction::Ignore
        } else {
            VariantEditAction::Open
        }
    }

    /// Records the popover made after `VariantEditAction::Open`.
    pub fn popover_opened(&mut self, popover: u64)
        ensures
            final(self).popover == Some(popover),
            final(self).last_synced_index == old(self).last_synced_index,
    {
        self.popover = Some(popover);
    }

    /// Forgets the popover once it no longer exists; returns whether it was
    /// forgotten, so that the button is restored.
    pub fn handle_popover_closed(&mut self, popover_exists: bool) -> (closed: bool)
        ensures
            closed == (old(self).popover is Some && !popover_exists),
            final(self).popover == (if closed {
                None
            } else {
                old(self).popover
            }),
            final(self).last_synced_index == old(self).last_synced_index,
    {
        if self.popover.is_some() && !popover_exists {
            self.popover = None;
            true
        } else {
            false
        }
    }
}

} // verus!
