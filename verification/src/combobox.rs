//! Combo boxes: their options, the popover listing them, and what picking
//! an option changes.

use vstd::prelude::*;

use crate::button::ButtonVariant;

verus! {

/// One option of a combo box: its label and an optional icon path.
pub struct ComboBoxOptionData {
    pub label: String,
    pub icon: Option<String>,
}

impl ComboBoxOptionData {
    /// An option with a label and no icon.
    pub fn new(label: String) -> (o: Self)
        ensures
            o.label == label,
            o.icon is None,
    {
        ComboBoxOptionData { label, icon: None }
    }

    /// The same option with an icon.
    pub fn with_icon(self, icon: String) -> (o: Self)
        ensures
            o.label == self.label,
            o.icon == Some(icon),
    {
        ComboBoxOptionData { label: self.label, icon: Some(icon) }
    }
}

/// How a combo box shows itself: with the selected label, or as an icon.
#[derive(Clone, Copy, Debug, PartialEq, Eq, Structural)]
pub enum ComboBoxStyle {
    Default,
    IconOnly,
}

/// A combo box's options and selection.
pub struct ComboBoxConfig {
    pub options: Vec<ComboBoxOptionData>,
    pub selected: usize,
    /// an icon fixed for the combo box; when absent the selected option's
    /// icon is shown
    pub icon: Option<String>,
    pub style: ComboBoxStyle,
    pub initialized: bool,
}

/// A combo box with the given options, the first selected.
pub fn combobox(options: Vec<ComboBoxOptionData>) -> (c: ComboBoxConfig)
    ensures
        c.options@ == options@,
        c.selected == 0,
        c.icon is None,
        c.style == ComboBoxStyle::Default,
        !c.initialized,
{
    combobox_with_selected(options, 0)
}

/// A combo box with the given options and selection.
pub fn combobox_with_selected(options: Vec<ComboBoxOptionData>, selected: usize) -> (c: ComboBoxConfig)
    ensures
        c.options@ == options@,
        c.selected == selected,
        c.icon is None,
        c.style == ComboBoxStyle::Default,
        !c.initialized,
{
    ComboBoxConfig { options, selected, icon: None, style: ComboBoxStyle::Default, initialized: false }
}

/// A combo box shown as an icon, used as a menu.
pub fn combobox_icon(options: Vec<ComboBoxOptionData>) -> (c: ComboBoxConfig)
    ensures
        c.options@ == options@,
        c.selected == 0,
        c.icon is None,
        c.style == ComboBoxStyle::IconOnly,
        !c.initialized,
{
    ComboBoxConfig {
        options,
        selected: 0,
        icon: None,
        style: ComboBoxStyle::IconOnly,
        initialized: false,
    }
}

/// The look of the option at `index` in the popover: the selected one is
/// active in a combo box that shows its selection.
pub open spec fn option_variant_spec(style: ComboBoxStyle, selected: usize, index: int) -> ButtonVariant {
    if style == ComboBoxStyle::Default && index == selected {
        ButtonVariant::Active
    } else {
        ButtonVariant::Plain
    }
}

/// Only a combo box of the default style shows its selection, and there the
/// selected option is the one option drawn as active; every other option is
/// plain.
pub proof fn lemma_one_active_option(style: ComboBoxStyle, selected: usize, index: int)
    ensures
        option_variant_spec(style, selected, index) == ButtonVariant::Active <==> (style
            == ComboBoxStyle::Default && index == selected),
        option_variant_spec(style, selected, index) != ButtonVariant::Active
            ==> option_variant_spec(style, selected, index) == ButtonVariant::Plain,
{
}

/// The looks of the options listed in the popover, in order.
pub fn option_variants(config: &ComboBoxConfig) -> (v: Vec<ButtonVariant>)
    ensures
        v@.len() == config.options@.len(),
        forall|i: int|
            0 <= i < v@.len() ==> #[trigger] v@[i] == option_variant_spec(
                config.style,
                config.selected,
                i,
            ),
{
    let mut v: Vec<ButtonVariant> = Vec::new();
    let mut i: usize = 0;
    while i < config.options.len()
        invariant
            i <= config.options@.len(),
            v@.len() == i,
            forall|j: int|
                0 <= j < i ==> #[trigger] v@[j] == option_variant_spec(
                    config.style,
                    config.selected,
                    j,
                ),
        decreases config.options@.len() - i,
    {
        let variant = if config.style == ComboBoxStyle::Default && i == config.selected {
            ButtonVariant::Active
        } else {
            ButtonVariant::Plain
        };
        v.push(variant);
        i = i + 1;
    }
    v
}

/// The popover a combo box opened, if it is open.
pub struct ComboBoxState {
    pub popover: Option<u64>,
}

impl Default for ComboBoxState {
    fn default() -> (s: Self)
        ensures
            s.popover is None,
    {
        ComboBoxState { popover: None }
    }
}

/// What a click on a combo box's button does.
#[derive(Clone, Copy, Debug, PartialEq, Eq, Structural)]
pub enum ComboBoxTriggerAction {
    /// close this popover of the combo box and restore the button
    Close(u64),
    /// another popover is open and the combo box is not inside it
    Ignore,
    /// open the popover of options
    Open,
}

/// What a click on the button does: it closes the combo box's own popover
/// when one is open (`own_popover`), and otherwise opens one, unless some
/// popover is open that the combo box does not lie in.
pub open spec fn combobox_trigger_spec(own_popover: Option<u64>, any_popover_open: bool, nested: bool) -> ComboBoxTriggerAction {
    match own_popover {
        Some(p) => ComboBoxTriggerAction::Close(p),
        None => if any_popover_open && !nested {
            ComboBoxTriggerAction::Ignore
        } else {
            ComboBoxTriggerAction::Open
        },
    }
}

/// A click on a combo box with no popover of its own opens one whenever no
/// popover is open anywhere, nested or not, and also when the combo box lies
/// in an open popover; it is ignored only while a popover is open that the
/// combo box does not lie in. A click while its own popover is open closes
/// that very popover.
pub proof fn lemma_combobox_trigger_click(own_popover: Option<u64>, any_popover_open: bool, nested: bool)
    ensures
        combobox_trigger_spec(None, false, nested) == ComboBoxTriggerAction::Open,
        combobox_trigger_spec(None, any_popover_open, true) == ComboBoxTriggerAction::Open,
        combobox_trigger_spec(own_popover, any_popover_open, nested) == ComboBoxTriggerAction::Ignore
            <==> (own_popover is None && any_popover_open && !nested),
        combobox_trigger_spec(own_popover, any_popover_open, nested) == ComboBoxTriggerAction::Open
            <==> (own_popover is None && (!any_popover_open || nested)),
        own_popover matches Some(p) ==> combobox_trigger_spec(own_popover, any_popover_open, nested)
            == ComboBoxTriggerAction::Close(p),
{
}

impl ComboBoxState {
    /// Handles a click on the combo box's button (see
    /// `combobox_trigger_spec`); closing forgets the popover.
    pub fn handle_trigger_click(&mut self, own_popover: Option<u64>, any_popover_open: bool, nested: bool) -> (a:
        ComboBoxTriggerAction)
        ensures
            a == combobox_trigger_spec(own_popover, any_popover_open, nested),
            (own_popover is None && !any_popover_open) ==> a == ComboBoxTriggerAction::Open,
            final(self).popover == (if a is Close {
                None
            } else {
                old(self).popover
            }),
    {
        match own_popover {
            Some(p) => {
                self.popover = None;
                ComboBoxTriggerAction::Close(p)
            },
            None => if any_popover_open && !nested {
                ComboBoxTriggerAction::Ignore
            } else {
                ComboBoxTriggerAction::Open
            },
        }
    }

    /// Records the popover made after `ComboBoxTriggerAction::Open`.
    pub fn popover_opened(&mut self, popover: u64)
        ensures
            final(self).popover == Some(popover),
    {
        self.popover = Some(popover);
    }

    /// Forgets the popover once it no longer exists; returns whether it was
    /// forgotten, so that the button is restored.
    pub fn handle_combobox_popover_closed(&mut self, popover_exists: bool) -> (closed: bool)
        ensures
            closed == (old(self).popover is Some && !popover_exists),
            final(self).popover == (if closed {
                None
            } else {
                old(self).popover
            }),
    {
        if self.popover.is_some() && !popover_exists {
            self.popover = None;
            true
        } else {
            false
        }
    }
}

/// The event a picked option sends.
pub struct ComboBoxChangeEvent {
    pub entity: u64,
    pub selected: usize,
    pub label: String,
}

/// What picking an option changes besides the selection: the event sent,
/// whether the button's label becomes the option's, and the icon the
/// button then shows, if it changes.
pub struct OptionClick {
    pub event: ComboBoxChangeEvent,
    pub update_label: bool,
    pub new_icon: Option<String>,
}

/// Picks the option at `index` (labelled `label`) of the combo box
/// `combobox`: it becomes the selection and is announced; a combo box that
/// shows its selection shows the option's label, and the option's icon
/// when the combo box has no icon of its own.
pub fn handle_option_click(config: &mut ComboBoxConfig, combobox: u64, index: usize, label: String) -> (r:
    OptionClick)
    ensures
        final(config).selected == index,
        final(config).options@ == old(config).options@,
        final(config).icon == old(config).icon,
        final(config).style == old(config).style,
        final(config).initialized == old(config).initialized,
        r.event.entity == combobox,
        r.event.selected == index,
        r.event.label == label,
        r.update_label == (old(config).style != ComboBoxStyle::IconOnly),
        r.new_icon == (if old(config).style != ComboBoxStyle::IconOnly && old(config).icon is None
            && index < old(config).options@.len() {
            match old(config).options@[index as int].icon {
                Some(i) => Some(i),
                None => None,
            }
        } else {
            None
        }),
{
    let is_icon_only = config.style == ComboBoxStyle::IconOnly;
    let should_update_icon = config.icon.is_none();
    let mut new_icon: Option<String> = None;
    if !is_icon_only && should_update_icon && index < config.options.len() {
        match &config.options[index].icon {
            Some(i) => {
                new_icon = Some(i.clone());
            },
            None => {},
        }
    }
    config.selected = index;
    OptionClick {
        event: ComboBoxChangeEvent { entity: combobox, selected: index, label },
        update_label: !is_icon_only,
        new_icon,
    }
}

} // verus!
