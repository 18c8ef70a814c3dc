//! The data panel: the lists of inspectable items, which of them is shown
//! as active, and when the lists are rebuilt.

use vstd::prelude::*;

use crate::button::ButtonVariant;
use crate::inspect::{Inspectable, Inspecting};

verus! {

/// Whether the item of kind `kind` at `index` is the one inspected.
pub open spec fn is_active_spec(inspecting: Option<Inspecting>, kind: Inspectable, index: u8) -> bool {
    match inspecting {
        Some(i) => i.kind == kind && i.index == index,
        None => false,
    }
}

/// The item inspected is the one item drawn as active: it is active, and
/// any two active items are the same; with nothing inspected none is.
pub proof fn lemma_only_inspected_is_active(
    inspecting: Option<Inspecting>,
    kind: Inspectable,
    index: u8,
    other_kind: Inspectable,
    other_index: u8,
)
    ensures
        inspecting matches Some(i) ==> is_active_spec(inspecting, i.kind, i.index),
        inspecting is None ==> !is_active_spec(inspecting, kind, index),
        is_active_spec(inspecting, kind, index) && is_active_spec(inspecting, other_kind, other_index)
            ==> kind == other_kind && index == other_index,
        is_active_spec(inspecting, kind, index) ==> inspecting == Some(Inspecting { kind, index }),
{
}

/// Whether the item of kind `kind` at `index` is the one inspected.
pub fn is_active(inspecting: Option<Inspecting>, kind: Inspectable, index: u8) -> (r: bool)
    ensures
        r == is_active_spec(inspecting, kind, index),
{
    match inspecting {
        Some(i) => i.kind == kind && i.index == index,
        None => false,
    }
}

/// The inspected item's button is drawn as active, the others plain.
pub fn item_button_variant(active: bool) -> (v: ButtonVariant)
    ensures
        v == (if active {
            ButtonVariant::Active
        } else {
            ButtonVariant::Plain
        }),
{
    if active {
        ButtonVariant::Active
    } else {
        ButtonVariant::Plain
    }
}

/// One entry of an item list.
pub struct ListItem {
    pub kind: Inspectable,
    /// the item's position, as the editor stores it (in a byte)
    pub index: u8,
    pub name: String,
    pub variant: ButtonVariant,
}

/// The entries of the list of items of kind `kind`, one per name in order;
/// the inspected one is active.
pub fn spawn_items(kind: Inspectable, names: &[String], inspecting: Option<Inspecting>) -> (items:
    Vec<ListItem>)
    ensures
        items@.len() == names@.len(),
        forall|i: int|
            0 <= i < names@.len() ==> {
                let item = #[trigger] items@[i];
                &&& item.kind == kind
                &&& item.index == i as u8
                &&& item.name@ == names@[i]@
                &&& item.variant == (if is_active_spec(inspecting, kind, i as u8) {
                    ButtonVariant::Active
                } else {
                    ButtonVariant::Plain
                })
            },
{
    let mut items: Vec<ListItem> = Vec::new();
    let mut i: usize = 0;
    while i < names.len()
        invariant
            i <= names@.len(),
            items@.len() == i,
            forall|j: int|
                0 <= j < i ==> {
                    let item = #[trigger] items@[j];
                    &&& item.kind == kind
                    &&& item.index == j as u8
                    &&& item.name@ == names@[j]@
                    &&& item.variant == (if is_active_spec(inspecting, kind, j as u8) {
                        ButtonVariant::Active
                    } else {
                        ButtonVariant::Plain
                    })
                },
        decreases names@.len() - i,
    {
        let index = i as u8;
        let active = is_active(inspecting, kind, index);
        items.push(
            ListItem {
                kind,
                index,
                name: names[i].clone(),
                variant: item_button_variant(active),
            },
        );
        i = i + 1;
    }
    items
}

/// The project the item lists were last built for.
pub struct LastLoadedProject {
    pub handle: Option<u64>,
}

impl Default for LastLoadedProject {
    fn default() -> (p: Self)
        ensures
            p.handle is None,
    {
        LastLoadedProject { handle: None }
    }
}

/// Whether the item lists must be built again (second part), and the
/// project remembered afterwards (first part): a project is loaded and it
/// is another one than last time, or the list sections were just added.
pub open spec fn rebuild_spec(last: Option<u64>, current: Option<u64>, sections_added: bool) -> (
    Option<u64>,
    bool,
) {
    match current {
        Some(id) => if last != Some(id) || sections_added {
            (Some(id), true)
        } else {
            (last, false)
        },
        None => (last, false),
    }
}

/// Decides whether the item lists must be built again, and remembers the
/// loaded project when they are (see `rebuild_spec`).
pub fn rebuild_lists(last: &mut LastLoadedProject, current: Option<u64>, sections_added: bool) -> (r:
    bool)
    ensures
        (final(last).handle, r) == rebuild_spec(old(last).handle, current, sections_added),
{
    let id = match current {
        Some(id) => id,
        None => return false,
    };
    let project_changed = match last.handle {
        Some(h) => h != id,
        None => true,
    };
    if !project_changed && !sections_added {
        return false;
    }
    last.handle = Some(id);
    true
}

/// The lists are built again exactly when a project is loaded and it is not
/// the one they were last built for, or when the sections were just added
/// while a project is loaded; the loaded project is remembered when they
/// are, and the remembered one is kept otherwise.
pub proof fn lemma_rebuild_when_changed(last: Option<u64>, current: Option<u64>, sections_added: bool)
    ensures
        rebuild_spec(last, current, sections_added).1 <==> (current is Some && (last != current
            || sections_added)),
        rebuild_spec(last, current, sections_added).0 == (if rebuild_spec(
            last,
            current,
            sections_added,
        ).1 {
            current
        } else {
            last
        }),
{
}

/// Once the lists are built for a project, they are not built again for
/// it until new sections appear.
pub proof fn lemma_rebuild_once(last: Option<u64>, current: Option<u64>, sections_added: bool)
    ensures
        !rebuild_spec(rebuild_spec(last, current, sections_added).0, current, false).1,
{
}

/// An item's menu button shows while the item is active or hovered, or
/// while its menu is open.
pub fn show_item_menu(active: bool, hovered: bool, has_open_popover: bool) -> (r: bool)
    ensures
        r == (active || hovered || has_open_popover),
{
    active || hovered || has_open_popover
}

/// What a right click sees of one item of the lists.
#[derive(Clone, Copy)]
pub struct ItemHover {
    pub item_hovered: bool,
    pub button_hovered: bool,
    /// the trigger of the item's menu, if it has one
    pub menu_trigger: Option<u64>,
}

/// The first item, in list order, that is hovered over its button and has
/// a menu trigger.
pub open spec fn right_click_target_spec(items: Seq<ItemHover>, n: int) -> Option<u64>
    decreases n,
{
    if n <= 0 {
        None
    } else {
        match right_click_target_spec(items, n - 1) {
            Some(t) => Some(t),
            None => {
                let it = items[n - 1];
                if it.item_hovered && it.button_hovered {
                    it.menu_trigger
                } else {
                    None
                }
            },
        }
    }
}

proof fn lemma_right_click_target_stays(items: Seq<ItemHover>, m: int, n: int)
    requires
        0 <= m <= n,
        right_click_target_spec(items, m) is Some,
    ensures
        right_click_target_spec(items, n) == right_click_target_spec(items, m),
    decreases n - m,
{
    if m < n {
        lemma_right_click_target_stays(items, m, n - 1);
    }
}

/// Whether an item can be right-clicked for its menu: hovered over its
/// button, with a menu trigger.
pub open spec fn has_menu_under_pointer(it: ItemHover) -> bool {
    it.item_hovered && it.button_hovered && it.menu_trigger is Some
}

/// The menu opened by a right click is that of the first item, in list
/// order, that is hovered over its button and has a menu; none opens when
/// no item is such.
pub proof fn lemma_right_click_target_first(items: Seq<ItemHover>, n: int)
    requires
        0 <= n <= items.len(),
    ensures
        right_click_target_spec(items, n) is None <==> forall|j: int|
            0 <= j < n ==> !has_menu_under_pointer(#[trigger] items[j]),
        right_click_target_spec(items, n) matches Some(t) ==> exists|i: int|
            0 <= i < n && #[trigger] has_menu_under_pointer(items[i]) && items[i].menu_trigger == Some(t)
                && forall|j: int| 0 <= j < i ==> !has_menu_under_pointer(#[trigger] items[j]),
    decreases n,
{
    if n > 0 {
        lemma_right_click_target_first(items, n - 1);
        if right_click_target_spec(items, n - 1) is None {
            if has_menu_under_pointer(items[n - 1]) {
                assert(right_click_target_spec(items, n) == items[n - 1].menu_trigger);
            }
        } else {
            let t = right_click_target_spec(items, n - 1)->0;
            let i = choose|i: int|
                0 <= i < n - 1 && #[trigger] has_menu_under_pointer(items[i]) && items[i].menu_trigger
                    == Some(t) && forall|j: int| 0 <= j < i ==> !has_menu_under_pointer(#[trigger] items[j]);
            assert(has_menu_under_pointer(items[i]));
        }
    }
}

/// A right click opens the menu of the item under the pointer: the menu
/// trigger to click, if any (see `right_click_target_spec`).
pub fn handle_item_right_click(right_pressed: bool, items: &[ItemHover]) -> (r: Option<u64>)
    ensures
        r == (if right_pressed {
            right_click_target_spec(items@, items@.len() as int)
        } else {
            None
        }),
{
    if !right_pressed {
        return None;
    }
    let mut i: usize = 0;
    while i < items.len()
        invariant
            right_pressed,
            i <= items@.len(),
            right_click_target_spec(items@, i as int) is None,
        decreases items@.len() - i,
    {
        let it = items[i];
        if it.item_hovered && it.button_hovered {
            match it.menu_trigger {
                Some(t) => {
                    proof {
                        assert(right_click_target_spec(items@, i + 1) == Some(t));
                        lemma_right_click_target_stays(items@, i + 1, items@.len() as int);
                    }
                    return Some(t);
                },
                None => {},
            }
        }
        i = i + 1;
    }
    None
}

} // verus!
