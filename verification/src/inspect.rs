//! What the inspector shows: the item picked for inspection, the emitter it
//! resolves to, and when the inspector's widgets must be bound again.

use vstd::prelude::*;

use crate::text::{chars_of, string_from_chars};

verus! {

/// The kinds of item that can be inspected.
#[derive(Clone, Copy, Debug, PartialEq, Eq, Structural)]
pub enum Inspectable {
    Emitter,
    Collider,
}

/// The item under inspection: its kind and its position in the project.
#[derive(Clone, Copy, Debug, PartialEq, Eq, Structural)]
pub struct Inspecting {
    pub kind: Inspectable,
    pub index: u8,
}

/// The index of the inspected emitter, when an emitter is inspected.
pub open spec fn inspected_emitter_index_spec(inspecting: Option<Inspecting>) -> Option<u8> {
    match inspecting {
        Some(i) => if i.kind == Inspectable::Emitter {
            Some(i.index)
        } else {
            None
        },
        None => None,
    }
}

/// An index comes out exactly when an emitter is inspected, and it is that
/// emitter's index; a collider or nothing inspected gives none.
pub proof fn lemma_inspected_emitter_index(inspecting: Option<Inspecting>, index: u8)
    ensures
        inspected_emitter_index_spec(inspecting) == Some(index) <==> inspecting == Some(
            Inspecting { kind: Inspectable::Emitter, index },
        ),
        inspected_emitter_index_spec(inspecting) is None <==> !(inspecting matches Some(i) && i.kind
            == Inspectable::Emitter),
{
}

/// The index of the inspected emitter, when an emitter is inspected.
pub fn inspected_emitter_index(inspecting: Option<Inspecting>) -> (r: Option<u8>)
    ensures
        r == inspected_emitter_index_spec(inspecting),
{
    match inspecting {
        Some(i) => if i.kind == Inspectable::Emitter {
            Some(i.index)
        } else {
            None
        },
        None => None,
    }
}

/// The inspected emitter of the loaded project, with its index: none when
/// no emitter is inspected, no project is loaded, or the index is past the
/// project's emitters.
pub fn get_inspecting_emitter<'a, E>(
    inspecting: Option<Inspecting>,
    emitters: Option<&'a [E]>,
) -> (r: Option<(u8, &'a E)>)
    ensures
        r == match (inspected_emitter_index_spec(inspecting), emitters) {
            (Some(i), Some(es)) => if (i as int) < es@.len() {
                Some((i, &es@[i as int]))
            } else {
                None
            },
            _ => None,
        },
{
    let index = match inspected_emitter_index(inspecting) {
        Some(i) => i,
        None => return None,
    };
    let emitters = match emitters {
        Some(es) => es,
        None => return None,
    };
    let i = index as usize;
    if i < emitters.len() {
        Some((index, &emitters[i]))
    } else {
        None
    }
}

/// The inspected emitter of the loaded project, with its index, to change
/// it in place: found under the same condition as `get_inspecting_emitter`.
pub fn get_inspecting_emitter_mut<'a, E>(
    inspecting: Option<Inspecting>,
    emitters: &'a mut Vec<E>,
) -> (r: Option<(u8, &'a mut E)>)
    ensures
        match r {
            Some((i, e)) => {
                &&& inspected_emitter_index_spec(inspecting) == Some(i)
                &&& (i as int) < old(emitters)@.len()
                &&& *e == old(emitters)@[i as int]
                &&& final(emitters)@ == old(emitters)@.update(i as int, *final(e))
            },
            None => {
                &&& !(inspected_emitter_index_spec(inspecting) matches Some(i) && (i as int) < old(
                    emitters,
                )@.len())
                &&& final(emitters)@ == old(emitters)@
            },
        },
{
    let index = match inspected_emitter_index(inspecting) {
        Some(i) => i,
        None => return None,
    };
    let i = index as usize;
    if i < emitters.len() {
        Some((index, &mut emitters[i]))
    } else {
        None
    }
}

/// The emitter index the inspector panel was last built for.
pub struct InspectedEmitterTracker {
    pub current_index: Option<u8>,
}

impl Default for InspectedEmitterTracker {
    fn default() -> (t: Self)
        ensures
            t.current_index is None,
    {
        InspectedEmitterTracker { current_index: None }
    }
}

/// Follows the inspection: the tracker holds the inspected emitter's index.
pub fn update_inspected_emitter_tracker(
    tracker: &mut InspectedEmitterTracker,
    inspecting: Option<Inspecting>,
)
    ensures
        final(tracker).current_index == inspected_emitter_index_spec(inspecting),
{
    let new_index = inspected_emitter_index(inspecting);
    if tracker.current_index != new_index {
        tracker.current_index = new_index;
    }
}

/// The outcome of `should_rebind`: the index remembered afterwards, and
/// whether the widgets must be bound again.
pub open spec fn rebind_spec(last_bound: Option<u8>, current_index: Option<u8>, has_new_widgets: bool) -> (
    Option<u8>,
    bool,
) {
    match current_index {
        None => (None, false),
        Some(i) => (Some(i), last_bound != Some(i) || has_new_widgets),
    }
}

/// Decides whether the inspector's widgets must be bound to the inspected
/// item again: when something is inspected and it is not the item they
/// were last bound to, or new widgets appeared.  Remembers the item.
pub fn should_rebind(last_bound: &mut Option<u8>, current_index: Option<u8>, has_new_widgets: bool) -> (r:
    bool)
    ensures
        (*final(last_bound), r) == rebind_spec(*old(last_bound), current_index, has_new_widgets),
{
    let index = match current_index {
        Some(i) => i,
        None => {
            *last_bound = None;
            return false;
        },
    };
    let changed = match *last_bound {
        Some(l) => l != index,
        None => true,
    };
    *last_bound = Some(index);
    changed || has_new_widgets
}

/// The widgets are bound again exactly when an item is inspected that they
/// were not last bound to, or when new widgets appeared while an item is
/// inspected; the item inspected, or none, is what is remembered.
pub proof fn lemma_rebind_when_changed(last_bound: Option<u8>, current_index: Option<u8>, has_new_widgets: bool)
    ensures
        rebind_spec(last_bound, current_index, has_new_widgets).0 == current_index,
        rebind_spec(last_bound, current_index, has_new_widgets).1 <==> (current_index is Some && (
        last_bound != current_index || has_new_widgets)),
{
}

/// Once widgets are bound to an item, asking again for the same item with
/// no new widgets binds nothing.
pub proof fn lemma_rebind_settles(last_bound: Option<u8>, current_index: Option<u8>, has_new_widgets: bool)
    ensures
        ({
            let (remembered, _) = rebind_spec(last_bound, current_index, has_new_widgets);
            !rebind_spec(remembered, current_index, false).1
        }),
{
}

/// The section to fill with its fields: the one section of its kind, once
/// it is built (`sections` lists each with whether it is initialized), and
/// only while none of its content exists yet.
pub fn section_needs_setup(sections: &[(u64, bool)], existing_content: usize) -> (r: Option<u64>)
    ensures
        r == (if sections@.len() == 1 && sections@[0].1 && existing_content == 0 {
            Some(sections@[0].0)
        } else {
            None
        }),
{
    if sections.len() != 1 {
        return None;
    }
    let (entity, initialized) = sections[0];
    if !initialized || existing_content != 0 {
        return None;
    }
    Some(entity)
}

/// "Collider"
pub open spec fn collider_title_spec() -> Seq<char> {
    seq!['C', 'o', 'l', 'l', 'i', 'd', 'e', 'r']
}

/// "icons/ri-showers-fill.png", the icon of an emitter.
pub open spec fn emitter_icon_spec() -> Seq<char> {
    seq![
        'i', 'c', 'o', 'n', 's', '/', 'r', 'i', '-', 's', 'h', 'o', 'w', 'e', 'r', 's', '-', 'f',
        'i', 'l', 'l', '.', 'p', 'n', 'g',
    ]
}

/// "icons/ri-box-2-fill.png", the icon of a collider.
pub open spec fn collider_icon_spec() -> Seq<char> {
    seq![
        'i', 'c', 'o', 'n', 's', '/', 'r', 'i', '-', 'b', 'o', 'x', '-', '2', '-', 'f', 'i', 'l',
        'l', '.', 'p', 'n', 'g',
    ]
}

/// The inspector panel's title and icon for the inspected item: an
/// emitter's name (empty past the last emitter) with the emitter icon, or
/// "Collider" with the collider icon.
pub fn update_panel_title(inspecting: Inspecting, emitter_names: &[String]) -> (r: (String, String))
    ensures
        r.0@ == (match inspecting.kind {
            Inspectable::Emitter => if (inspecting.index as int) < emitter_names@.len() {
                emitter_names@[inspecting.index as int]@
            } else {
                Seq::empty()
            },
            Inspectable::Collider => collider_title_spec(),
        }),
        r.1@ == (match inspecting.kind {
            Inspectable::Emitter => emitter_icon_spec(),
            Inspectable::Collider => collider_icon_spec(),
        }),
{
    match inspecting.kind {
        Inspectable::Emitter => {
            let i = inspecting.index as usize;
            let name = if i < emitter_names.len() {
                string_from_chars(&chars_of(emitter_names[i].as_str()))
            } else {
                String::new()
            };
            let icon = "icons/ri-showers-fill.png";
            proof {
                reveal_strlit("icons/ri-showers-fill.png");
            }
            let v = chars_of(icon);
            assert(v@ =~= emitter_icon_spec());
            (name, string_from_chars(&v))
        },
        Inspectable::Collider => {
            let title = "Collider";
            let icon = "icons/ri-box-2-fill.png";
            proof {
                reveal_strlit("Collider");
                reveal_strlit("icons/ri-box-2-fill.png");
            }
            let t = chars_of(title);
            let v = chars_of(icon);
            assert(t@ =~= collider_title_spec());
            assert(v@ =~= collider_icon_spec());
            (string_from_chars(&t), string_from_chars(&v))
        },
    }
}

} // verus!
