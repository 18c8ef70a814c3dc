//! Which emitters the inspector shows collapsed, and which name is being edited.

use std::collections::HashSet;
use vstd::prelude::*;

verus! {

broadcast use vstd::std_specs::hash::group_hash_axioms;

/// Inspector panel state: emitters are expanded unless their index is in
/// `collapsed_emitters`.
pub struct InspectorState {
    pub editing_emitter_name: Option<usize>,
    pub collapsed_emitters: HashSet<usize>,
}

/// Where an emitter index lands after the emitter at `removed` is deleted:
/// later emitters move one place down.
pub open spec fn shift_after_removal(removed: usize, idx: usize) -> usize {
    if idx > removed {
        (idx - 1) as usize
    } else {
        idx
    }
}

impl Default for InspectorState {
    fn default() -> (s: Self)
        ensures
            s.editing_emitter_name is None,
            s.collapsed_emitters@ == Set::<usize>::empty(),
    {
        InspectorState { editing_emitter_name: None, collapsed_emitters: HashSet::new() }
    }
}

impl InspectorState {
    /// An emitter is expanded unless it was collapsed.
    pub fn is_emitter_expanded(&self, index: usize) -> (r: bool)
        ensures
            r == !self.collapsed_emitters@.contains(index),
    {
        !self.collapsed_emitters.contains(&index)
    }

    /// Collapses an expanded emitter, or expands a collapsed one.
    pub fn toggle_emitter(&mut self, index: usize)
        ensures
            final(self).editing_emitter_name == old(self).editing_emitter_name,
            final(self).collapsed_emitters@ == if old(self).collapsed_emitters@.contains(index) {
                old(self).collapsed_emitters@.remove(index)
            } else {
                old(self).collapsed_emitters@.insert(index)
            },
    {
        if self.collapsed_emitters.contains(&index) {
            self.collapsed_emitters.remove(&index);
        } else {
            self.collapsed_emitters.insert(index);
        }
    }

    /// Keeps the state in step with the deletion of the emitter at `index`:
    /// its name is no longer being edited, it is forgotten as collapsed, and
    /// the collapsed indices after it move one place down.
    pub fn on_emitter_removed(&mut self, index: usize)
        ensures
            final(self).editing_emitter_name == (if old(self).editing_emitter_name == Some(index) {
                None
            } else {
                old(self).editing_emitter_name
            }),
            final(self).collapsed_emitters@ == old(self).collapsed_emitters@.remove(index).map(
                |i: usize| shift_after_removal(index, i),
            ),
    {
        if self.editing_emitter_name == Some(index) {
            self.editing_emitter_name = None;
        }
        self.collapsed_emitters.remove(&index);
        let ghost kept = self.collapsed_emitters@;
        let ghost target = kept.map(|i: usize| shift_after_removal(index, i));
        let mut updated: HashSet<usize> = HashSet::new();
        for k in it: self.collapsed_emitters.iter()
            invariant
                kept == self.collapsed_emitters@,
                target == kept.map(|i: usize| shift_after_removal(index, i)),
                it.seq().unref().to_set() == kept,
                forall|j: usize| #[trigger] updated@.contains(j) ==> target.contains(j),
                forall|i: usize|
                    kept.contains(i) ==> (#[trigger] updated@.contains(
                        shift_after_removal(index, i),
                    ) || exists|t: int| it.index() <= t < it.seq().len() && *it.seq()[t] == i),
        {
            let idx = *k;
            let moved = if idx > index {
                idx - 1
            } else {
                idx
            };
            proof {
                let vals = it.seq().unref();
                assert(vals[it.index() as int] == idx);
                assert(vals.contains(idx));
                assert(kept.contains(idx));
                assert(moved == shift_after_removal(index, idx));
                assert(target.contains(moved));
            }
            updated.insert(moved);
            proof {
                assert forall|i: usize| kept.contains(i) implies (#[trigger] updated@.contains(
                    shift_after_removal(index, i),
                ) || exists|t: int| it.index() + 1 <= t < it.seq().len() && *it.seq()[t] == i) by {
                    if !updated@.contains(shift_after_removal(index, i)) {
                        let t = choose|t: int| it.index() <= t < it.seq().len() && *it.seq()[t] == i;
                        assert(t != it.index());
                    }
                }
            }
        }
        proof {
            assert forall|j: usize| target.contains(j) implies updated@.contains(j) by {
                let i = choose|i: usize| kept.contains(i) && j == shift_after_removal(index, i);
                assert(updated@.contains(shift_after_removal(index, i)));
            }
            assert(updated@ =~= target);
        }
        self.collapsed_emitters = updated;
    }
}

impl InspectorState {
    /// The rename button of an emitter's header: its name becomes editable.
    pub fn start_editing_emitter_name(&mut self, index: usize)
        ensures
            final(self).editing_emitter_name == Some(index),
            final(self).collapsed_emitters@ == old(self).collapsed_emitters@,
    {
        self.editing_emitter_name = Some(index);
    }

    /// Renaming ends when the name input loses the focus or Enter is
    /// pressed.
    pub fn finish_editing_emitter_name(&mut self, lost_focus: bool, enter_pressed: bool)
        ensures
            final(self).editing_emitter_name == (if lost_focus || enter_pressed {
                None
            } else {
                old(self).editing_emitter_name
            }),
            final(self).collapsed_emitters@ == old(self).collapsed_emitters@,
    {
        if lost_focus || enter_pressed {
            self.editing_emitter_name = None;
        }
    }
}

/// Removing the emitter at `removed` keeps exactly the collapsed state of
/// every other emitter: one before it keeps its index, one after it is found
/// one place lower.
pub proof fn lemma_removal_keeps_other_emitters_collapsed(
    old_collapsed: Set<usize>,
    removed: usize,
    j: usize,
)
    ensures
        ({
            let new_collapsed = old_collapsed.remove(removed).map(
                |i: usize| shift_after_removal(removed, i),
            );
            &&& j < removed ==> (new_collapsed.contains(j) <==> old_collapsed.contains(j))
            &&& (j >= removed && j < usize::MAX) ==> (new_collapsed.contains(j)
                <==> old_collapsed.contains((j + 1) as usize))
        }),
{
    let new_collapsed = old_collapsed.remove(removed).map(
        |i: usize| shift_after_removal(removed, i),
    );
    let kept = old_collapsed.remove(removed);
    if j < removed {
        if old_collapsed.contains(j) {
            assert(kept.contains(j) && j == shift_after_removal(removed, j));
        }
        if new_collapsed.contains(j) {
            let i = choose|i: usize| kept.contains(i) && j == shift_after_removal(removed, i);
            assert(i == j);
        }
    }
    if j >= removed && j < usize::MAX {
        let k = (j + 1) as usize;
        if old_collapsed.contains(k) {
            assert(kept.contains(k) && j == shift_after_removal(removed, k));
        }
        if new_collapsed.contains(j) {
            let i = choose|i: usize| kept.contains(i) && j == shift_after_removal(removed, i);
            assert(i == k);
        }
    }
}

/// Toggling an emitter twice leaves the inspector as it was, and a toggle
/// changes whether that emitter is expanded and no other.
pub proof fn lemma_toggle_twice_restores(collapsed: Set<usize>, index: usize, other: usize)
    ensures
        ({
            let once = if collapsed.contains(index) {
                collapsed.remove(index)
            } else {
                collapsed.insert(index)
            };
            let twice = if once.contains(index) {
                once.remove(index)
            } else {
                once.insert(index)
            };
            &&& twice == collapsed
            &&& once.contains(index) != collapsed.contains(index)
            &&& other != index ==> (once.contains(other) == collapsed.contains(other))
        }),
{
    let once = if collapsed.contains(index) {
        collapsed.remove(index)
    } else {
        collapsed.insert(index)
    };
    let twice = if once.contains(index) {
        once.remove(index)
    } else {
        once.insert(index)
    };
    assert(twice =~= collapsed);
}

} // verus!
