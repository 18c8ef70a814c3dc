//! The curve editor's state: the edited curve, the preset it matches, and
//! the editing of its points.

use vstd::prelude::*;

use crate::text::{chars_of, string_from_chars};

verus! {

/// "Custom curve", the label of a curve that matches no preset.
pub open spec fn custom_curve_label() -> Seq<char> {
    seq!['C', 'u', 's', 't', 'o', 'm', ' ', 'c', 'u', 'r', 'v', 'e']
}

/// A curve editor's state: the curve `C` being edited, the name of the
/// preset it matches (if any) and its open popover.
pub struct CurveEditState<C> {
    pub curve: C,
    pub preset_name: Option<String>,
    pub popover: Option<u64>,
}

impl<C> CurveEditState<C> {
    /// The state for a curve, with the preset it was found to match.
    pub fn from_curve(curve: C, preset_name: Option<String>) -> (s: Self)
        ensures
            s.curve == curve,
            s.preset_name == preset_name,
            s.popover is None,
    {
        CurveEditState { curve, preset_name, popover: None }
    }

    /// Replaces the curve, with the preset it was found to match.
    pub fn set_curve(&mut self, curve: C, preset_name: Option<String>)
        ensures
            final(self).curve == curve,
            final(self).preset_name == preset_name,
            final(self).popover == old(self).popover,
    {
        self.curve = curve;
        self.preset_name = preset_name;
    }

    /// The curve was edited by hand: it matches no preset any more.
    pub fn mark_custom(&mut self)
        ensures
            final(self).curve == old(self).curve,
            final(self).preset_name is None,
            final(self).popover == old(self).popover,
    {
        self.preset_name = None;
    }

    /// The label of the editor's button: the preset's name, or "Custom
    /// curve".
    pub fn label(&self) -> (l: String)
        ensures
            l@ == match self.preset_name {
                Some(p) => p@,
                None => custom_curve_label(),
            },
    {
        match &self.preset_name {
            Some(p) => string_from_chars(&chars_of(p.as_str())),
            None => {
                let lit = "Custom curve";
                proof {
                    reveal_strlit("Custom curve");
                }
                let v = chars_of(lit);
                assert(v@ =~= custom_curve_label());
                string_from_chars(&v)
            },
        }
    }
}

/// What a click on a curve editor's button does.
#[derive(Clone, Copy, Debug, PartialEq, Eq, Structural)]
pub enum PopoverToggleAction {
    /// close this popover of the editor and restore the button
    Close(u64),
    /// another popover is open and the editor is not inside it
    Ignore,
    /// open the editor's popover and show the button as active
    Open,
}

/// What a click on the button does: it closes the editor's own popover
/// when one exists (`own_popover`), and otherwise opens one, unless some
/// popover is open that the editor does not lie in.
pub open spec fn curve_trigger_spec(own_popover: Option<u64>, any_popover_open: bool, nested: bool) -> PopoverToggleAction {
    match own_popover {
        Some(p) => PopoverToggleAction::Close(p),
        None => if any_popover_open && !nested {
            PopoverToggleAction::Ignore
        } else {
            PopoverToggleAction::Open
        },
    }
}

/// A click on a curve editor with no popover of its own opens one whenever
/// no popover is open anywhere, nested or not, and also when the editor lies
/// in an open popover; it is ignored only while a popover is open that the
/// editor does not lie in. A click while its own popover is open closes that
/// very popover.
pub proof fn lemma_curve_trigger_click(own_popover: Option<u64>, any_popover_open: bool, nested: bool)
    ensures
        curve_trigger_spec(None, false, nested) == PopoverToggleAction::Open,
        curve_trigger_spec(None, any_popover_open, true) == PopoverToggleAction::Open,
        curve_trigger_spec(own_popover, any_popover_open, nested) == PopoverToggleAction::Ignore
            <==> (own_popover is None && any_popover_open && !nested),
        curve_trigger_spec(own_popover, any_popover_open, nested) == PopoverToggleAction::Open
            <==> (own_popover is None && (!any_popover_open || nested)),
        own_popover matches Some(p) ==> curve_trigger_spec(own_popover, any_popover_open, nested)
            == PopoverToggleAction::Close(p),
{
}

impl<C> CurveEditState<C> {
    /// Handles a click on the editor's button (see `curve_trigger_spec`);
    /// closing forgets the popover, and nothing else changes.
    pub fn handle_trigger_click(&mut self, own_popover: Option<u64>, any_popover_open: bool, nested: bool) -> (a:
        PopoverToggleAction)
        ensures
            a == curve_trigger_spec(own_popover, any_popover_open, nested),
            final(self).popover == (if a is Close {
                None
            } else {
                old(self).popover
            }),
            final(self).curve == old(self).curve,
            final(self).preset_name == old(self).preset_name,
    {
        match own_popover {
            Some(p) => {
                self.popover = None;
                PopoverToggleAction::Close(p)
            },
            None => if any_popover_open && !nested {
                PopoverToggleAction::Ignore
            } else {
                PopoverToggleAction::Open
            },
        }
    }

    /// Records the popover made after `PopoverToggleAction::Open`.
    pub fn popover_opened(&mut self, popover: u64)
        ensures
            final(self).popover == Some(popover),
            final(self).curve == old(self).curve,
            final(self).preset_name == old(self).preset_name,
    {
        self.popover = Some(popover);
    }

    /// Forgets the popover once it no longer exists; returns whether it was
    /// forgotten, so that the button is restored.
    pub fn handle_popover_closed(&mut self, popover_exists: bool) -> (closed: bool)
        ensures
            closed == (old(self).popover is Some && !popover_exists),
            final(self).popover == (if closed {
                None
            } else {
                old(self).popover
            }),
            final(self).curve == old(self).curve,
            final(self).preset_name == old(self).preset_name,
    {
        if self.popover.is_some() && !popover_exists {
            self.popover = None;
            true
        } else {
            false
        }
    }
}

/// A point can be deleted only while the curve has more than two.
pub fn can_delete_point(point_count: usize) -> (r: bool)
    ensures
        r == (point_count > 2),
{
    point_count > 2
}

/// Deletes the point at `index` from a curve's points, unless the option
/// is disabled or the curve has only two points; returns whether it did.
pub fn delete_curve_point<P>(points: &mut Vec<P>, index: usize, disabled: bool) -> (deleted: bool)
    requires
        !disabled && old(points)@.len() > 2 ==> index < old(points)@.len(),
    ensures
        deleted == (!disabled && old(points)@.len() > 2),
        deleted ==> final(points)@ == old(points)@.remove(index as int),
        !deleted ==> final(points)@ == old(points)@,
        old(points)@.len() >= 2 ==> final(points)@.len() >= 2,
{
    if disabled {
        return false;
    }
    if points.len() <= 2 {
        return false;
    }
    points.remove(index);
    true
}

} // verus!
