//! The project selector of the top bar: its label, and the popover of
//! project actions and recent projects that its button opens and closes.

use vstd::prelude::*;

use crate::text::{chars_of, string_from_chars};

verus! {

/// "Untitled"
pub open spec fn untitled_spec() -> Seq<char> {
    seq!['U', 'n', 't', 'i', 't', 'l', 'e', 'd']
}

/// The selector's label: the loaded project's name, or "Untitled".
pub fn project_label(name: Option<&str>) -> (r: String)
    ensures
        r@ == match name {
            Some(n) => n@,
            None => untitled_spec(),
        },
{
    match name {
        Some(n) => string_from_chars(&chars_of(n)),
        None => {
            let lit = "Untitled";
            proof {
                reveal_strlit("Untitled");
            }
            let v = chars_of(lit);
            assert(v@ =~= untitled_spec());
            string_from_chars(&v)
        },
    }
}

/// The selector's state: the popover it opened, if it is open.
pub struct ProjectSelectorState {
    pub popover: Option<u64>,
    pub initialized: bool,
}

impl Default for ProjectSelectorState {
    fn default() -> (s: Self)
        ensures
            s.popover is None,
            !s.initialized,
    {
        ProjectSelectorState { popover: None, initialized: false }
    }
}

/// What a click on the selector's button does.
#[derive(Clone, Copy, Debug, PartialEq, Eq, Structural)]
pub enum TriggerAction {
    /// close the selector's popover
    Close(u64),
    /// another popover is open: do nothing
    Ignore,
    /// open the selector's popover
    Open,
}

/// What a click on the selector's button does while `popover` is the
/// selector's open popover, if any.
pub open spec fn trigger_click_spec(popover: Option<u64>, any_popover_open: bool) -> TriggerAction {
    match popover {
        Some(p) => TriggerAction::Close(p),
        None => if any_popover_open {
            TriggerAction::Ignore
        } else {
            TriggerAction::Open
        },
    }
}

impl ProjectSelectorState {
    /// Marks the selector as built; returns whether its button still had to
    /// be made.
    pub fn setup_project_selector(&mut self) -> (build: bool)
        ensures
            build == !old(self).initialized,
            final(self).initialized,
            final(self).popover == old(self).popover,
    {
        if self.initialized {
            return false;
        }
        self.initialized = true;
        true
    }

    /// A click on the selector's button closes its popover when it is open,
    /// else opens it unless another popover is open.
    pub fn handle_trigger_click(&mut self, any_popover_open: bool) -> (a: TriggerAction)
        ensures
            a == trigger_click_spec(old(self).popover, any_popover_open),
            final(self).popover is None,
            final(self).initialized == old(self).initialized,
    {
        match self.popover {
            Some(p) => {
                self.popover = None;
                TriggerAction::Close(p)
            },
            None => if any_popover_open {
                TriggerAction::Ignore
            } else {
                TriggerAction::Open
            },
        }
    }

    /// Records the popover made after `TriggerAction::Open`.
    pub fn popover_opened(&mut self, popover: u64)
        ensures
            final(self).popover == Some(popover),
            final(self).initialized == old(self).initialized,
    {
        self.popover = Some(popover);
    }

    /// Forgets the popover once it no longer exists (it was dismissed).
    pub fn handle_popover_closed(&mut self, popover_exists: bool)
        ensures
            final(self).popover == (if popover_exists {
                old(self).popover
            } else {
                None
            }),
            final(self).initialized == old(self).initialized,
    {
        if self.popover.is_some() && !popover_exists {
            self.popover = None;
        }
    }
}

/// A click on the button toggles the popover: with nothing else open, a
/// click opens it, and once it is recorded the next click closes that same
/// popover, whatever else is open; while some other popover is open, a
/// click on a selector without one is ignored.
pub proof fn lemma_trigger_click_toggles(popover: u64, any_popover_open: bool)
    ensures
        trigger_click_spec(None, false) == TriggerAction::Open,
        trigger_click_spec(None, true) == TriggerAction::Ignore,
        trigger_click_spec(Some(popover), any_popover_open) == TriggerAction::Close(popover),
{
}

/// The popover to close after a click on one of its options: the first
/// selector popover that holds the clicked entity; none for a click on the
/// selector's own button.  `popovers` pairs each popover with whether the
/// clicked entity lies inside it.
pub open spec fn option_click_target(clicked_is_trigger: bool, popovers: Seq<(u64, bool)>, n: int) -> Option<u64>
    decreases n,
{
    if clicked_is_trigger || n <= 0 {
        None
    } else {
        match option_click_target(clicked_is_trigger, popovers, n - 1) {
            Some(p) => Some(p),
            None => if popovers[n - 1].1 {
                Some(popovers[n - 1].0)
            } else {
                None
            },
        }
    }
}

/// A click on the selector's own button closes no popover through its
/// options; any other click closes the first popover, in order, that holds
/// the clicked entity, and none when no popover holds it.
pub proof fn lemma_option_click_target_first(clicked_is_trigger: bool, popovers: Seq<(u64, bool)>, n: int)
    requires
        0 <= n <= popovers.len(),
    ensures
        clicked_is_trigger ==> option_click_target(clicked_is_trigger, popovers, n) is None,
        !clicked_is_trigger ==> (option_click_target(clicked_is_trigger, popovers, n) is None
            <==> forall|j: int| 0 <= j < n ==> !(#[trigger] popovers[j]).1),
        option_click_target(clicked_is_trigger, popovers, n) matches Some(p) ==> exists|i: int|
            0 <= i < n && (#[trigger] popovers[i]).1 && popovers[i].0 == p && forall|j: int|
                0 <= j < i ==> !(#[trigger] popovers[j]).1,
    decreases n,
{
    if n > 0 {
        lemma_option_click_target_first(clicked_is_trigger, popovers, n - 1);
        if !clicked_is_trigger && option_click_target(clicked_is_trigger, popovers, n - 1) is None
            && popovers[n - 1].1 {
            assert(popovers[n - 1].1);
        }
    }
}

proof fn lemma_option_click_target_stays(clicked_is_trigger: bool, popovers: Seq<(u64, bool)>, m: int, n: int)
    requires
        0 <= m <= n,
        option_click_target(clicked_is_trigger, popovers, m) is Some,
    ensures
        option_click_target(clicked_is_trigger, popovers, n) == option_click_target(
            clicked_is_trigger,
            popovers,
            m,
        ),
    decreases n - m,
{
    if m < n {
        lemma_option_click_target_stays(clicked_is_trigger, popovers, m, n - 1);
    }
}

/// Which popover a click on an option closes (see `option_click_target`).
pub fn handle_popover_option_click(clicked_is_trigger: bool, popovers: &[(u64, bool)]) -> (r: Option<
    u64,
>)
    ensures
        r == option_click_target(clicked_is_trigger, popovers@, popovers@.len() as int),
{
    if clicked_is_trigger {
        return None;
    }
    let mut i: usize = 0;
    while i < popovers.len()
        invariant
            !clicked_is_trigger,
            i <= popovers@.len(),
            option_click_target(clicked_is_trigger, popovers@, i as int) is None,
        decreases popovers@.len() - i,
    {
        let (p, contains) = popovers[i];
        if contains {
            proof {
                assert(option_click_target(clicked_is_trigger, popovers@, i + 1) == Some(p));
                lemma_option_click_target_stays(clicked_is_trigger, popovers@, i + 1, popovers@.len() as int);
            }
            return Some(p);
        }
        i = i + 1;
    }
    None
}

/// The name shown for a recent project: the name stored in it when it can
/// be read, else its file name without extension, else the path as listed.
pub fn recent_project_name(loaded_name: Option<String>, file_stem: Option<String>, path: &str) -> (r:
    String)
    ensures
        r@ == match loaded_name {
            Some(n) => n@,
            None => match file_stem {
                Some(s) => s@,
                None => path@,
            },
        },
{
    match loaded_name {
        Some(n) => n,
        None => match file_stem {
            Some(s) => s,
            None => string_from_chars(&chars_of(path)),
        },
    }
}

} // verus!
