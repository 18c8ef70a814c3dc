//! Opening and saving projects: which project the editor starts with, what
//! a save request does, and the state of the "Open" file dialog.

use std::sync::atomic::AtomicBool;
use std::sync::Arc;
use vstd::prelude::*;

use crate::inspect::{Inspectable, Inspecting};
use crate::new_project::project_extension_spec;
use crate::text::{chars_of, extend_chars, string_from_chars};

verus! {

/// What a save request does.
#[derive(Clone, Copy, Debug, PartialEq, Eq, Structural)]
pub enum SaveAction {
    /// no project is loaded
    Nothing,
    /// write the project to the file it was opened from
    SaveToPath,
    /// ask where to save it
    SaveAs,
}

/// A save request writes the loaded project back to its file, or asks for
/// a file when it has none yet.
pub fn on_project_save_event(has_project: bool, has_path: bool) -> (a: SaveAction)
    ensures
        a == (if !has_project {
            SaveAction::Nothing
        } else if has_path {
            SaveAction::SaveToPath
        } else {
            SaveAction::SaveAs
        }),
{
    if !has_project {
        SaveAction::Nothing
    } else if has_path {
        SaveAction::SaveToPath
    } else {
        SaveAction::SaveAs
    }
}

/// The file name proposed when a project is saved under a new name: the
/// project's name with the project extension.
pub fn save_as_file_name(project_name: &str) -> (r: String)
    ensures
        r@ == project_name@ + project_extension_spec(),
{
    let mut v = chars_of(project_name);
    let ext = ".ron";
    proof {
        reveal_strlit(".ron");
    }
    let e = chars_of(ext);
    assert(e@ =~= project_extension_spec());
    extend_chars(&mut v, &e);
    string_from_chars(&v)
}

/// The save shortcut: S pressed while a Command or Control key is held.
pub fn handle_save_keyboard_shortcut(
    super_left: bool,
    super_right: bool,
    control_left: bool,
    control_right: bool,
    s_just_pressed: bool,
) -> (r: bool)
    ensures
        r == ((super_left || super_right || control_left || control_right) && s_just_pressed),
{
    let ctrl_or_cmd = super_left || super_right || control_left || control_right;
    ctrl_or_cmd && s_just_pressed
}

/// The project the editor starts with.
#[derive(Clone, Copy, Debug, PartialEq, Eq, Structural)]
pub enum InitialProject {
    /// the project open when the editor was last closed
    LastOpened,
    /// the bundled demo, on the first run
    Demo,
    /// a new project with one emitter
    Fallback,
}

/// "New project", the name of the project made when nothing else loads.
pub open spec fn fallback_project_name_spec() -> Seq<char> {
    seq!['N', 'e', 'w', ' ', 'p', 'r', 'o', 'j', 'e', 'c', 't']
}

/// The name of the project made when nothing else loads.
pub fn fallback_project_name() -> (r: String)
    ensures
        r@ == fallback_project_name_spec(),
{
    let lit = "New project";
    proof {
        reveal_strlit("New project");
    }
    let v = chars_of(lit);
    assert(v@ =~= fallback_project_name_spec());
    string_from_chars(&v)
}

/// The project the editor starts with, and what it inspects first.
/// `last_opened` and `demo` tell, for the project last open and for the
/// demo, whether it could be read and then whether it has emitters; the
/// demo counts only on a first run (no recent projects).  A project read
/// with emitters opens on its first emitter; the fallback project has one.
pub open spec fn initial_project_spec(last_opened: Option<bool>, is_first_run: bool, demo: Option<bool>) -> (
    InitialProject,
    Option<Inspecting>,
) {
    let first_emitter = Some(Inspecting { kind: Inspectable::Emitter, index: 0 });
    match last_opened {
        Some(has_emitters) => (
            InitialProject::LastOpened,
            if has_emitters {
                first_emitter
            } else {
                None
            },
        ),
        None => match demo {
            Some(has_emitters) if is_first_run => (
                InitialProject::Demo,
                if has_emitters {
                    first_emitter
                } else {
                    None
                },
            ),
            _ => (InitialProject::Fallback, first_emitter),
        },
    }
}

/// Chooses the project the editor starts with (see `initial_project_spec`).
pub fn load_initial_project(last_opened: Option<bool>, is_first_run: bool, demo: Option<bool>) -> (r: (
    InitialProject,
    Option<Inspecting>,
))
    ensures
        r == initial_project_spec(last_opened, is_first_run, demo),
        (last_opened == Some(true) || (last_opened is None && is_first_run && demo == Some(true)))
            ==> r.1 == Some(Inspecting { kind: Inspectable::Emitter, index: 0 }),
        (last_opened == Some(false) || (last_opened is None && is_first_run && demo == Some(false)))
            ==> r.1 is None,
{
    let first_emitter = Some(Inspecting { kind: Inspectable::Emitter, index: 0 });
    match last_opened {
        Some(has_emitters) => (
            InitialProject::LastOpened,
            if has_emitters {
                first_emitter
            } else {
                None
            },
        ),
        None => match demo {
            Some(has_emitters) if is_first_run => (
                InitialProject::Demo,
                if has_emitters {
                    first_emitter
                } else {
                    None
                },
            ),
            _ => (InitialProject::Fallback, first_emitter),
        },
    }
}

/// The editor always starts on some project, and whatever it inspects is
/// the first emitter.
pub proof fn lemma_initial_inspection(last_opened: Option<bool>, is_first_run: bool, demo: Option<bool>)
    ensures
        initial_project_spec(last_opened, is_first_run, demo).1 matches Some(i) ==> i.kind
            == Inspectable::Emitter && i.index == 0,
        initial_project_spec(last_opened, is_first_run, demo).0 == InitialProject::Fallback
            ==> initial_project_spec(last_opened, is_first_run, demo).1 is Some,
{
}

/// Which project the editor starts with and what it inspects first: the
/// last opened project whenever it could be read; else the demo when this is
/// the first run and the demo could be read; else the fallback project. The
/// project it starts with opens on its first emitter exactly when it has
/// emitters (the fallback project always has one), and on nothing otherwise.
pub proof fn lemma_initial_project_choice(last_opened: Option<bool>, is_first_run: bool, demo: Option<bool>)
    ensures
        initial_project_spec(last_opened, is_first_run, demo).0 == InitialProject::LastOpened
            <==> last_opened is Some,
        initial_project_spec(last_opened, is_first_run, demo).0 == InitialProject::Demo <==> (
        last_opened is None && is_first_run && demo is Some),
        initial_project_spec(last_opened, is_first_run, demo).0 == InitialProject::Fallback <==> (
        last_opened is None && !(is_first_run && demo is Some)),
        (last_opened == Some(true) || (last_opened is None && is_first_run && demo == Some(true)))
            ==> initial_project_spec(last_opened, is_first_run, demo).1 == Some(
            Inspecting { kind: Inspectable::Emitter, index: 0 },
        ),
        (last_opened == Some(false) || (last_opened is None && is_first_run && demo == Some(false)))
            ==> initial_project_spec(last_opened, is_first_run, demo).1 is None,
        initial_project_spec(last_opened, is_first_run, demo).0 == InitialProject::Fallback
            ==> initial_project_spec(last_opened, is_first_run, demo).1 == Some(
            Inspecting { kind: Inspectable::Emitter, index: 0 },
        ),
{
}

/// The "Open" file dialog: whether it is open, and the flag its background
/// task raises when the user has picked a file or cancelled.
pub struct OpenFileDialogState {
    pub is_open: bool,
    pub completed: Option<Arc<AtomicBool>>,
}

impl Default for OpenFileDialogState {
    fn default() -> (s: Self)
        ensures
            !s.is_open,
            s.completed is None,
    {
        OpenFileDialogState { is_open: false, completed: None }
    }
}

impl OpenFileDialogState {
    /// Opens the dialog, to be signalled through `completed`, unless it is
    /// already open; returns whether it opened.
    pub fn on_open_file_dialog_event(&mut self, completed: Arc<AtomicBool>) -> (opened: bool)
        ensures
            opened == !old(self).is_open,
            opened ==> final(self).is_open && final(self).completed == Some(completed),
            !opened ==> *final(self) == *old(self),
    {
        if self.is_open {
            return false;
        }
        self.is_open = true;
        self.completed = Some(completed);
        true
    }

    /// Once the dialog's task is done (`done`), the dialog is closed and its
    /// result can be taken; returns whether that happened.
    pub fn finish(&mut self, done: bool) -> (finished: bool)
        ensures
            finished == (old(self).is_open && old(self).completed is Some && done),
            finished ==> !final(self).is_open && final(self).completed is None,
            !finished ==> *final(self) == *old(self),
    {
        if !self.is_open || self.completed.is_none() || !done {
            return false;
        }
        self.is_open = false;
        self.completed = None;
        true
    }

    /// Polls the dialog's flag and closes the dialog once its task is done;
    /// the flag's value is decided by the other thread.
    pub fn poll_open_file_dialog(&mut self) -> (finished: bool)
        ensures
            finished ==> old(self).is_open && old(self).completed is Some,
            finished ==> !final(self).is_open && final(self).completed is None,
            !finished ==> *final(self) == *old(self),
    {
        let done = match &self.completed {
            Some(flag) => flag.load(std::sync::atomic::Ordering::Acquire),
            None => false,
        };
        self.finish(done)
    }
}

} // verus!
