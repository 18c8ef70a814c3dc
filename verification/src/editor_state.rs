//! Editor session flags: playback requests, unsaved changes and the state of
//! an asynchronous save.

use std::sync::atomic::AtomicBool;
use std::sync::Arc;
use vstd::prelude::*;

use crate::text::{chars_of, extend_chars, string_from_chars};

verus! {

/// Playback and saving state of the editor.  `T` is the type of the clock
/// reading recorded when a save completes.
pub struct EditorState<T> {
    pub is_playing: bool,
    pub is_looping: bool,
    /// set when the preview must restart from the beginning
    pub should_reset: bool,
    /// set when play was asked for and not yet handled
    pub play_requested: bool,
    pub has_unsaved_changes: bool,
    /// true while a save runs in the background
    pub is_saving: bool,
    /// clock reading at which the last save completed
    pub save_completed_at: Option<T>,
    /// raised by the background task when its save is done
    pub save_complete_flag: Option<Arc<AtomicBool>>,
}

/// The same session with possibly different save bookkeeping.
pub open spec fn same_playback<T>(a: EditorState<T>, b: EditorState<T>) -> bool {
    &&& a.is_playing == b.is_playing
    &&& a.is_looping == b.is_looping
    &&& a.should_reset == b.should_reset
    &&& a.play_requested == b.play_requested
}

impl<T> Default for EditorState<T> {
    fn default() -> (s: Self)
        ensures
            s.is_playing,
            s.is_looping,
            !s.should_reset,
            !s.play_requested,
            !s.has_unsaved_changes,
            !s.is_saving,
            s.save_completed_at is None,
            s.save_complete_flag is None,
    {
        EditorState {
            is_playing: true,
            is_looping: true,
            should_reset: false,
            play_requested: false,
            has_unsaved_changes: false,
            is_saving: false,
            save_completed_at: None,
            save_complete_flag: None,
        }
    }
}

/// The session after an edit to the project: unsaved, and the preview
/// restarts and plays; everything else as it was.
pub open spec fn edited_spec<T>(s: EditorState<T>) -> EditorState<T> {
    EditorState { has_unsaved_changes: true, should_reset: true, is_playing: true, ..s }
}

impl<T> EditorState<T> {
    /// Records that the project differs from what was last saved.
    pub fn mark_unsaved(&mut self)
        ensures
            *final(self) == (EditorState { has_unsaved_changes: true, ..*old(self) }),
    {
        self.has_unsaved_changes = true;
    }

    /// After an edit to the project: it is unsaved, and the preview restarts
    /// and plays.
    pub fn restart_after_edit(&mut self)
        ensures
            *final(self) == edited_spec(*old(self)),
    {
        self.mark_unsaved();
        self.should_reset = true;
        self.is_playing = true;
    }

    /// Starts a background save signalled through `flag`, unless one is
    /// already running; returns whether it started.
    pub fn start_saving(&mut self, flag: Arc<AtomicBool>) -> (started: bool)
        ensures
            started == !old(self).is_saving,
            started ==> {
                &&& final(self).is_saving
                &&& final(self).save_completed_at is None
                &&& final(self).save_complete_flag == Some(flag)
                &&& final(self).has_unsaved_changes == old(self).has_unsaved_changes
                &&& same_playback(*final(self), *old(self))
            },
            !started ==> *final(self) == *old(self),
    {
        if self.is_saving {
            return false;
        }
        self.is_saving = true;
        self.save_completed_at = None;
        self.save_complete_flag = Some(flag);
        true
    }

    /// Applies what the background task reported: when the save finished
    /// (`completed`) while one was pending, the project counts as saved at
    /// `current_time`; returns whether that happened.
    pub fn complete_save(&mut self, completed: bool, current_time: T) -> (done: bool)
        ensures
            done == (completed && old(self).save_complete_flag is Some),
            done ==> {
                &&& !final(self).is_saving
                &&& !final(self).has_unsaved_changes
                &&& final(self).save_completed_at == Some(current_time)
                &&& final(self).save_complete_flag is None
                &&& same_playback(*final(self), *old(self))
            },
            !done ==> *final(self) == *old(self),
    {
        if completed && self.save_complete_flag.is_some() {
            self.is_saving = false;
            self.has_unsaved_changes = false;
            self.save_completed_at = Some(current_time);
            self.save_complete_flag = None;
            true
        } else {
            false
        }
    }

    /// Polls the background save's flag and, when it is raised, records the
    /// save as completed at `current_time`.  Nothing changes while no save
    /// is pending; the flag's value is decided by the other thread.
    pub fn check_save_completed(&mut self, current_time: T) -> (done: bool)
        ensures
            done ==> old(self).save_complete_flag is Some,
            done ==> {
                &&& !final(self).is_saving
                &&& !final(self).has_unsaved_changes
                &&& final(self).save_completed_at == Some(current_time)
                &&& final(self).save_complete_flag is None
                &&& same_playback(*final(self), *old(self))
            },
            !done ==> *final(self) == *old(self),
    {
        let completed = match &self.save_complete_flag {
            Some(flag) => flag.load(std::sync::atomic::Ordering::Relaxed),
            None => false,
        };
        self.complete_save(completed, current_time)
    }
}

/// The session after the loop button: looping switched.
pub open spec fn toggle_looping_spec<T>(s: EditorState<T>) -> EditorState<T> {
    EditorState { is_looping: !s.is_looping, ..s }
}

/// The session after the stop button: not playing, preview reset.
pub open spec fn stop_spec<T>(s: EditorState<T>) -> EditorState<T> {
    EditorState { is_playing: false, should_reset: true, ..s }
}

/// The session after the play/pause button: playing switched, and play
/// asked for when it resumes.
pub open spec fn toggle_play_spec<T>(s: EditorState<T>) -> EditorState<T> {
    EditorState { is_playing: !s.is_playing, play_requested: s.play_requested || !s.is_playing, ..s }
}

impl<T> EditorState<T> {
    /// The loop button: looping is switched on or off.
    pub fn toggle_looping(&mut self)
        ensures
            *final(self) == toggle_looping_spec(*old(self)),
    {
        self.is_looping = !self.is_looping;
    }

    /// The stop button: playback stops and the preview goes back to its
    /// start.
    pub fn stop(&mut self)
        ensures
            *final(self) == stop_spec(*old(self)),
    {
        self.is_playing = false;
        self.should_reset = true;
    }

    /// The play/pause button: playback is paused or resumed; resuming asks
    /// for play.
    pub fn toggle_play(&mut self)
        ensures
            *final(self) == toggle_play_spec(*old(self)),
    {
        if !self.is_playing {
            self.play_requested = true;
        }
        self.is_playing = !self.is_playing;
    }

    /// Whether a save asked for (by the save button or the keyboard
    /// shortcut) starts: only while no save is running.
    pub fn save_requested(&self, asked: bool) -> (r: bool)
        ensures
            r == (asked && !self.is_saving),
    {
        asked && !self.is_saving
    }

    /// The save button marks unsaved changes with a badge, except while a
    /// save runs (it then shows a spinner).
    pub fn shows_unsaved_badge(&self) -> (r: bool)
        ensures
            r == (self.has_unsaved_changes && !self.is_saving),
    {
        self.has_unsaved_changes && !self.is_saving
    }
}

/// The playback buttons: pause then resume gives back the playing state;
/// after a stop, the play button resumes playback from the start and asks
/// for it; the loop button twice changes nothing.
pub proof fn lemma_playback_buttons<T>(s: EditorState<T>)
    ensures
        toggle_play_spec(toggle_play_spec(s)).is_playing == s.is_playing,
        toggle_play_spec(stop_spec(s)).is_playing,
        toggle_play_spec(stop_spec(s)).play_requested,
        toggle_play_spec(stop_spec(s)).should_reset,
        toggle_looping_spec(toggle_looping_spec(s)) == s,
{
}

/// What each action changes of the session and what it keeps: an edit
/// makes the project unsaved and restarts and plays the preview; stop ends
/// playback and resets the preview; play/pause switches playback and asks
/// for play exactly when it resumes (a request already made stays); the
/// loop button switches looping. Every other field is kept by each.
pub proof fn lemma_session_actions<T>(s: EditorState<T>)
    ensures
        edited_spec(s).has_unsaved_changes && edited_spec(s).should_reset && edited_spec(s).is_playing,
        edited_spec(s).is_looping == s.is_looping && edited_spec(s).play_requested == s.play_requested
            && edited_spec(s).is_saving == s.is_saving && edited_spec(s).save_completed_at
            == s.save_completed_at && edited_spec(s).save_complete_flag == s.save_complete_flag,
        !stop_spec(s).is_playing && stop_spec(s).should_reset,
        stop_spec(s).is_looping == s.is_looping && stop_spec(s).play_requested == s.play_requested
            && stop_spec(s).has_unsaved_changes == s.has_unsaved_changes && stop_spec(s).is_saving
            == s.is_saving && stop_spec(s).save_completed_at == s.save_completed_at
            && stop_spec(s).save_complete_flag == s.save_complete_flag,
        toggle_play_spec(s).is_playing == !s.is_playing,
        toggle_play_spec(s).play_requested == (s.play_requested || !s.is_playing),
        toggle_play_spec(s).is_looping == s.is_looping && toggle_play_spec(s).should_reset
            == s.should_reset && toggle_play_spec(s).has_unsaved_changes == s.has_unsaved_changes
            && toggle_play_spec(s).is_saving == s.is_saving && toggle_play_spec(s).save_completed_at
            == s.save_completed_at && toggle_play_spec(s).save_complete_flag == s.save_complete_flag,
        toggle_looping_spec(s).is_looping == !s.is_looping,
        toggle_looping_spec(s).is_playing == s.is_playing && toggle_looping_spec(s).should_reset
            == s.should_reset && toggle_looping_spec(s).play_requested == s.play_requested
            && toggle_looping_spec(s).has_unsaved_changes == s.has_unsaved_changes
            && toggle_looping_spec(s).is_saving == s.is_saving,
{
}

/// Whether the project has unsaved changes (the editor's dirty flag).
pub struct DirtyState {
    pub has_unsaved_changes: bool,
}

impl Default for DirtyState {
    fn default() -> (s: Self)
        ensures
            !s.has_unsaved_changes,
    {
        DirtyState { has_unsaved_changes: false }
    }
}

/// "Untitled project"
pub open spec fn untitled_project_spec() -> Seq<char> {
    seq!['U', 'n', 't', 'i', 't', 'l', 'e', 'd', ' ', 'p', 'r', 'o', 'j', 'e', 'c', 't']
}

/// The project's name, or "Untitled project" when no project is loaded.
pub fn project_name(name: Option<&str>) -> (r: String)
    ensures
        r@ == match name {
            Some(n) => n@,
            None => untitled_project_spec(),
        },
{
    match name {
        Some(n) => string_from_chars(&chars_of(n)),
        None => {
            let lit = "Untitled project";
            proof {
                reveal_strlit("Untitled project");
            }
            let v = chars_of(lit);
            assert(v@ =~= untitled_project_spec());
            string_from_chars(&v)
        },
    }
}

/// " - Aracari Editor"
pub open spec fn title_suffix_spec() -> Seq<char> {
    seq![' ', '-', ' ', 'A', 'r', 'a', 'c', 'a', 'r', 'i', ' ', 'E', 'd', 'i', 't', 'o', 'r']
}

/// The editor window's title: `"* "` when there are unsaved changes, then
/// the project's name (or "Untitled"), then " - Aracari Editor".
pub fn window_title(project: Option<&str>, has_unsaved_changes: bool) -> (r: String)
    ensures
        r@ == (if has_unsaved_changes {
            seq!['*', ' ']
        } else {
            Seq::empty()
        }) + match project {
            Some(n) => n@,
            None => seq!['U', 'n', 't', 'i', 't', 'l', 'e', 'd'],
        } + title_suffix_spec(),
{
    let mut out: Vec<char> = Vec::new();
    if has_unsaved_changes {
        out.push('*');
        out.push(' ');
    }
    let name = match project {
        Some(n) => chars_of(n),
        None => {
            let lit = "Untitled";
            proof {
                reveal_strlit("Untitled");
            }
            chars_of(lit)
        },
    };
    extend_chars(&mut out, &name);
    let suffix_lit = " - Aracari Editor";
    proof {
        reveal_strlit(" - Aracari Editor");
    }
    let suffix = chars_of(suffix_lit);
    extend_chars(&mut out, &suffix);
    let ghost prefix: Seq<char> = if has_unsaved_changes {
        seq!['*', ' ']
    } else {
        Seq::empty()
    };
    assert(suffix@ =~= title_suffix_spec());
    if project.is_none() {
        assert(name@ =~= seq!['U', 'n', 't', 'i', 't', 'l', 'e', 'd']);
    }
    assert(out@ =~= prefix + name@ + suffix@);
    string_from_chars(&out)
}

} // verus!
