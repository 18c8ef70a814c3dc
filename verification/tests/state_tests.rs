use std::sync::atomic::{AtomicBool, Ordering};
use std::sync::Arc;

use aracari::asset::ParticleSystemDimension;
use aracari::editor_state::{project_name, window_title, DirtyState, EditorState};
use aracari::new_project::{
    is_in_default_projects_dir, location_for_name, location_with_extension, to_file_name,
    NewProjectModal, DEFAULT_PROJECTS_DIR,
};

#[test]
fn editor_state_defaults() {
    let s: EditorState<f64> = EditorState::default();
    assert!(s.is_playing && s.is_looping);
    assert!(!s.should_reset && !s.play_requested && !s.has_unsaved_changes && !s.is_saving);
    assert!(s.save_completed_at.is_none() && s.save_complete_flag.is_none());
    assert!(!DirtyState::default().has_unsaved_changes);
}

#[test]
fn save_lifecycle() {
    let mut s: EditorState<f64> = EditorState::default();
    s.mark_unsaved();
    assert!(s.shows_unsaved_badge());
    let flag = Arc::new(AtomicBool::new(false));
    assert!(s.save_requested(true));
    assert!(s.start_saving(flag.clone()));
    assert!(!s.shows_unsaved_badge());
    assert!(!s.save_requested(true));
    assert!(!s.start_saving(Arc::new(AtomicBool::new(false))));
    assert!(!s.check_save_completed(1.0));
    assert!(s.is_saving && s.has_unsaved_changes);
    flag.store(true, Ordering::Relaxed);
    assert!(s.check_save_completed(2.5));
    assert!(!s.is_saving && !s.has_unsaved_changes);
    assert_eq!(s.save_completed_at, Some(2.5));
    assert!(s.save_complete_flag.is_none());
    assert!(!s.check_save_completed(3.0));
    assert_eq!(s.save_completed_at, Some(2.5));
}

#[test]
fn complete_save_needs_a_pending_save() {
    let mut s: EditorState<u32> = EditorState::default();
    assert!(!s.complete_save(true, 5));
    assert!(s.save_completed_at.is_none());
}

#[test]
fn playback_buttons() {
    let mut s: EditorState<f64> = EditorState::default();
    s.stop();
    assert!(!s.is_playing && s.should_reset);
    s.toggle_play();
    assert!(s.is_playing && s.play_requested && s.should_reset);
    s.toggle_play();
    assert!(!s.is_playing);
    s.toggle_looping();
    assert!(!s.is_looping);
    s.toggle_looping();
    assert!(s.is_looping);
    s.restart_after_edit();
    assert!(s.has_unsaved_changes && s.should_reset && s.is_playing);
}

#[test]
fn titles_and_names() {
    assert_eq!(project_name(Some("Fire")), "Fire");
    assert_eq!(project_name(None), "Untitled project");
    assert_eq!(window_title(Some("Fire"), false), "Fire - Aracari Editor");
    assert_eq!(window_title(Some("Fire"), true), "* Fire - Aracari Editor");
    assert_eq!(window_title(None, true), "* Untitled - Aracari Editor");
}

#[test]
fn file_names_from_project_names() {
    assert_eq!(to_file_name("My Cool Project!"), "my_cool_project");
    assert_eq!(to_file_name("__Fire__"), "fire");
    assert_eq!(to_file_name("Ünïcode 2"), "ünïcode_2");
    assert_eq!(to_file_name("!!!"), "");
    assert_eq!(location_for_name("Untitled project"), "projects/untitled_project");
    assert_eq!(location_with_extension("projects/fire"), "projects/fire.ron");
    assert!(is_in_default_projects_dir("projects/fire"));
    assert!(is_in_default_projects_dir("projects"));
    assert!(!is_in_default_projects_dir("other/projects"));
    assert_eq!(DEFAULT_PROJECTS_DIR, "projects");
}

#[test]
fn new_project_defaults() {
    let mut m = NewProjectModal::default();
    assert!(!m.open);
    assert_eq!(m.untitled_counter, 1);
    assert_eq!(m.default_name(), "Untitled project");
    assert_eq!(m.default_location(), "projects/untitled_project");
    assert_eq!(m.effective_project_name(), "Untitled project");
    m.project_name = "   ".to_string();
    assert_eq!(m.effective_project_name(), "Untitled project");
    m.untitled_counter = 3;
    assert_eq!(m.default_name(), "Untitled project 3");
    assert_eq!(m.effective_location(), "projects/untitled_project_3");
}

#[test]
fn location_follows_the_name_until_edited() {
    let mut m = NewProjectModal::default();
    m.project_name = "Smoke Trail".to_string();
    m.project_name_changed();
    assert_eq!(m.location, "projects/smoke_trail");
    m.location = "elsewhere/smoke".to_string();
    m.location_changed();
    m.project_name = "Other".to_string();
    m.project_name_changed();
    assert_eq!(m.location, "elsewhere/smoke");
    let e = m.create_event();
    assert_eq!(e.project_name, "Other");
    assert_eq!(e.location, "elsewhere/smoke");
    assert_eq!(e.dimension, ParticleSystemDimension::D3);
}

#[test]
fn focus_is_asked_once() {
    let mut m = NewProjectModal::default();
    assert!(m.take_focus_request());
    assert!(!m.take_focus_request());
    m.close();
    assert!(m.take_focus_request());
}

#[test]
fn creating_a_project_advances_the_counter() {
    let mut m = NewProjectModal::default();
    m.open = true;
    m.project_name = "A".to_string();
    m.project_created();
    assert_eq!(m.untitled_counter, 2);
    assert!(!m.open);
    assert_eq!(m.project_name, "");
    assert_eq!(m.default_name(), "Untitled project 2");
}
