use aracari::asset::{
    CurveMode, DrawOrder, GradientInterpolation, ParticleFlags, ParticleSystemDimension,
    QuadOrientation, ALIGN_Y_TO_VELOCITY_BIT, DISABLE_Z_BIT,
};
use aracari::editor_state::EditorState;
use aracari::emitters::{
    apply_inspector_actions, can_remove_pass, pass_label, InspectorActions,
    generate_unique_emitter_name, on_add_draw_pass, on_add_emitter, on_remove_draw_pass,
    on_remove_emitter,
};
use aracari::inspector_state::InspectorState;

#[test]
fn asset_defaults() {
    assert_eq!(ParticleSystemDimension::default(), ParticleSystemDimension::D3);
    assert_eq!(DrawOrder::default(), DrawOrder::Index);
    assert_eq!(QuadOrientation::default(), QuadOrientation::FaceZ);
    assert_eq!(CurveMode::default(), CurveMode::SingleCurve);
    assert_eq!(GradientInterpolation::default(), GradientInterpolation::Linear);
    assert!(DrawOrder::Index.is_default());
    assert!(!DrawOrder::ViewDepth.is_default());
    assert!(GradientInterpolation::Linear.is_default());
    assert!(!GradientInterpolation::Steps.is_default());
}

#[test]
fn draw_order_shader_codes() {
    assert_eq!(DrawOrder::Index.shader_code(), 0);
    assert_eq!(DrawOrder::Lifetime.shader_code(), 1);
    assert_eq!(DrawOrder::ReverseLifetime.shader_code(), 2);
    assert_eq!(DrawOrder::ViewDepth.shader_code(), 3);
}

#[test]
fn particle_flags_bits() {
    assert_eq!(ALIGN_Y_TO_VELOCITY_BIT, 1);
    assert_eq!(DISABLE_Z_BIT, 4);
    assert_eq!(ParticleFlags::all().bits(), 5);
    assert!(ParticleFlags::empty().is_empty());
    assert_eq!(ParticleFlags::from_bits_truncate(0xff).bits(), 5);
    assert_eq!(ParticleFlags::from_bits_retain(0xff).bits(), 0xff);
    let mut f = ParticleFlags::default();
    f.set(ParticleFlags::disable_z(), true);
    assert!(f.contains(ParticleFlags::disable_z()));
    assert!(!f.contains(ParticleFlags::align_y_to_velocity()));
    f.insert(ParticleFlags::align_y_to_velocity());
    assert_eq!(f.bits(), 5);
    f.set(ParticleFlags::disable_z(), false);
    assert_eq!(f.bits(), 1);
    f.remove(ParticleFlags::align_y_to_velocity());
    assert!(f.is_empty());
}

fn names(list: &[&str]) -> Vec<String> {
    list.iter().map(|s| s.to_string()).collect()
}

#[test]
fn unique_emitter_names() {
    assert_eq!(generate_unique_emitter_name(&names(&[])), "Emitter");
    assert_eq!(generate_unique_emitter_name(&names(&["Sparks"])), "Emitter");
    assert_eq!(generate_unique_emitter_name(&names(&["Emitter"])), "Emitter 2");
    assert_eq!(generate_unique_emitter_name(&names(&["Emitter", "Emitter 2", "Emitter 3"])), "Emitter 4");
    assert_eq!(generate_unique_emitter_name(&names(&["Emitter 3", "Emitter"])), "Emitter 2");
}

#[test]
fn unique_name_is_never_taken() {
    let mut list: Vec<String> = Vec::new();
    for _ in 0..12 {
        let n = generate_unique_emitter_name(&list);
        assert!(!list.contains(&n));
        list.push(n);
    }
    assert_eq!(list[11], "Emitter 12");
}

#[test]
fn adding_and_removing_emitters() {
    let mut emitters = vec!["a", "b", "c"];
    let mut inspector = InspectorState::default();
    let mut editor: EditorState<f64> = EditorState::default();
    inspector.toggle_emitter(2);
    inspector.editing_emitter_name = Some(1);
    on_add_emitter(&mut emitters, "d", &mut editor);
    assert_eq!(emitters, vec!["a", "b", "c", "d"]);
    assert!(editor.has_unsaved_changes && editor.should_reset && editor.is_playing);

    assert!(on_remove_emitter(&mut emitters, 1, &mut inspector, &mut editor));
    assert_eq!(emitters, vec!["a", "c", "d"]);
    assert_eq!(inspector.editing_emitter_name, None);
    assert!(!inspector.is_emitter_expanded(1));
    assert!(inspector.is_emitter_expanded(2));

    let mut fresh: EditorState<f64> = EditorState::default();
    assert!(!on_remove_emitter(&mut emitters, 7, &mut inspector, &mut fresh));
    assert_eq!(emitters.len(), 3);
    assert!(!fresh.has_unsaved_changes);
}

#[test]
fn draw_passes_keep_at_least_one() {
    let mut passes = vec![10];
    let mut editor: EditorState<f64> = EditorState::default();
    assert!(!on_remove_draw_pass(&mut passes, 0, &mut editor));
    assert!(!editor.has_unsaved_changes);
    on_add_draw_pass(&mut passes, 20, &mut editor);
    assert_eq!(passes, vec![10, 20]);
    assert!(on_remove_draw_pass(&mut passes, 0, &mut editor));
    assert_eq!(passes, vec![20]);
    assert!(!on_remove_draw_pass(&mut passes, 5, &mut editor));
}

#[test]
fn inspector_toggle_and_removal() {
    let mut s = InspectorState::default();
    assert!(s.is_emitter_expanded(0));
    s.toggle_emitter(0);
    assert!(!s.is_emitter_expanded(0));
    s.toggle_emitter(0);
    assert!(s.is_emitter_expanded(0));
    s.toggle_emitter(0);
    s.toggle_emitter(3);
    s.editing_emitter_name = Some(3);
    s.on_emitter_removed(0);
    assert!(!s.is_emitter_expanded(2));
    assert!(s.is_emitter_expanded(0));
    assert!(s.is_emitter_expanded(3));
    assert_eq!(s.editing_emitter_name, Some(3));
}

#[test]
fn inspector_actions_are_applied() {
    let mut inspector = InspectorState::default();
    let mut editor: EditorState<f64> = EditorState::default();
    let quiet = InspectorActions {
        any_changed: false,
        toggle_emitter: None,
        start_editing_emitter: None,
        add_emitter: false,
        remove_emitter: None,
        add_pass: None,
        remove_pass: None,
    };
    let r = apply_inspector_actions(&quiet, &mut inspector, &mut editor);
    assert!(!editor.has_unsaved_changes && !editor.should_reset);
    assert!(!r.add_emitter && r.confirm_remove_emitter.is_none());
    editor.toggle_looping();
    let busy = InspectorActions {
        any_changed: true,
        toggle_emitter: Some(2),
        start_editing_emitter: Some(1),
        add_emitter: true,
        remove_emitter: Some(0),
        add_pass: Some(1),
        remove_pass: Some((1, 0)),
    };
    let r = apply_inspector_actions(&busy, &mut inspector, &mut editor);
    assert!(r.add_emitter);
    assert_eq!(r.confirm_remove_emitter, Some(0));
    assert_eq!(r.add_draw_pass, Some(1));
    assert_eq!(r.confirm_remove_draw_pass, Some((1, 0)));
    assert!(!editor.is_looping && !editor.play_requested);
    assert!(editor.has_unsaved_changes && editor.should_reset && editor.is_playing);
    assert!(!inspector.is_emitter_expanded(2));
    assert_eq!(inspector.editing_emitter_name, Some(1));
    inspector.finish_editing_emitter_name(false, false);
    assert_eq!(inspector.editing_emitter_name, Some(1));
    inspector.finish_editing_emitter_name(false, true);
    assert_eq!(inspector.editing_emitter_name, None);
    inspector.start_editing_emitter_name(4);
    inspector.finish_editing_emitter_name(true, false);
    assert_eq!(inspector.editing_emitter_name, None);
    assert_eq!(pass_label(0), "Pass 1");
    assert_eq!(pass_label(11), "Pass 12");
    assert!(!can_remove_pass(1));
    assert!(can_remove_pass(2));
}
