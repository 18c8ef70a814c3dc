use aracari::curve_edit::{can_delete_point, delete_curve_point, CurveEditState, PopoverToggleAction};

#[test]
fn curve_labels() {
    let mut s = CurveEditState::from_curve(vec![0.0f32, 1.0], Some("Quad in".to_string()));
    assert_eq!(s.label(), "Quad in");
    s.mark_custom();
    assert_eq!(s.label(), "Custom curve");
    s.set_curve(vec![1.0, 1.0], Some("Constant".to_string()));
    assert_eq!(s.label(), "Constant");
    assert_eq!(s.curve, vec![1.0, 1.0]);
    assert_eq!(s.popover, None);
}

#[test]
fn curves_keep_two_points() {
    assert!(!can_delete_point(2));
    assert!(can_delete_point(3));
    let mut points = vec![10, 20, 30];
    assert!(!delete_curve_point(&mut points, 1, true));
    assert_eq!(points, vec![10, 20, 30]);
    assert!(delete_curve_point(&mut points, 1, false));
    assert_eq!(points, vec![10, 30]);
    assert!(!delete_curve_point(&mut points, 0, false));
    assert_eq!(points, vec![10, 30]);
}

#[test]
fn curve_editor_popover_toggle() {
    let mut s = CurveEditState::from_curve(1u8, None);
    assert_eq!(s.handle_trigger_click(None, true, false), PopoverToggleAction::Ignore);
    assert_eq!(s.handle_trigger_click(None, true, true), PopoverToggleAction::Open);
    assert_eq!(s.handle_trigger_click(None, false, false), PopoverToggleAction::Open);
    s.popover_opened(8);
    assert_eq!(s.handle_trigger_click(Some(8), true, false), PopoverToggleAction::Close(8));
    assert_eq!(s.popover, None);
    s.popover_opened(9);
    assert!(!s.handle_popover_closed(true));
    assert!(s.handle_popover_closed(false));
    assert_eq!(s.popover, None);
    assert_eq!(s.curve, 1);
}
