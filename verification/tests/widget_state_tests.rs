use aracari::binding::{bind_values_needed, combobox_variant_name};
use aracari::button::{menu_button_variant, ButtonVariant};
use aracari::fields::{get_nested_variant_index, VariantField};
use aracari::inspect::{update_panel_title, Inspectable, Inspecting};
use aracari::text_edit::{
    handle_click_to_focus, handle_cursor, handle_unfocus, CursorWrapper, InputCursor, InputWrapper,
};
use aracari::variant_edit::{
    variant_edit, VariantDefinition, VariantEditAction, VariantEditProps, VariantEditState,
};

fn shape_props() -> VariantEditProps {
    VariantEditProps::new("emission.shape".to_string()).with_variants(vec![
        VariantDefinition::new("Point".to_string()),
        VariantDefinition::new("Sphere".to_string())
            .with_icon("icons/sphere.png".to_string())
            .with_fields(vec![VariantField::float("radius".to_string())]),
    ])
}

#[test]
fn variant_edit_titles() {
    let c = variant_edit(shape_props());
    assert_eq!(c.popover_title_text(), "Shape");
    let c = variant_edit(shape_props().with_label("Emission shape".to_string()));
    assert_eq!(c.popover_title_text(), "Emission shape");
    let c = variant_edit(
        shape_props().with_label("x".to_string()).with_popover_title("Pick a shape".to_string()),
    );
    assert_eq!(c.popover_title_text(), "Pick a shape");
}

#[test]
fn variant_edit_options_and_selection() {
    let mut c = variant_edit(shape_props().with_selected(1));
    let opts = c.variant_options();
    assert_eq!(opts.len(), 2);
    assert_eq!(opts[0].label, "Point");
    assert_eq!(opts[0].icon, None);
    assert_eq!(opts[1].icon, Some("icons/sphere.png".to_string()));
    assert!(c.selected_has_fields());
    assert!(c.handle_variant_combobox_change(0));
    assert!(!c.selected_has_fields());
    assert!(!c.handle_variant_combobox_change(0));
    assert_eq!(c.selected_index, 0);
    let mut far = variant_edit(shape_props().with_selected(7));
    assert!(!far.selected_has_fields());
    assert!(far.handle_variant_combobox_change(1));
}

#[test]
fn variant_edit_popover_and_sync() {
    let mut s = VariantEditState::default();
    assert!(s.needs_sync(0, 2));
    assert!(!s.needs_sync(5, 2));
    s.synced(0, false);
    assert!(s.needs_sync(0, 2));
    s.synced(0, true);
    assert!(!s.needs_sync(0, 2));
    assert!(s.needs_sync(1, 2));
    assert_eq!(s.handle_variant_edit_click(false, true, false), VariantEditAction::Ignore);
    assert_eq!(s.handle_variant_edit_click(false, false, false), VariantEditAction::Open);
    s.popover_opened(9);
    assert_eq!(s.handle_variant_edit_click(true, true, false), VariantEditAction::Close(9));
    s.popover_opened(10);
    assert_eq!(s.handle_variant_edit_click(false, true, true), VariantEditAction::Open);
    assert!(s.handle_popover_closed(false));
    assert_eq!(s.popover, None);
}

#[test]
fn nested_variant_indices() {
    let names = vec!["Rigid".to_string(), "HideOnContact".to_string()];
    assert_eq!(get_nested_variant_index(&names, Some("HideOnContact"), None), 1);
    assert_eq!(get_nested_variant_index(&names, Some("Some"), Some("HideOnContact")), 1);
    assert_eq!(get_nested_variant_index(&names, Some("Some"), Some("Other")), 0);
    assert_eq!(get_nested_variant_index(&names, Some("None"), None), 0);
    assert_eq!(get_nested_variant_index(&names, None, None), 0);
}

#[test]
fn binding_decisions() {
    assert!(bind_values_needed(true, false, false, false));
    assert!(bind_values_needed(false, false, false, true));
    assert!(!bind_values_needed(false, false, false, false));
    assert_eq!(combobox_variant_name(Some("Sphere"), "Ignored"), "Sphere");
    assert_eq!(combobox_variant_name(None, "Sphere Surface"), "SphereSurface");
}

#[test]
fn menu_variants() {
    assert_eq!(menu_button_variant(true, true), ButtonVariant::Disabled);
    assert_eq!(menu_button_variant(true, false), ButtonVariant::Active);
    assert_eq!(menu_button_variant(false, false), ButtonVariant::Plain);
}

#[test]
fn panel_titles() {
    let names = vec!["Sparks".to_string()];
    let (t, i) = update_panel_title(Inspecting { kind: Inspectable::Emitter, index: 0 }, &names);
    assert_eq!((t.as_str(), i.as_str()), ("Sparks", "icons/ri-showers-fill.png"));
    let (t, _) = update_panel_title(Inspecting { kind: Inspectable::Emitter, index: 3 }, &names);
    assert_eq!(t, "");
    let (t, i) = update_panel_title(Inspecting { kind: Inspectable::Collider, index: 0 }, &names);
    assert_eq!((t.as_str(), i.as_str()), ("Collider", "icons/ri-box-2-fill.png"));
}

#[test]
fn text_input_focus() {
    let mut focus = Some(1);
    let wrappers = [
        InputWrapper { input: 10, pressed: true, dragging: false },
        InputWrapper { input: 20, pressed: true, dragging: true },
        InputWrapper { input: 30, pressed: false, dragging: false },
    ];
    handle_click_to_focus(&mut focus, false, &wrappers);
    assert_eq!(focus, Some(1));
    handle_click_to_focus(&mut focus, true, &wrappers);
    assert_eq!(focus, Some(10));
    handle_click_to_focus(&mut focus, true, &wrappers[1..]);
    assert_eq!(focus, Some(10));
    handle_unfocus(&mut focus, true, false, false);
    assert_eq!(focus, Some(10));
    handle_unfocus(&mut focus, true, true, false);
    assert_eq!(focus, None);
    let mut f2 = Some(4);
    handle_unfocus(&mut f2, false, false, true);
    assert_eq!(f2, None);
}

#[test]
fn input_cursors() {
    let plain = CursorWrapper { hovered: false, hitbox: None };
    let text = CursorWrapper { hovered: true, hitbox: Some((false, false)) };
    let drag = CursorWrapper { hovered: false, hitbox: Some((true, false)) };
    assert_eq!(handle_cursor(&[]), None);
    assert_eq!(handle_cursor(&[plain]), None);
    assert_eq!(handle_cursor(&[plain, text, drag]), Some(InputCursor::Text));
    assert_eq!(handle_cursor(&[drag, text]), Some(InputCursor::ColResize));
}
