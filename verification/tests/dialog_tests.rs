use aracari::button::ButtonVariant;
use aracari::dialog::{
    handle_backdrop_click, handle_esc_key, DialogVariant, OpenConfirmationDialogEvent,
    OpenDialogEvent,
};

#[test]
fn dialog_defaults_and_builders() {
    let d = OpenDialogEvent::new("Rename".to_string(), "Save".to_string());
    assert_eq!(d.title.as_deref(), Some("Rename"));
    assert_eq!(d.action.as_deref(), Some("Save"));
    assert_eq!(d.cancel.as_deref(), Some("Cancel"));
    assert_eq!(d.variant, DialogVariant::Default);
    assert!(d.has_close_button && d.close_on_click_outside && d.close_on_esc);
    let d = d
        .with_description("Pick a name".to_string())
        .without_cancel()
        .with_close_on_esc(false)
        .with_title("Rename emitter".to_string());
    assert_eq!(d.description.as_deref(), Some("Pick a name"));
    assert_eq!(d.cancel, None);
    assert!(!d.close_on_esc);
    assert_eq!(d.title.as_deref(), Some("Rename emitter"));
    let d = d.with_cancel("Back".to_string()).with_action("Apply".to_string());
    assert_eq!(d.cancel.as_deref(), Some("Back"));
    assert_eq!(d.action.as_deref(), Some("Apply"));
}

#[test]
fn confirmation_dialogs() {
    let c = OpenConfirmationDialogEvent::new("Delete emitter".to_string(), "Delete".to_string())
        .with_description("This cannot be undone".to_string());
    let d = OpenDialogEvent::from_confirmation(&c);
    assert_eq!(d.title.as_deref(), Some("Delete emitter"));
    assert_eq!(d.action.as_deref(), Some("Delete"));
    assert_eq!(d.description.as_deref(), Some("This cannot be undone"));
    assert_eq!(d.variant, DialogVariant::Destructive);
    assert!(!d.has_close_button && !d.close_on_click_outside && d.close_on_esc);
    assert_eq!(d.variant.action_button_variant(), ButtonVariant::Destructive);
    assert_eq!(DialogVariant::default().action_button_variant(), ButtonVariant::Primary);
}

#[test]
fn dismissing_dialogs() {
    assert!(handle_backdrop_click(true, true, false));
    assert!(!handle_backdrop_click(true, false, false));
    assert!(!handle_backdrop_click(true, true, true));
    assert!(!handle_backdrop_click(false, true, false));
    assert!(handle_esc_key(true, true));
    assert!(!handle_esc_key(true, false));
}

#[test]
fn dialog_layouts() {
    let full = OpenDialogEvent::new("T".to_string(), "Go".to_string()).layout();
    assert!(full.has_header && full.has_footer && full.has_close_button);
    assert!(full.has_cancel_button && full.has_action_button);
    assert_eq!(full.action_variant, ButtonVariant::Primary);
    let mut bare = OpenDialogEvent::new("T".to_string(), "Go".to_string())
        .without_cancel()
        .with_close_button(false);
    bare.title = None;
    bare.action = None;
    let l = bare.layout();
    assert!(!l.has_header && !l.has_footer && !l.has_close_button);
    bare.description = Some("d".to_string());
    assert!(bare.layout().has_header);
}
