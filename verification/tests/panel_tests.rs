use std::sync::atomic::{AtomicBool, Ordering};
use std::sync::Arc;

use aracari::button::ButtonVariant;
use aracari::combobox::{
    combobox, combobox_icon, combobox_with_selected, handle_option_click, option_variants,
    ComboBoxOptionData, ComboBoxState, ComboBoxStyle, ComboBoxTriggerAction,
};
use aracari::data_panel::{
    handle_item_right_click, is_active, item_button_variant, rebuild_lists, show_item_menu,
    spawn_items, ItemHover, LastLoadedProject,
};
use aracari::inspect::{Inspectable, Inspecting};
use aracari::project::{
    fallback_project_name, handle_save_keyboard_shortcut, load_initial_project,
    on_project_save_event, save_as_file_name, InitialProject, OpenFileDialogState, SaveAction,
};
use aracari::project_selector::{
    handle_popover_option_click, project_label, recent_project_name, ProjectSelectorState,
    TriggerAction,
};
use aracari::seed::{seed_after_toggle, seed_from_nanos};
use aracari::widgets::{CheckboxProps, CheckboxState, EnumButtonAction, EnumButtonProps, EnumButtonState};

#[test]
fn active_items() {
    let i = Some(Inspecting { kind: Inspectable::Emitter, index: 2 });
    assert!(is_active(i, Inspectable::Emitter, 2));
    assert!(!is_active(i, Inspectable::Collider, 2));
    assert!(!is_active(i, Inspectable::Emitter, 1));
    assert!(!is_active(None, Inspectable::Emitter, 0));
    assert_eq!(item_button_variant(true), ButtonVariant::Active);
    assert_eq!(item_button_variant(false), ButtonVariant::Plain);
    assert_eq!(ButtonVariant::default(), ButtonVariant::Default);
}

#[test]
fn item_lists() {
    let names = vec!["Sparks".to_string(), "Smoke".to_string()];
    let i = Some(Inspecting { kind: Inspectable::Emitter, index: 1 });
    let items = spawn_items(Inspectable::Emitter, &names, i);
    assert_eq!(items.len(), 2);
    assert_eq!(items[0].name, "Sparks");
    assert_eq!(items[0].index, 0);
    assert_eq!(items[0].variant, ButtonVariant::Plain);
    assert_eq!(items[1].variant, ButtonVariant::Active);
    assert!(spawn_items(Inspectable::Collider, &[], i).is_empty());
}

#[test]
fn lists_rebuild_on_project_change() {
    let mut last = LastLoadedProject::default();
    assert!(!rebuild_lists(&mut last, None, true));
    assert!(rebuild_lists(&mut last, Some(9), false));
    assert_eq!(last.handle, Some(9));
    assert!(!rebuild_lists(&mut last, Some(9), false));
    assert!(rebuild_lists(&mut last, Some(9), true));
    assert!(rebuild_lists(&mut last, Some(10), false));
    assert_eq!(last.handle, Some(10));
}

#[test]
fn item_menus_and_right_clicks() {
    assert!(show_item_menu(false, false, true));
    assert!(!show_item_menu(false, false, false));
    let items = [
        ItemHover { item_hovered: true, button_hovered: false, menu_trigger: Some(1) },
        ItemHover { item_hovered: true, button_hovered: true, menu_trigger: None },
        ItemHover { item_hovered: true, button_hovered: true, menu_trigger: Some(3) },
        ItemHover { item_hovered: true, button_hovered: true, menu_trigger: Some(4) },
    ];
    assert_eq!(handle_item_right_click(true, &items), Some(3));
    assert_eq!(handle_item_right_click(false, &items), None);
    assert_eq!(handle_item_right_click(true, &items[..2]), None);
}

#[test]
fn project_selector_toggles() {
    assert_eq!(project_label(None), "Untitled");
    assert_eq!(project_label(Some("Rain")), "Rain");
    let mut s = ProjectSelectorState::default();
    assert!(s.setup_project_selector());
    assert!(!s.setup_project_selector());
    assert_eq!(s.handle_trigger_click(true), TriggerAction::Ignore);
    assert_eq!(s.handle_trigger_click(false), TriggerAction::Open);
    s.popover_opened(77);
    assert_eq!(s.handle_trigger_click(true), TriggerAction::Close(77));
    assert_eq!(s.popover, None);
    s.popover_opened(78);
    s.handle_popover_closed(true);
    assert_eq!(s.popover, Some(78));
    s.handle_popover_closed(false);
    assert_eq!(s.popover, None);
}

#[test]
fn option_clicks_close_the_containing_popover() {
    assert_eq!(handle_popover_option_click(false, &[(1, false), (2, true), (3, true)]), Some(2));
    assert_eq!(handle_popover_option_click(true, &[(2, true)]), None);
    assert_eq!(handle_popover_option_click(false, &[(1, false)]), None);
}

#[test]
fn recent_project_names() {
    assert_eq!(recent_project_name(Some("Rain".to_string()), Some("rain".to_string()), "p/rain.ron"), "Rain");
    assert_eq!(recent_project_name(None, Some("rain".to_string()), "p/rain.ron"), "rain");
    assert_eq!(recent_project_name(None, None, "p/rain.ron"), "p/rain.ron");
}

fn options(labels: &[&str]) -> Vec<ComboBoxOptionData> {
    labels.iter().map(|l| ComboBoxOptionData::new(l.to_string())).collect()
}

#[test]
fn combobox_options_and_selection() {
    let c = combobox_with_selected(options(&["Index", "Lifetime", "ViewDepth"]), 1);
    assert_eq!(
        option_variants(&c),
        vec![ButtonVariant::Plain, ButtonVariant::Active, ButtonVariant::Plain]
    );
    let icon = combobox_icon(options(&["A", "B"]));
    assert_eq!(icon.style, ComboBoxStyle::IconOnly);
    assert_eq!(option_variants(&icon), vec![ButtonVariant::Plain, ButtonVariant::Plain]);
    let d = combobox(options(&["A"]));
    assert_eq!(d.selected, 0);
    assert_eq!(d.style, ComboBoxStyle::Default);
}

#[test]
fn combobox_popover_toggle() {
    let mut s = ComboBoxState::default();
    assert_eq!(s.handle_trigger_click(None, true, false), ComboBoxTriggerAction::Ignore);
    assert_eq!(s.handle_trigger_click(None, true, true), ComboBoxTriggerAction::Open);
    s.popover_opened(5);
    assert_eq!(s.handle_trigger_click(Some(5), true, false), ComboBoxTriggerAction::Close(5));
    assert_eq!(s.popover, None);
    s.popover_opened(6);
    assert!(!s.handle_combobox_popover_closed(true));
    assert!(s.handle_combobox_popover_closed(false));
    assert_eq!(s.popover, None);
}

#[test]
fn combobox_option_click() {
    let opts = vec![
        ComboBoxOptionData::new("Solid".to_string()),
        ComboBoxOptionData::new("Gradient".to_string()).with_icon("icons/g.png".to_string()),
    ];
    let mut c = combobox(opts);
    let r = handle_option_click(&mut c, 42, 1, "Gradient".to_string());
    assert_eq!(c.selected, 1);
    assert_eq!(r.event.entity, 42);
    assert_eq!(r.event.selected, 1);
    assert_eq!(r.event.label, "Gradient");
    assert!(r.update_label);
    assert_eq!(r.new_icon, Some("icons/g.png".to_string()));
    let r0 = handle_option_click(&mut c, 42, 0, "Solid".to_string());
    assert_eq!(r0.new_icon, None);
    let mut menu = combobox_icon(options(&["A", "B"]));
    let rm = handle_option_click(&mut menu, 1, 1, "B".to_string());
    assert!(!rm.update_label);
    assert_eq!(menu.selected, 1);
}

#[test]
fn checkboxes_and_enum_buttons() {
    let mut c = CheckboxState::default();
    assert!(c.handle_checkbox_click(true));
    assert!(c.handle_checkbox_click(false));
    assert!(!c.handle_checkbox_click(true));
    let p = CheckboxProps::new("Loop".to_string()).checked(true);
    assert_eq!(p.label, "Loop");
    assert!(p.checked);
    let e = EnumButtonProps::new("icon.png".to_string(), "Mode".to_string());
    assert_eq!((e.icon.as_str(), e.label.as_str()), ("icon.png", "Mode"));
    let mut s = EnumButtonState::default();
    assert_eq!(s.handle_enum_button_click(false), EnumButtonAction::Open);
    s.popover_opened(3);
    assert_eq!(s.handle_enum_button_click(true), EnumButtonAction::Close(3));
    assert_eq!(s.popover, None);
    s.popover_opened(4);
    assert_eq!(s.handle_enum_button_click(false), EnumButtonAction::Open);
    assert!(s.handle_popover_closed(false));
}

#[test]
fn save_requests() {
    assert_eq!(on_project_save_event(false, true), SaveAction::Nothing);
    assert_eq!(on_project_save_event(true, true), SaveAction::SaveToPath);
    assert_eq!(on_project_save_event(true, false), SaveAction::SaveAs);
    assert_eq!(save_as_file_name("Fire"), "Fire.ron");
    assert!(handle_save_keyboard_shortcut(false, false, true, false, true));
    assert!(handle_save_keyboard_shortcut(false, true, false, false, true));
    assert!(!handle_save_keyboard_shortcut(false, false, false, false, true));
    assert!(!handle_save_keyboard_shortcut(true, false, false, false, false));
}

#[test]
fn initial_project_choice() {
    let first = Some(Inspecting { kind: Inspectable::Emitter, index: 0 });
    assert_eq!(load_initial_project(Some(true), true, Some(true)), (InitialProject::LastOpened, first));
    assert_eq!(load_initial_project(Some(false), true, Some(true)), (InitialProject::LastOpened, None));
    assert_eq!(load_initial_project(None, true, Some(false)), (InitialProject::Demo, None));
    assert_eq!(load_initial_project(None, false, Some(true)), (InitialProject::Fallback, first));
    assert_eq!(load_initial_project(None, true, None), (InitialProject::Fallback, first));
    assert_eq!(fallback_project_name(), "New project");
}

#[test]
fn open_file_dialog_lifecycle() {
    let mut d = OpenFileDialogState::default();
    assert!(!d.poll_open_file_dialog());
    let flag = Arc::new(AtomicBool::new(false));
    assert!(d.on_open_file_dialog_event(flag.clone()));
    assert!(!d.on_open_file_dialog_event(Arc::new(AtomicBool::new(true))));
    assert!(!d.poll_open_file_dialog());
    assert!(d.is_open);
    flag.store(true, Ordering::Release);
    assert!(d.poll_open_file_dialog());
    assert!(!d.is_open && d.completed.is_none());
}

#[test]
fn seeds() {
    assert_eq!(seed_from_nanos(0x1_2345_6789), 0x2345_6789);
    assert_eq!(seed_from_nanos(7), 7);
    assert_eq!(seed_after_toggle(false, true, 0, 99), (99, true));
    assert_eq!(seed_after_toggle(false, true, 5, 99), (5, false));
    assert_eq!(seed_after_toggle(true, true, 0, 99), (0, false));
    assert_eq!(seed_after_toggle(false, false, 0, 99), (0, false));
}
