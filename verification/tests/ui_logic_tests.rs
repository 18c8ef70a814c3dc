use std::collections::{HashMap, HashSet};

use aracari::hierarchy::{
    find_ancestor, find_ancestor_entity, find_field_entity_for_entity, find_field_for_entity,
    is_descendant_of, vector_component_index, MAX_ANCESTOR_DEPTH,
};
use aracari::inspect::{
    get_inspecting_emitter, get_inspecting_emitter_mut, inspected_emitter_index,
    section_needs_setup, should_rebind, update_inspected_emitter_tracker,
    InspectedEmitterTracker, Inspectable, Inspecting,
};
use aracari::popover::{should_dismiss, PopoverPlacement};

fn chain(n: u64) -> HashMap<u64, u64> {
    // entity k has parent k + 1
    (0..n).map(|k| (k, k + 1)).collect()
}

#[test]
fn ancestors_within_the_depth() {
    let parents = chain(30);
    let marked: HashSet<u64> = [5u64, 20].into_iter().collect();
    assert_eq!(find_ancestor(0, &parents, 10, &marked), Some(5));
    assert_eq!(find_ancestor(0, &parents, 5, &marked), None);
    assert_eq!(find_ancestor(6, &parents, 10, &marked), None);
    assert_eq!(find_ancestor(6, &parents, 15, &marked), Some(20));
    assert_eq!(find_ancestor(5, &parents, 1, &marked), Some(5));
    assert_eq!(find_ancestor(40, &parents, 10, &marked), None);
    assert_eq!(MAX_ANCESTOR_DEPTH, 10);
}

#[test]
fn ancestor_entity_tests() {
    let parents = chain(30);
    assert!(find_ancestor_entity(0, 9, &parents));
    assert!(!find_ancestor_entity(0, 10, &parents));
    assert!(find_ancestor_entity(3, 3, &parents));
    assert!(is_descendant_of(0, 49, &parents) == false);
    assert!(is_descendant_of(0, 30, &parents));
    assert!(!is_descendant_of(5, 4, &parents));
}

#[test]
fn fields_found_from_nested_widgets() {
    let parents = chain(30);
    let mut fields: HashMap<u64, &str> = HashMap::new();
    fields.insert(10, "time.lifetime");
    assert_eq!(find_field_entity_for_entity(10, &fields, &parents), Some(10));
    assert_eq!(find_field_entity_for_entity(0, &fields, &parents), Some(10));
    assert_eq!(find_field_for_entity(0, &fields, &parents), Some(&"time.lifetime"));
    assert_eq!(find_field_entity_for_entity(11, &fields, &parents), None);
    let far: HashMap<u64, &str> = [(11u64, "x")].into_iter().collect();
    assert_eq!(find_field_entity_for_entity(0, &far, &parents), None);
}

#[test]
fn vector_components_from_children() {
    // inputs 100, 200, 300 are the x, y and z slots; 101 lies inside 200
    let parents: HashMap<u64, u64> = [(101u64, 200u64), (102, 101)].into_iter().collect();
    let children = [100u64, 200, 300, 400];
    assert_eq!(vector_component_index(102, &children, &parents), Some(1));
    assert_eq!(vector_component_index(300, &children, &parents), Some(2));
    assert_eq!(vector_component_index(400, &children, &parents), None);
    assert_eq!(vector_component_index(100, &children[..1], &parents), Some(0));
}

#[test]
fn inspected_emitter_resolution() {
    let emitters = ["a", "b"];
    let e1 = Some(Inspecting { kind: Inspectable::Emitter, index: 1 });
    let c0 = Some(Inspecting { kind: Inspectable::Collider, index: 0 });
    assert_eq!(inspected_emitter_index(e1), Some(1));
    assert_eq!(inspected_emitter_index(c0), None);
    assert_eq!(get_inspecting_emitter(e1, Some(&emitters[..])), Some((1, &"b")));
    assert_eq!(get_inspecting_emitter(c0, Some(&emitters[..])), None);
    assert_eq!(get_inspecting_emitter(e1, None::<&[&str]>), None);
    let e5 = Some(Inspecting { kind: Inspectable::Emitter, index: 5 });
    assert_eq!(get_inspecting_emitter(e5, Some(&emitters[..])), None);
    let mut v = vec![1, 2, 3];
    if let Some((i, e)) = get_inspecting_emitter_mut(e1, &mut v) {
        assert_eq!(i, 1);
        *e = 20;
    }
    assert_eq!(v, vec![1, 20, 3]);
    assert!(get_inspecting_emitter_mut(e5, &mut v).is_none());
}

#[test]
fn tracker_follows_inspection() {
    let mut t = InspectedEmitterTracker::default();
    assert_eq!(t.current_index, None);
    update_inspected_emitter_tracker(&mut t, Some(Inspecting { kind: Inspectable::Emitter, index: 4 }));
    assert_eq!(t.current_index, Some(4));
    update_inspected_emitter_tracker(&mut t, Some(Inspecting { kind: Inspectable::Collider, index: 4 }));
    assert_eq!(t.current_index, None);
}

#[test]
fn rebinding_happens_once_per_item() {
    let mut last = None;
    assert!(should_rebind(&mut last, Some(0), false));
    assert!(!should_rebind(&mut last, Some(0), false));
    assert!(should_rebind(&mut last, Some(0), true));
    assert!(should_rebind(&mut last, Some(1), false));
    assert!(!should_rebind(&mut last, None, true));
    assert_eq!(last, None);
    assert!(should_rebind(&mut last, Some(1), false));
}

#[test]
fn sections_set_up_once() {
    assert_eq!(section_needs_setup(&[(7, true)], 0), Some(7));
    assert_eq!(section_needs_setup(&[(7, false)], 0), None);
    assert_eq!(section_needs_setup(&[(7, true)], 2), None);
    assert_eq!(section_needs_setup(&[(7, true), (8, true)], 0), None);
    assert_eq!(section_needs_setup(&[], 0), None);
}

#[test]
fn popover_placements_flip() {
    assert_eq!(PopoverPlacement::default(), PopoverPlacement::BottomStart);
    assert_eq!(PopoverPlacement::TopStart.flip(), PopoverPlacement::BottomStart);
    assert_eq!(PopoverPlacement::Right.flip(), PopoverPlacement::Left);
    assert_eq!(PopoverPlacement::LeftEnd.flip(), PopoverPlacement::RightEnd);
    let all = [
        PopoverPlacement::TopStart, PopoverPlacement::Top, PopoverPlacement::TopEnd,
        PopoverPlacement::RightStart, PopoverPlacement::Right, PopoverPlacement::RightEnd,
        PopoverPlacement::BottomStart, PopoverPlacement::Bottom, PopoverPlacement::BottomEnd,
        PopoverPlacement::LeftStart, PopoverPlacement::Left, PopoverPlacement::LeftEnd,
    ];
    for p in all {
        assert_eq!(p.flip().flip(), p);
        assert_ne!(p.flip(), p);
    }
}

#[test]
fn popovers_dismiss_on_escape_or_outside_click() {
    assert!(should_dismiss(true, false, true));
    assert!(should_dismiss(false, true, false));
    assert!(!should_dismiss(false, true, true));
    assert!(!should_dismiss(false, false, false));
}

#[test]
fn inputs_inside_variant_editors() {
    let parents = chain(40);
    let edits: HashSet<u64> = [19u64].into_iter().collect();
    assert!(aracari::hierarchy::is_descendant_of_variant_edit(0, &edits, &parents));
    let far: HashSet<u64> = [20u64].into_iter().collect();
    assert!(!aracari::hierarchy::is_descendant_of_variant_edit(0, &far, &parents));
}
