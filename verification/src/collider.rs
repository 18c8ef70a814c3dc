//! Collider shapes as the inspector offers them and as the shader reads them.

use vstd::prelude::*;

use crate::gpu::{COLLIDER_TYPE_BOX, COLLIDER_TYPE_SPHERE};
use crate::text::{chars_equal, chars_of};

verus! {

/// The shape of a collider, without its dimensions.
#[derive(Clone, Copy, Debug, PartialEq, Eq, Structural)]
pub enum ColliderShapeKind {
    Box,
    Sphere,
}

/// "Box"
pub open spec fn box_label() -> Seq<char> {
    seq!['B', 'o', 'x']
}

/// "Sphere"
pub open spec fn sphere_label() -> Seq<char> {
    seq!['S', 'p', 'h', 'e', 'r', 'e']
}

pub open spec fn shape_index_spec(shape: ColliderShapeKind) -> usize {
    match shape {
        ColliderShapeKind::Box => 0,
        ColliderShapeKind::Sphere => 1,
    }
}

/// The position of the shape in the inspector's shape list: Box, Sphere.
pub fn shape_index(shape: ColliderShapeKind) -> (i: usize)
    ensures
        i == shape_index_spec(shape),
{
    match shape {
        ColliderShapeKind::Box => 0,
        ColliderShapeKind::Sphere => 1,
    }
}

/// The names of the shapes in the inspector's list, in order.
pub fn shape_variants() -> (names: Vec<String>)
    ensures
        names@.len() == 2,
        names@[shape_index_spec(ColliderShapeKind::Box) as int]@ == box_label(),
        names@[shape_index_spec(ColliderShapeKind::Sphere) as int]@ == sphere_label(),
{
    let b = "Box";
    let s = "Sphere";
    proof {
        reveal_strlit("Box");
        reveal_strlit("Sphere");
    }
    let mut names: Vec<String> = Vec::new();
    names.push(b.to_string());
    names.push(s.to_string());
    names
}

pub open spec fn shape_from_name_spec(name: Seq<char>) -> Option<ColliderShapeKind> {
    if name == sphere_label() {
        Some(ColliderShapeKind::Sphere)
    } else if name == box_label() {
        Some(ColliderShapeKind::Box)
    } else {
        None
    }
}

/// The shape a combo box entry names, if it names one.
pub fn shape_from_name(name: &str) -> (r: Option<ColliderShapeKind>)
    ensures
        r == shape_from_name_spec(name@),
{
    let v = chars_of(name);
    let s = "Sphere";
    let b = "Box";
    proof {
        reveal_strlit("Sphere");
        reveal_strlit("Box");
    }
    let sv = chars_of(s);
    let bv = chars_of(b);
    assert(sv@ =~= sphere_label());
    assert(bv@ =~= box_label());
    if chars_equal(&v, &sv) {
        Some(ColliderShapeKind::Sphere)
    } else if chars_equal(&v, &bv) {
        Some(ColliderShapeKind::Box)
    } else {
        None
    }
}

/// The shape a collider switches to when an entry of the shape combo box
/// is picked (by its value, or else by its label): none when the entry
/// names no shape or the shape the collider already has.
pub fn handle_collider_shape_variant_change(
    current: ColliderShapeKind,
    value: Option<&str>,
    label: &str,
) -> (r: Option<ColliderShapeKind>)
    ensures
        r == (match shape_from_name_spec(
            match value {
                Some(v) => v@,
                None => label@,
            },
        ) {
            Some(s) => if shape_index_spec(s) == shape_index_spec(current) {
                None
            } else {
                Some(s)
            },
            None => None,
        }),
{
    let name = match value {
        Some(v) => v,
        None => label,
    };
    match shape_from_name(name) {
        Some(s) => if shape_index(s) == shape_index(current) {
            None
        } else {
            Some(s)
        },
        None => None,
    }
}

pub open spec fn collider_type_code_spec(shape: ColliderShapeKind) -> u32 {
    match shape {
        ColliderShapeKind::Sphere => COLLIDER_TYPE_SPHERE,
        ColliderShapeKind::Box => COLLIDER_TYPE_BOX,
    }
}

/// The code of a collider's shape in the collider buffer.
pub fn collider_type_code(shape: ColliderShapeKind) -> (c: u32)
    ensures
        c == collider_type_code_spec(shape),
{
    match shape {
        ColliderShapeKind::Sphere => COLLIDER_TYPE_SPHERE,
        ColliderShapeKind::Box => COLLIDER_TYPE_BOX,
    }
}

/// Picking a shape by its own name gives that shape, and a switch never
/// keeps the collider's shape; the list position and the buffer code each
/// tell the shapes apart.
pub proof fn lemma_shape_names_roundtrip(shape: ColliderShapeKind, other: ColliderShapeKind)
    ensures
        shape_from_name_spec(
            match shape {
                ColliderShapeKind::Box => box_label(),
                ColliderShapeKind::Sphere => sphere_label(),
            },
        ) == Some(shape),
        shape_index_spec(shape) == shape_index_spec(other) ==> shape == other,
        collider_type_code_spec(shape) == collider_type_code_spec(other) ==> shape == other,
{
    assert(box_label() != sphere_label()) by {
        assert(box_label().len() != sphere_label().len());
    }
}

} // verus!
