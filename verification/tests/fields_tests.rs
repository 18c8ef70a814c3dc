use aracari::fields::{
    apply_bool_to_field, apply_optional_u32_to_field, apply_u32_to_field, label_to_variant_name,
    optional_u32_to_display_string, parse_optional_u32, parse_u32, placeholder_text, shows_suffix,
    strip_suffix, u32_to_display_string, variant_position, Field, FieldKind, ReflectPath,
    TextEditVariant, VariantField, VectorSize, VectorSuffixes,
};

#[test]
fn vector_suffix_labels() {
    assert_eq!(VectorSuffixes::XYZ.get(0), "X");
    assert_eq!(VectorSuffixes::XYZ.get(2), "Z");
    assert_eq!(VectorSuffixes::WHD.get(1), "H");
    assert_eq!(VectorSuffixes::Range.get(0), "min");
    assert_eq!(VectorSuffixes::Range.get(1), "max");
    assert_eq!(VectorSuffixes::Range.get(2), "");
    assert_eq!(VectorSuffixes::XYZ.get(3), "");
    assert_eq!(VectorSize::Vec2.count(), 2);
    assert_eq!(VectorSize::Vec3.count(), 3);
}

#[test]
fn u32_field_display() {
    assert_eq!(u32_to_display_string(0, &FieldKind::U32OrEmpty), None);
    assert_eq!(u32_to_display_string(0, &FieldKind::U32), Some("0".to_string()));
    assert_eq!(u32_to_display_string(1234, &FieldKind::U32OrEmpty), Some("1234".to_string()));
}

#[test]
fn u32_field_parsing() {
    assert_eq!(parse_u32("  17 ", &FieldKind::U32), Some(17));
    assert_eq!(parse_u32("   ", &FieldKind::U32OrEmpty), Some(0));
    assert_eq!(parse_u32("", &FieldKind::U32), None);
    assert_eq!(parse_u32("abc", &FieldKind::U32), None);
    assert_eq!(parse_u32("-3", &FieldKind::U32), None);
}

#[test]
fn optional_u32_field_display_and_parsing() {
    assert_eq!(optional_u32_to_display_string(None, &FieldKind::OptionalU32), None);
    assert_eq!(optional_u32_to_display_string(Some(0), &FieldKind::OptionalU32), None);
    assert_eq!(optional_u32_to_display_string(Some(0), &FieldKind::U32), Some("0".to_string()));
    assert_eq!(optional_u32_to_display_string(Some(60), &FieldKind::OptionalU32), Some("60".to_string()));
    assert_eq!(parse_optional_u32(""), Some(None));
    assert_eq!(parse_optional_u32(" 0 "), Some(None));
    assert_eq!(parse_optional_u32("30"), Some(Some(30)));
    assert_eq!(parse_optional_u32("x"), None);
}

#[test]
fn u32_field_roundtrip_samples() {
    for v in [0u32, 1, 59, u32::MAX] {
        for kind in [FieldKind::U32, FieldKind::U32OrEmpty] {
            let text = u32_to_display_string(v, &kind).unwrap_or_default();
            assert_eq!(parse_u32(&text, &kind), Some(v));
        }
        let shown = optional_u32_to_display_string(Some(v), &FieldKind::OptionalU32).unwrap_or_default();
        let expected = if v == 0 { None } else { Some(v) };
        assert_eq!(parse_optional_u32(&shown), Some(expected));
    }
}

#[test]
fn applying_values_reports_changes() {
    let mut f = 3u32;
    assert!(!apply_u32_to_field(&mut f, 3));
    assert!(apply_u32_to_field(&mut f, 4));
    assert_eq!(f, 4);
    let mut o: Option<u32> = None;
    assert!(apply_optional_u32_to_field(&mut o, Some(2)));
    assert!(!apply_optional_u32_to_field(&mut o, Some(2)));
    assert!(apply_optional_u32_to_field(&mut o, None));
    assert_eq!(o, None);
    let mut b = false;
    assert!(apply_bool_to_field(&mut b, true));
    assert!(!apply_bool_to_field(&mut b, true));
    assert!(b);
}

#[test]
fn variant_names_from_labels() {
    assert_eq!(label_to_variant_name("Sphere Surface"), "SphereSurface");
    assert_eq!(label_to_variant_name("Sphere surface"), "Spheresurface");
    assert_eq!(label_to_variant_name(" Box "), "Box");
    let names = vec!["Point".to_string(), "Sphere".to_string(), "Sphere".to_string()];
    assert_eq!(variant_position(&names, "Sphere"), Some(1));
    assert_eq!(variant_position(&names, "Point"), Some(0));
    assert_eq!(variant_position(&names, "Ring"), None);
}

#[test]
fn reflect_paths_start_with_a_dot() {
    let p = ReflectPath::new("time.lifetime");
    assert_eq!(p.as_str(), ".time.lifetime");
}

#[test]
fn suffixes_of_numeric_inputs() {
    assert_eq!(strip_suffix("1.5 s", Some("s")), "1.5");
    assert_eq!(strip_suffix("1.5s", Some("s")), "1.5s");
    assert_eq!(strip_suffix("40 %", None), "40 %");
    assert_eq!(placeholder_text("0.0", Some(" s")), "0.0 s");
    assert_eq!(placeholder_text("Name", None), "Name");
    assert!(shows_suffix(false, false));
    assert!(!shows_suffix(true, false));
    assert!(!shows_suffix(false, true));
    assert_eq!(TextEditVariant::default(), TextEditVariant::Default);
}

#[test]
fn field_builders() {
    let f = VariantField::u32("amount".to_string());
    assert_eq!(f.name, "amount");
    assert!(matches!(f.kind, FieldKind::U32));
    let g = VariantField::vector("size".to_string(), VectorSuffixes::WHD);
    assert!(matches!(g.kind, FieldKind::Vector(VectorSuffixes::WHD)));
    let h = Field::new("time.delay".to_string()).with_kind(FieldKind::Bool);
    assert_eq!(h.path, "time.delay");
    assert!(matches!(h.kind, FieldKind::Bool));
    assert!(matches!(FieldKind::default(), FieldKind::F32));
}
