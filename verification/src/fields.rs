//! Inspector fields: their kinds, and the text shown in and read back from
//! the text inputs bound to them.

use vstd::prelude::*;

use crate::text::{
    all_digits, chars_equal, chars_of, decimal_chars, decimal_spec, extend_chars, is_blank, is_blank_chars,
    is_whitespace, is_whitespace_char, lemma_blank_means_trims_empty, lemma_decimal_value,
    lemma_parse_u32_of_decimal, parse_u32_chars, parse_u32_spec, string_from_chars, trim_chars,
    trim_spec,
};

verus! {

/// Component labels of a vector input.
#[derive(Clone, Copy, PartialEq, Eq, Debug)]
pub enum VectorSuffixes {
    XYZ,
    WHD,
    Range,
}

impl Default for VectorSuffixes {
    fn default() -> (s: Self)
        ensures
            s == VectorSuffixes::XYZ,
    {
        VectorSuffixes::XYZ
    }
}

/// Number of components of a vector input.
#[derive(Clone, Copy, PartialEq, Eq, Debug)]
pub enum VectorSize {
    Vec2,
    Vec3,
}

impl Default for VectorSize {
    fn default() -> (s: Self)
        ensures
            s == VectorSize::Vec3,
    {
        VectorSize::Vec3
    }
}

impl VectorSize {
    /// How many components the input has.
    pub fn count(&self) -> (n: usize)
        ensures
            n == match *self {
                VectorSize::Vec2 => 2usize,
                VectorSize::Vec3 => 3usize,
            },
    {
        match self {
            VectorSize::Vec2 => 2,
            VectorSize::Vec3 => 3,
        }
    }
}

/// The label of component `index`: X/Y/Z, W/H/D or min/max, and empty past
/// the last component.
pub open spec fn suffix_label_spec(s: VectorSuffixes, index: usize) -> Seq<char> {
    match s {
        VectorSuffixes::XYZ => if index == 0 {
            seq!['X']
        } else if index == 1 {
            seq!['Y']
        } else if index == 2 {
            seq!['Z']
        } else {
            Seq::empty()
        },
        VectorSuffixes::WHD => if index == 0 {
            seq!['W']
        } else if index == 1 {
            seq!['H']
        } else if index == 2 {
            seq!['D']
        } else {
            Seq::empty()
        },
        VectorSuffixes::Range => if index == 0 {
            seq!['m', 'i', 'n']
        } else if index == 1 {
            seq!['m', 'a', 'x']
        } else {
            Seq::empty()
        },
    }
}

impl VectorSuffixes {
    /// The label of component `index`.
    pub fn get(&self, index: usize) -> (label: String)
        ensures
            label@ == suffix_label_spec(*self, index),
    {
        let mut v: Vec<char> = Vec::new();
        match self {
            VectorSuffixes::XYZ => {
                if index == 0 {
                    v.push('X');
                } else if index == 1 {
                    v.push('Y');
                } else if index == 2 {
                    v.push('Z');
                }
            },
            VectorSuffixes::WHD => {
                if index == 0 {
                    v.push('W');
                } else if index == 1 {
                    v.push('H');
                } else if index == 2 {
                    v.push('D');
                }
            },
            VectorSuffixes::Range => {
                if index == 0 {
                    v.push('m');
                    v.push('i');
                    v.push('n');
                } else if index == 1 {
                    v.push('m');
                    v.push('a');
                    v.push('x');
                }
            },
        }
        assert(v@ =~= suffix_label_spec(*self, index));
        string_from_chars(&v)
    }
}

/// What an inspector field edits, which decides how it is shown and read.
#[derive(Clone, Debug)]
pub enum FieldKind {
    F32,
    F32Percent,
    U32,
    /// a `u32` shown as an empty input when it is zero
    U32OrEmpty,
    /// an `Option<u32>` where zero means none
    OptionalU32,
    Bool,
    Vector(VectorSuffixes),
    ComboBox { options: Vec<String> },
    Color,
    Gradient,
    Curve,
    AnimatedVelocity,
    TextureRef,
}

impl Default for FieldKind {
    fn default() -> (k: Self)
        ensures
            k is F32,
    {
        FieldKind::F32
    }
}

/// A field of a variant (an enum case) shown by the inspector.
#[derive(Clone, Debug)]
pub struct VariantField {
    pub name: String,
    pub kind: FieldKind,
}

impl VariantField {
    /// A field of the default kind.
    pub fn new(name: String) -> (f: Self)
        ensures
            f.name@ == name@,
            f.kind is F32,
    {
        VariantField { name, kind: FieldKind::F32 }
    }

    /// A floating-point field.
    pub fn float(name: String) -> (f: Self)
        ensures
            f.name@ == name@,
            f.kind is F32,
    {
        Self::new(name).with_kind(FieldKind::F32)
    }

    /// An unsigned integer field.
    pub fn u32(name: String) -> (f: Self)
        ensures
            f.name@ == name@,
            f.kind is U32,
    {
        Self::new(name).with_kind(FieldKind::U32)
    }

    /// A checkbox field.
    pub fn bool(name: String) -> (f: Self)
        ensures
            f.name@ == name@,
            f.kind is Bool,
    {
        Self::new(name).with_kind(FieldKind::Bool)
    }

    /// A vector field with the given component labels.
    pub fn vector(name: String, suffixes: VectorSuffixes) -> (f: Self)
        ensures
            f.name@ == name@,
            f.kind == FieldKind::Vector(suffixes),
    {
        Self::new(name).with_kind(FieldKind::Vector(suffixes))
    }

    /// A choice among the given options.
    pub fn combobox(name: String, options: Vec<String>) -> (f: Self)
        ensures
            f.name@ == name@,
            f.kind == (FieldKind::ComboBox { options }),
    {
        Self::new(name).with_kind(FieldKind::ComboBox { options })
    }

    /// A color field.
    pub fn color(name: String) -> (f: Self)
        ensures
            f.name@ == name@,
            f.kind is Color,
    {
        Self::new(name).with_kind(FieldKind::Color)
    }

    /// A gradient field.
    pub fn gradient(name: String) -> (f: Self)
        ensures
            f.name@ == name@,
            f.kind is Gradient,
    {
        Self::new(name).with_kind(FieldKind::Gradient)
    }

    /// An animated velocity field.
    pub fn animated_velocity(name: String) -> (f: Self)
        ensures
            f.name@ == name@,
            f.kind is AnimatedVelocity,
    {
        Self::new(name).with_kind(FieldKind::AnimatedVelocity)
    }

    /// A texture reference field.
    pub fn texture_ref(name: String) -> (f: Self)
        ensures
            f.name@ == name@,
            f.kind is TextureRef,
    {
        Self::new(name).with_kind(FieldKind::TextureRef)
    }

    /// The same field with another kind.
    pub fn with_kind(self, kind: FieldKind) -> (f: Self)
        ensures
            f.name == self.name,
            f.kind == kind,
    {
        VariantField { name: self.name, kind }
    }
}

/// An inspector field bound to the emitter property at `path`.
#[derive(Clone, Debug)]
pub struct Field {
    pub path: String,
    pub kind: FieldKind,
}

impl Field {
    /// A field of the default kind for the property at `path`.
    pub fn new(path: String) -> (f: Self)
        ensures
            f.path@ == path@,
            f.kind is F32,
    {
        Field { path, kind: FieldKind::F32 }
    }

    /// The same field with another kind.
    pub fn with_kind(self, kind: FieldKind) -> (f: Self)
        ensures
            f.path == self.path,
            f.kind == kind,
    {
        Field { path: self.path, kind }
    }
}

/// The text shown for a `u32` value: nothing for zero in a
/// [`FieldKind::U32OrEmpty`] field, otherwise its decimal numeral.
pub open spec fn u32_display_spec(value: u32, kind: FieldKind) -> Option<Seq<char>> {
    if kind is U32OrEmpty && value == 0 {
        None
    } else {
        Some(decimal_spec(value as nat))
    }
}

/// The `u32` read from a text input: the trimmed text as a decimal number,
/// and zero for a blank [`FieldKind::U32OrEmpty`] input.
pub open spec fn u32_parse_spec(text: Seq<char>, kind: FieldKind) -> Option<u32> {
    let t = trim_spec(text);
    if t.len() == 0 && kind is U32OrEmpty {
        Some(0)
    } else {
        parse_u32_spec(t)
    }
}

/// The text shown for an optional `u32`: nothing for none, nothing for zero
/// in a [`FieldKind::OptionalU32`] field, otherwise the numeral.
pub open spec fn optional_u32_display_spec(value: Option<u32>, kind: FieldKind) -> Option<
    Seq<char>,
> {
    match value {
        None => None,
        Some(v) => if v == 0 && kind is OptionalU32 {
            None
        } else {
            Some(decimal_spec(v as nat))
        },
    }
}

/// The optional `u32` read from a text input: none for a blank input, and a
/// number, where zero means none, otherwise.
pub open spec fn optional_u32_parse_spec(text: Seq<char>) -> Option<Option<u32>> {
    let t = trim_spec(text);
    if t.len() == 0 {
        Some(None)
    } else {
        match parse_u32_spec(t) {
            Some(v) => Some(
                if v == 0 {
                    None
                } else {
                    Some(v)
                },
            ),
            None => None,
        }
    }
}

fn numeral(value: u32) -> (s: String)
    ensures
        s@ == decimal_spec(value as nat),
{
    let v = decimal_chars(value as u128);
    string_from_chars(&v)
}

/// The text to show for a `u32` field, if any.
pub fn u32_to_display_string(value: u32, kind: &FieldKind) -> (r: Option<String>)
    ensures
        match r {
            Some(s) => u32_display_spec(value, *kind) == Some(s@),
            None => u32_display_spec(value, *kind) is None,
        },
{
    if matches!(kind, FieldKind::U32OrEmpty) && value == 0 {
        None
    } else {
        Some(numeral(value))
    }
}

/// Reads a `u32` field's text input.
pub fn parse_u32(text: &str, kind: &FieldKind) -> (r: Option<u32>)
    ensures
        r == u32_parse_spec(text@, *kind),
{
    let cs = chars_of(text);
    let t = trim_chars(&cs);
    if t.len() == 0 && matches!(kind, FieldKind::U32OrEmpty) {
        Some(0)
    } else {
        parse_u32_chars(&t)
    }
}

/// The text to show for an optional `u32` field, if any.
pub fn optional_u32_to_display_string(value: Option<u32>, kind: &FieldKind) -> (r: Option<String>)
    ensures
        match r {
            Some(s) => optional_u32_display_spec(value, *kind) == Some(s@),
            None => optional_u32_display_spec(value, *kind) is None,
        },
{
    match value {
        None => None,
        Some(v) => {
            if v == 0 && matches!(kind, FieldKind::OptionalU32) {
                None
            } else {
                Some(numeral(v))
            }
        },
    }
}

/// Reads an optional `u32` field's text input.
pub fn parse_optional_u32(text: &str) -> (r: Option<Option<u32>>)
    ensures
        r == optional_u32_parse_spec(text@),
{
    let cs = chars_of(text);
    let t = trim_chars(&cs);
    if t.len() == 0 {
        Some(None)
    } else {
        match parse_u32_chars(&t) {
            Some(v) => Some(
                if v == 0 {
                    None
                } else {
                    Some(v)
                },
            ),
            None => None,
        }
    }
}

/// Writes an edited `u32` into the field it is bound to; returns whether
/// the field changed.
pub fn apply_u32_to_field(field: &mut u32, value: u32) -> (changed: bool)
    ensures
        *final(field) == value,
        changed == (*old(field) != value),
{
    if *field != value {
        *field = value;
        return true;
    }
    false
}

/// Writes an edited optional `u32` into the field it is bound to; returns
/// whether the field changed.
pub fn apply_optional_u32_to_field(field: &mut Option<u32>, value: Option<u32>) -> (changed: bool)
    ensures
        *final(field) == value,
        changed == (*old(field) != value),
{
    let same = match (*field, value) {
        (Some(a), Some(b)) => a == b,
        (None, None) => true,
        _ => false,
    };
    if !same {
        *field = value;
        return true;
    }
    false
}

/// Writes an edited flag into the field it is bound to; returns whether
/// the field changed.
pub fn apply_bool_to_field(field: &mut bool, value: bool) -> (changed: bool)
    ensures
        *final(field) == value,
        changed == (*old(field) != value),
{
    if *field != value {
        *field = value;
        return true;
    }
    false
}

/// The position of the first of `names` that is `name`.
pub open spec fn name_position_spec(names: Seq<Seq<char>>, name: Seq<char>) -> Option<usize>
    decreases names.len(),
{
    if names.len() == 0 {
        None
    } else if names.last() == name {
        match name_position_spec(names.drop_last(), name) {
            Some(i) => Some(i),
            None => Some((names.len() - 1) as usize),
        }
    } else {
        name_position_spec(names.drop_last(), name)
    }
}

/// Which of the listed variants is the one named `name`: the position of
/// the first with that name, found when a variant is picked by name.
pub fn variant_position(names: &[String], name: &str) -> (r: Option<usize>)
    ensures
        r == name_position_spec(names@.map_values(|s: String| s@), name@),
        r matches Some(i) ==> i < names@.len() && names@[i as int]@ == name@,
{
    let target = chars_of(name);
    let ghost views = names@.map_values(|s: String| s@);
    let mut i: usize = 0;
    while i < names.len()
        invariant
            i <= names@.len(),
            views == names@.map_values(|s: String| s@),
            target@ == name@,
            name_position_spec(views.take(i as int), name@) is None,
        decreases names@.len() - i,
    {
        let candidate = chars_of(names[i].as_str());
        assert(views.take(i + 1).drop_last() =~= views.take(i as int));
        if chars_equal(&candidate, &target) {
            proof {
                lemma_name_position_prefix(views, name@, i + 1);
            }
            return Some(i);
        }
        i = i + 1;
    }
    assert(views.take(names@.len() as int) =~= views);
    None
}

/// "Some", the case of an optional value that holds one.
pub open spec fn some_variant_name() -> Seq<char> {
    seq!['S', 'o', 'm', 'e']
}

/// The case of a nested enum value shown by a variant editor: the listed
/// case named like the value's case (`variant_name`, absent when the
/// value is no enum); for `Some`, the case named like the held value's
/// case (`inner_variant_name`); else the first.
pub open spec fn nested_variant_index_spec(
    names: Seq<Seq<char>>,
    variant_name: Option<Seq<char>>,
    inner_variant_name: Option<Seq<char>>,
) -> usize {
    match variant_name {
        None => 0,
        Some(n) => match name_position_spec(names, n) {
            Some(i) => i,
            None => if n == some_variant_name() {
                match inner_variant_name {
                    Some(inner) => match name_position_spec(names, inner) {
                        Some(i) => i,
                        None => 0,
                    },
                    None => 0,
                }
            } else {
                0
            },
        },
    }
}

/// The case shown is the first listed case named like the value's case
/// when one is; for an unlisted `Some`, the first listed case named like the
/// held value's case when one is; and the first case otherwise. It is
/// always a listed case when any is listed.
pub proof fn lemma_nested_variant_index_names(
    names: Seq<Seq<char>>,
    variant_name: Option<Seq<char>>,
    inner_variant_name: Option<Seq<char>>,
)
    requires
        names.len() <= usize::MAX,
    ensures
        names.len() > 0 ==> nested_variant_index_spec(names, variant_name, inner_variant_name)
            < names.len(),
        (variant_name is Some && names.contains(variant_name->0)) ==> {
            let i = nested_variant_index_spec(names, variant_name, inner_variant_name) as int;
            &&& names[i] == variant_name->0
            &&& forall|j: int| 0 <= j < i ==> #[trigger] names[j] != variant_name->0
        },
        (variant_name == Some(some_variant_name()) && !names.contains(some_variant_name()) && (
        inner_variant_name is Some && names.contains(inner_variant_name->0))) ==> {
            let i = nested_variant_index_spec(names, variant_name, inner_variant_name) as int;
            &&& names[i] == inner_variant_name->0
            &&& forall|j: int| 0 <= j < i ==> #[trigger] names[j] != inner_variant_name->0
        },
        (variant_name is None || (variant_name matches Some(n) && !names.contains(n) && n
            != some_variant_name())) ==> nested_variant_index_spec(
            names,
            variant_name,
            inner_variant_name,
        ) == 0,
{
    if let Some(n) = variant_name {
        lemma_name_position_first(names, n);
        if names.contains(n) {
            let k = choose|k: int| 0 <= k < names.len() && names[k] == n;
            assert(names[k] == n);
        }
        if let Some(inner) = inner_variant_name {
            lemma_name_position_first(names, inner);
            if names.contains(inner) {
                let k = choose|k: int| 0 <= k < names.len() && names[k] == inner;
                assert(names[k] == inner);
            }
        }
    }
}

/// See `nested_variant_index_spec`.
pub fn get_nested_variant_index(
    names: &[String],
    variant_name: Option<&str>,
    inner_variant_name: Option<&str>,
) -> (r: usize)
    ensures
        r == nested_variant_index_spec(
            names@.map_values(|s: String| s@),
            match variant_name {
                Some(n) => Some(n@),
                None => None,
            },
            match inner_variant_name {
                Some(n) => Some(n@),
                None => None,
            },
        ),
{
    let name = match variant_name {
        Some(n) => n,
        None => return 0,
    };
    match variant_position(names, name) {
        Some(i) => return i,
        None => {},
    }
    let some_lit = "Some";
    proof {
        reveal_strlit("Some");
    }
    let some = chars_of(some_lit);
    assert(some@ =~= some_variant_name());
    if chars_equal(&chars_of(name), &some) {
        match inner_variant_name {
            Some(inner) => match variant_position(names, inner) {
                Some(i) => i,
                None => 0,
            },
            None => 0,
        }
    } else {
        0
    }
}

/// The position found is that of the first name equal to `name`, and none
/// is found exactly when no name equals it.
pub proof fn lemma_name_position_first(names: Seq<Seq<char>>, name: Seq<char>)
    requires
        names.len() <= usize::MAX,
    ensures
        name_position_spec(names, name) is None <==> forall|j: int|
            0 <= j < names.len() ==> #[trigger] names[j] != name,
        name_position_spec(names, name) matches Some(i) ==> {
            &&& i < names.len()
            &&& names[i as int] == name
            &&& forall|j: int| 0 <= j < i ==> #[trigger] names[j] != name
        },
    decreases names.len(),
{
    if names.len() > 0 {
        let front = names.drop_last();
        lemma_name_position_first(front, name);
        assert forall|j: int| 0 <= j < front.len() implies #[trigger] front[j] == names[j] by {}
        match name_position_spec(front, name) {
            Some(i) => {
                assert(front[i as int] == names[i as int]);
                assert forall|j: int| 0 <= j < i implies #[trigger] names[j] != name by {
                    assert(front[j] == names[j]);
                }
            },
            None => {
                assert forall|j: int| 0 <= j < front.len() implies #[trigger] names[j] != name by {
                    assert(front[j] == names[j]);
                }
            },
        }
        if name_position_spec(names, name) is None {
            assert forall|j: int| 0 <= j < names.len() implies #[trigger] names[j] != name by {
                if j < front.len() {
                    assert(front[j] == names[j]);
                }
            }
        }
    }
}

proof fn lemma_name_position_prefix(names: Seq<Seq<char>>, name: Seq<char>, k: int)
    requires
        0 <= k <= names.len(),
        name_position_spec(names.take(k), name) is Some,
    ensures
        name_position_spec(names, name) == name_position_spec(names.take(k), name),
    decreases names.len() - k,
{
    if k < names.len() {
        assert(names.take(k + 1).drop_last() =~= names.take(k));
        assert(name_position_spec(names.take(k + 1), name) == name_position_spec(names.take(k), name));
        lemma_name_position_prefix(names, name, k + 1);
    } else {
        assert(names.take(k) =~= names);
    }
}

proof fn lemma_numeral_untrimmed(n: nat)
    ensures
        trim_spec(decimal_spec(n)) == decimal_spec(n),
{
    let s = decimal_spec(n);
    lemma_decimal_value(n);
    assert(s.len() > 0);
    assert(crate::text::is_digit_char(s[0]));
    assert(!is_whitespace_char(s[0]));
    assert(crate::text::is_digit_char(s[s.len() - 1]));
    assert(!is_whitespace_char(s.last()));
}

/// What a `u32` field shows reads back as the same value (an empty input
/// shows as the empty text).
pub proof fn lemma_u32_field_roundtrip(value: u32, kind: FieldKind)
    ensures
        u32_parse_spec(
            match u32_display_spec(value, kind) {
                Some(t) => t,
                None => Seq::empty(),
            },
            kind,
        ) == Some(value),
{
    match u32_display_spec(value, kind) {
        Some(t) => {
            lemma_numeral_untrimmed(value as nat);
            lemma_parse_u32_of_decimal(value);
            lemma_decimal_value(value as nat);
        },
        None => {
            assert(trim_spec(Seq::<char>::empty()) =~= Seq::<char>::empty());
        },
    }
}

/// What an optional `u32` field shows reads back as the same value, except
/// that zero reads back as none.
pub proof fn lemma_optional_u32_field_roundtrip(value: Option<u32>, kind: FieldKind)
    ensures
        optional_u32_parse_spec(
            match optional_u32_display_spec(value, kind) {
                Some(t) => t,
                None => Seq::empty(),
            },
        ) == Some(
            match value {
                Some(v) => if v == 0 {
                    None
                } else {
                    Some(v)
                },
                None => None,
            },
        ),
{
    match optional_u32_display_spec(value, kind) {
        Some(t) => {
            let v = value->0;
            lemma_numeral_untrimmed(v as nat);
            lemma_parse_u32_of_decimal(v);
            lemma_decimal_value(v as nat);
        },
        None => {
            assert(trim_spec(Seq::<char>::empty()) =~= Seq::<char>::empty());
        },
    }
}

/// The variant name picked from a menu label: the label without its
/// whitespace ("Sphere Surface" names `SphereSurface`).
pub fn label_to_variant_name(label: &str) -> (name: String)
    ensures
        name@ == label@.filter(|c: char| !is_whitespace_char(c)),
{
    let cs = chars_of(label);
    let mut out: Vec<char> = Vec::new();
    for i in 0..cs.len()
        invariant
            cs@ == label@,
            out@ == cs@.take(i as int).filter(|c: char| !is_whitespace_char(c)),
    {
        let c = cs[i];
        reveal_with_fuel(Seq::filter, 1);
        assert(cs@.take(i + 1).drop_last() =~= cs@.take(i as int));
        if !is_whitespace(c) {
            out.push(c);
        }
    }
    assert(cs@.take(cs.len() as int) =~= cs@);
    string_from_chars(&out)
}

/// Reflection path of an emitter property: the field path behind a dot.
pub struct ReflectPath(pub String);

impl ReflectPath {
    /// The reflection path for the field path `path` (".path").
    pub fn new(path: &str) -> (p: Self)
        ensures
            p.0@ == seq!['.'] + path@,
    {
        let mut v: Vec<char> = Vec::new();
        v.push('.');
        extend_chars(&mut v, &chars_of(path));
        ReflectPath(string_from_chars(&v))
    }

    /// The path as text.
    pub fn as_str(&self) -> (s: &str)
        ensures
            s@ == self.0@,
    {
        self.0.as_str()
    }
}

/// Whether a text input is a plain or a numeric one.
#[derive(Clone, Copy, PartialEq, Eq, Debug)]
pub enum TextEditVariant {
    Default,
    Numeric,
}

impl Default for TextEditVariant {
    fn default() -> (v: Self)
        ensures
            v == TextEditVariant::Default,
    {
        TextEditVariant::Default
    }
}

/// The text of a numeric input without its shown unit: `text` minus a
/// trailing `" " + suffix` when it ends so, otherwise `text` itself.
pub open spec fn strip_suffix_spec(text: Seq<char>, suffix: Option<Seq<char>>) -> Seq<char> {
    match suffix {
        Some(sf) => {
            let tail = seq![' '] + sf;
            if tail.len() <= text.len() && text.skip(text.len() - tail.len()) == tail {
                text.take(text.len() - tail.len())
            } else {
                text
            }
        },
        None => text,
    }
}

/// Stripping takes off exactly the unit written after a value: a value
/// followed by a space and the unit gives the value back, and a text that
/// does not end so, or no unit, leaves the text as it is.
pub proof fn lemma_strip_suffix_appended(value: Seq<char>, text: Seq<char>, suffix: Seq<char>)
    ensures
        strip_suffix_spec(value + seq![' '] + suffix, Some(suffix)) == value,
        strip_suffix_spec(text, None) == text,
        !(text.len() > suffix.len() && text.skip(text.len() - suffix.len() - 1) == seq![' ']
            + suffix) ==> strip_suffix_spec(text, Some(suffix)) == text,
        strip_suffix_spec(text, Some(suffix)) != text ==> strip_suffix_spec(text, Some(suffix))
            + seq![' '] + suffix == text,
{
    let whole = value + seq![' '] + suffix;
    let tail = seq![' '] + suffix;
    assert(whole.skip(whole.len() - tail.len()) =~= tail);
    assert(whole.take(whole.len() - tail.len()) =~= value);
    if text.len() >= tail.len() && text.skip(text.len() - tail.len()) == tail {
        assert(text.take(text.len() - tail.len()) + tail =~= text);
        assert(text.take(text.len() - tail.len()) + seq![' '] + suffix =~= text.take(text.len()
            - tail.len()) + tail);
    }
}

/// Removes the unit a numeric input shows after its value.
pub fn strip_suffix(text: &str, suffix: Option<&str>) -> (r: String)
    ensures
        r@ == strip_suffix_spec(text@, match suffix {
            Some(s) => Some(s@),
            None => None,
        }),
{
    let t = chars_of(text);
    match suffix {
        None => string_from_chars(&t),
        Some(sf) => {
            let mut tail: Vec<char> = Vec::new();
            tail.push(' ');
            extend_chars(&mut tail, &chars_of(sf));
            if tail.len() <= t.len() {
                let start = t.len() - tail.len();
                let mut same = true;
                let mut i: usize = 0;
                while i < tail.len()
                    invariant
                        start + tail@.len() == t@.len(),
                        start + tail.len() == t.len(),
                        i <= tail@.len(),
                        same == (forall|j: int| 0 <= j < i ==> t@[start + j] == tail@[j]),
                    decreases tail.len() - i,
                {
                    if t[start + i] != tail[i] {
                        same = false;
                    }
                    i = i + 1;
                }
                if same {
                    assert(t@.skip(start as int) =~= tail@);
                    let mut head: Vec<char> = Vec::new();
                    for k in 0..start
                        invariant
                            start <= t@.len(),
                            head@ == t@.take(k as int),
                    {
                        head.push(t[k]);
                        assert(t@.take(k + 1) =~= t@.take(k as int).push(t@[k as int]));
                    }
                    string_from_chars(&head)
                } else {
                    assert(t@.skip(start as int) != tail@) by {
                        let j = choose|j: int| 0 <= j < tail@.len() && t@[start + j] != tail@[j];
                        assert(t@.skip(start as int)[j] == t@[start + j]);
                    }
                    string_from_chars(&t)
                }
            } else {
                string_from_chars(&t)
            }
        },
    }
}

/// The placeholder of a text input: its hint followed by its unit, if any.
pub fn placeholder_text(placeholder: &str, suffix: Option<&str>) -> (r: String)
    ensures
        r@ == placeholder@ + match suffix {
            Some(s) => s@,
            None => Seq::empty(),
        },
{
    let mut v = chars_of(placeholder);
    match suffix {
        Some(s) => extend_chars(&mut v, &chars_of(s)),
        None => {
            assert(v@ + Seq::<char>::empty() =~= v@);
        },
    }
    string_from_chars(&v)
}

/// Whether the unit is shown after an input's value: only while the input is
/// not being edited and holds some text.
pub fn shows_suffix(focused: bool, text_is_empty: bool) -> (r: bool)
    ensures
        r == (!focused && !text_is_empty),
{
    !focused && !text_is_empty
}

} // verus!
