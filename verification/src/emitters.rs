//! Editing the list of emitters of a project and the draw passes of an emitter.

use vstd::prelude::*;
use vstd::relations::injective_on;
use vstd::set_lib::{lemma_int_range, lemma_len_subset, lemma_map_size, set_int_range};

use crate::editor_state::{edited_spec, EditorState};
use crate::inspector_state::{shift_after_removal, InspectorState};
use crate::text::{
    chars_equal, chars_of, decimal_chars, decimal_spec, extend_chars, lemma_decimal_injective,
    string_from_chars,
};

verus! {

/// "Emitter", the name of a new emitter when no emitter has it yet.
pub open spec fn emitter_base_name() -> Seq<char> {
    seq!['E', 'm', 'i', 't', 't', 'e', 'r']
}

/// "Emitter k".
pub open spec fn numbered_emitter_name(k: nat) -> Seq<char> {
    emitter_base_name() + seq![' '] + decimal_spec(k)
}

/// The names held by a list of strings.
pub open spec fn names_view(names: Seq<String>) -> Seq<Seq<char>> {
    names.map_values(|s: String| s@)
}

proof fn lemma_numbered_injective(a: nat, b: nat)
    requires
        numbered_emitter_name(a) == numbered_emitter_name(b),
    ensures
        a == b,
{
    assert(numbered_emitter_name(a).skip(8) =~= decimal_spec(a));
    assert(numbered_emitter_name(b).skip(8) =~= decimal_spec(b));
    lemma_decimal_injective(a, b);
}

/// If "Emitter 2" .. "Emitter c-1" are all taken, there are at least c - 2 names.
proof fn lemma_taken_names_bound(ns: Seq<Seq<char>>, c: nat)
    requires
        c >= 2,
        forall|j: nat| 2 <= j < c ==> ns.contains(#[trigger] numbered_emitter_name(j)),
    ensures
        c - 2 <= ns.len(),
{
    let x = set_int_range(2, c as int);
    let f = |j: int| numbered_emitter_name(j as nat);
    lemma_int_range(2, c as int);
    assert(injective_on(f, x)) by {
        assert forall|a: int, b: int| x.contains(a) && x.contains(b) && #[trigger] f(a) == #[trigger] f(
            b,
        ) implies a == b by {
            lemma_numbered_injective(a as nat, b as nat);
        }
    }
    let y = x.map(f);
    lemma_map_size(x, y, f);
    assert forall|s: Seq<char>| y.contains(s) implies ns.to_set().contains(s) by {
        let j = choose|j: int| x.contains(j) && s == f(j);
        assert(ns.contains(numbered_emitter_name(j as nat)));
    }
    vstd::seq_lib::seq_to_set_is_finite(ns);
    lemma_len_subset(y, ns.to_set());
    ns.lemma_cardinality_of_set();
}

fn contains_name(names: &Vec<Vec<char>>, candidate: &Vec<char>) -> (r: bool)
    ensures
        r == names@.map_values(|v: Vec<char>| v@).contains(candidate@),
{
    let ghost ns = names@.map_values(|v: Vec<char>| v@);
    for i in 0..names.len()
        invariant
            ns == names@.map_values(|v: Vec<char>| v@),
            forall|j: int| 0 <= j < i ==> ns[j] != candidate@,
    {
        if chars_equal(&names[i], candidate) {
            assert(ns[i as int] == candidate@);
            return true;
        }
    }
    false
}

/// A name for a new emitter that no existing emitter has: "Emitter" when it
/// is free, otherwise "Emitter k" for the smallest k >= 2 that is free.
pub fn generate_unique_emitter_name(names: &[String]) -> (r: String)
    ensures
        !names_view(names@).contains(r@),
        !names_view(names@).contains(emitter_base_name()) ==> r@ == emitter_base_name(),
        names_view(names@).contains(emitter_base_name()) ==> exists|k: nat|
            k >= 2 && r@ == numbered_emitter_name(k) && forall|j: nat|
                2 <= j < k ==> names_view(names@).contains(#[trigger] numbered_emitter_name(j)),
{
    let ghost ns = names_view(names@);
    let mut existing: Vec<Vec<char>> = Vec::new();
    for i in 0..names.len()
        invariant
            ns == names_view(names@),
            ns.len() == names@.len(),
            existing@.len() == i,
            existing@.map_values(|v: Vec<char>| v@) == ns.take(i as int),
    {
        let cs = chars_of(names[i].as_str());
        assert(cs@ == names@[i as int]@);
        assert(ns[i as int] == names@[i as int]@);
        let ghost before = existing@;
        existing.push(cs);
        assert forall|j: int| 0 <= j < i + 1 implies existing@.map_values(|v: Vec<char>| v@)[j]
            == #[trigger] ns.take(i + 1)[j] by {
            if j < i {
                assert(existing@[j] == before[j]);
                assert(before.map_values(|v: Vec<char>| v@)[j] == ns.take(i as int)[j]);
            }
        }
        assert(existing@.map_values(|v: Vec<char>| v@) =~= ns.take(i + 1));
    }
    assert(ns.take(names.len() as int) =~= ns);
    let lit = "Emitter";
    proof {
        reveal_strlit("Emitter");
    }
    let base = chars_of(lit);
    assert(base@ =~= emitter_base_name());
    if !contains_name(&existing, &base) {
        return string_from_chars(&base);
    }
    let mut counter: u128 = 2;
    assert(ns.len() == names.len());
    loop
        invariant
            ns == names_view(names@),
            ns.len() <= usize::MAX,
            existing@.map_values(|v: Vec<char>| v@) == ns,
            base@ == emitter_base_name(),
            ns.contains(emitter_base_name()),
            2 <= counter <= ns.len() + 2,
            forall|j: nat| 2 <= j < counter ==> ns.contains(#[trigger] numbered_emitter_name(j)),
        decreases ns.len() + 2 - counter,
    {
        let mut candidate = Vec::new();
        extend_chars(&mut candidate, &base);
        candidate.push(' ');
        let digits = decimal_chars(counter);
        extend_chars(&mut candidate, &digits);
        assert(candidate@ =~= numbered_emitter_name(counter as nat));
        if !contains_name(&existing, &candidate) {
            return string_from_chars(&candidate);
        }
        proof {
            lemma_taken_names_bound(ns, (counter + 1) as nat);
        }
        counter = counter + 1;
    }
}

/// Appends a new emitter; the project is then unsaved and the preview
/// restarts.
pub fn on_add_emitter<E, T>(emitters: &mut Vec<E>, new_emitter: E, editor: &mut EditorState<T>)
    ensures
        final(emitters)@ == old(emitters)@.push(new_emitter),
        *final(editor) == edited_spec(*old(editor)),
{
    emitters.push(new_emitter);
    editor.restart_after_edit();
}

/// Deletes the emitter at `index` when there is one, keeping the inspector's
/// per-emitter state in step; returns whether an emitter was deleted.
pub fn on_remove_emitter<E, T>(
    emitters: &mut Vec<E>,
    index: usize,
    inspector: &mut InspectorState,
    editor: &mut EditorState<T>,
) -> (removed: bool)
    ensures
        removed == (index < old(emitters)@.len()),
        removed ==> {
            &&& final(emitters)@ == old(emitters)@.remove(index as int)
            &&& final(inspector).editing_emitter_name == (if old(
                inspector,
            ).editing_emitter_name == Some(index) {
                None
            } else {
                old(inspector).editing_emitter_name
            })
            &&& final(inspector).collapsed_emitters@ == old(
                inspector,
            ).collapsed_emitters@.remove(index).map(|i: usize| shift_after_removal(index, i))
            &&& *final(editor) == edited_spec(*old(editor))
        },
        !removed ==> {
            &&& final(emitters)@ == old(emitters)@
            &&& *final(inspector) == *old(inspector)
            &&& *final(editor) == *old(editor)
        },
{
    if index < emitters.len() {
        emitters.remove(index);
        inspector.on_emitter_removed(index);
        editor.restart_after_edit();
        true
    } else {
        false
    }
}

/// Appends a draw pass to an emitter.
pub fn on_add_draw_pass<P, T>(passes: &mut Vec<P>, pass: P, editor: &mut EditorState<T>)
    ensures
        final(passes)@ == old(passes)@.push(pass),
        *final(editor) == edited_spec(*old(editor)),
{
    passes.push(pass);
    editor.restart_after_edit();
}

/// Deletes the draw pass at `pass_index`, unless it does not exist or it is
/// the emitter's only pass; returns whether a pass was deleted.
pub fn on_remove_draw_pass<P, T>(
    passes: &mut Vec<P>,
    pass_index: usize,
    editor: &mut EditorState<T>,
) -> (removed: bool)
    ensures
        removed == (pass_index < old(passes)@.len() && old(passes)@.len() > 1),
        old(passes)@.len() >= 1 ==> final(passes)@.len() >= 1,
        removed ==> {
            &&& final(passes)@ == old(passes)@.remove(pass_index as int)
            &&& *final(editor) == edited_spec(*old(editor))
        },
        !removed ==> final(passes)@ == old(passes)@ && *final(editor) == *old(editor),
{
    if pass_index < passes.len() && passes.len() > 1 {
        passes.remove(pass_index);
        editor.restart_after_edit();
        true
    } else {
        false
    }
}

/// What one drawing of the inspector asked for: whether a property
/// changed, which emitter's header was clicked to collapse or expand it,
/// which emitter's rename button was clicked, whether "Add emitter" was
/// clicked, which emitter's delete button was clicked, which emitter's
/// "Add pass" was clicked, and which draw pass's delete button was clicked
/// (emitter, pass).
pub struct InspectorActions {
    pub any_changed: bool,
    pub toggle_emitter: Option<usize>,
    pub start_editing_emitter: Option<usize>,
    pub add_emitter: bool,
    pub remove_emitter: Option<usize>,
    pub add_pass: Option<usize>,
    pub remove_pass: Option<(usize, usize)>,
}

/// What the inspector hands on after applying its actions: an emitter to
/// add, an emitter whose deletion must be confirmed, an emitter to get a
/// new draw pass, and a draw pass whose deletion must be confirmed.
#[derive(Clone, Copy, Debug, PartialEq, Eq)]
pub struct InspectorRequests {
    pub add_emitter: bool,
    pub confirm_remove_emitter: Option<usize>,
    pub add_draw_pass: Option<usize>,
    pub confirm_remove_draw_pass: Option<(usize, usize)>,
}

/// Applies what the inspector asked for: an edit leaves the project
/// unsaved and restarts the preview; a header click toggles its emitter; a
/// rename click makes that emitter's name editable.  Adding an emitter or a
/// pass is requested as such, and deleting one asks for confirmation
/// first; these are returned.
pub fn apply_inspector_actions<T>(
    actions: &InspectorActions,
    inspector: &mut InspectorState,
    editor: &mut EditorState<T>,
) -> (r: InspectorRequests)
    ensures
        *final(editor) == (if actions.any_changed {
            edited_spec(*old(editor))
        } else {
            *old(editor)
        }),
        final(inspector).collapsed_emitters@ == match actions.toggle_emitter {
            Some(i) => if old(inspector).collapsed_emitters@.contains(i) {
                old(inspector).collapsed_emitters@.remove(i)
            } else {
                old(inspector).collapsed_emitters@.insert(i)
            },
            None => old(inspector).collapsed_emitters@,
        },
        final(inspector).editing_emitter_name == match actions.start_editing_emitter {
            Some(i) => Some(i),
            None => old(inspector).editing_emitter_name,
        },
        r == (InspectorRequests {
            add_emitter: actions.add_emitter,
            confirm_remove_emitter: actions.remove_emitter,
            add_draw_pass: actions.add_pass,
            confirm_remove_draw_pass: actions.remove_pass,
        }),
{
    if actions.any_changed {
        editor.restart_after_edit();
    }
    match actions.toggle_emitter {
        Some(i) => inspector.toggle_emitter(i),
        None => {},
    }
    match actions.start_editing_emitter {
        Some(i) => inspector.start_editing_emitter_name(i),
        None => {},
    }
    InspectorRequests {
        add_emitter: actions.add_emitter,
        confirm_remove_emitter: actions.remove_emitter,
        add_draw_pass: actions.add_pass,
        confirm_remove_draw_pass: actions.remove_pass,
    }
}

/// "Pass n", the heading of an emitter's `n`-th draw pass.
pub open spec fn pass_label_spec(n: nat) -> Seq<char> {
    seq!['P', 'a', 's', 's', ' '] + decimal_spec(n)
}

/// The heading of the draw pass at `index`, counted from one.
pub fn pass_label(index: usize) -> (r: String)
    requires
        index < usize::MAX,
    ensures
        r@ == pass_label_spec((index + 1) as nat),
{
    let lit = "Pass ";
    proof {
        reveal_strlit("Pass ");
    }
    let mut v = chars_of(lit);
    assert(v@ =~= seq!['P', 'a', 's', 's', ' ']);
    extend_chars(&mut v, &decimal_chars((index + 1) as u128));
    string_from_chars(&v)
}

/// A draw pass offers its delete button only while the emitter has
/// another one.
pub fn can_remove_pass(pass_count: usize) -> (r: bool)
    ensures
        r == (pass_count > 1),
{
    pass_count > 1
}

/// Emitter names stay distinct when an emitter is added under a generated
/// name: a list without repeated names, extended by a name it does not
/// hold (as `generate_unique_emitter_name` gives), has none either.
pub proof fn lemma_generated_names_stay_distinct(names: Seq<Seq<char>>, added: Seq<char>)
    requires
        names.no_duplicates(),
        !names.contains(added),
    ensures
        names.push(added).no_duplicates(),
{
    let n = names.push(added);
    assert forall|i: int, j: int| 0 <= i < n.len() && 0 <= j < n.len() && i != j implies n[i] != n[j] by {
        if i < names.len() && j < names.len() {
            assert(n[i] == names[i] && n[j] == names[j]);
        } else if i == names.len() {
            assert(names[j] == n[j]);
        } else {
            assert(names[i] == n[i]);
        }
    }
}

} // verus!
