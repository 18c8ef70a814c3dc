//! Human-readable labels for emitter properties.

use vstd::prelude::*;

use crate::text::{
    chars_equal, chars_of, join_chars, join_spec, lowercase, split_whitespace_chars,
    split_whitespace_spec, string_from_chars, to_lowercase, to_uppercase, uppercase,
};

verus! {

/// What `inflector`'s `to_sentence_case` makes of a string: words split at
/// case changes and separators, the first capitalized and the rest in lower
/// case, joined by single spaces.
pub uninterp spec fn sentence_case(s: Seq<char>) -> Seq<char>;

/// Calls `inflector::cases::sentencecase::to_sentence_case`; its result is
/// named `sentence_case`.
#[verifier::external_body]
fn to_sentence_case(s: &str) -> (r: String)
    ensures
        r@ == sentence_case(s@),
{
    inflector::cases::sentencecase::to_sentence_case(s)
}

/// "fps", the one acronym written in capitals in labels.
pub open spec fn acronym_fps() -> Seq<char> {
    seq!['f', 'p', 's']
}

/// A label word, in capitals when it is an acronym.
pub open spec fn label_word(word: Seq<char>) -> Seq<char> {
    if lowercase(word) == acronym_fps() {
        uppercase(word)
    } else {
        word
    }
}

/// A label word, in capitals (of its lowercase form) when it is an acronym.
pub open spec fn path_label_word(word: Seq<char>) -> Seq<char> {
    if lowercase(word) == acronym_fps() {
        uppercase(lowercase(word))
    } else {
        word
    }
}

/// The label of a property name: its sentence case, with acronyms in
/// capitals ("fixed_fps" is labelled "Fixed FPS").
pub open spec fn field_label_spec(name: Seq<char>) -> Seq<char> {
    join_spec(split_whitespace_spec(sentence_case(name)).map_values(|w| label_word(w)), seq![' '])
}

/// The part of a dotted path after its last dot (all of it without dots).
pub open spec fn last_segment(path: Seq<char>) -> Seq<char>
    decreases path.len(),
{
    if path.len() == 0 {
        path
    } else if path.last() == '.' {
        Seq::empty()
    } else {
        last_segment(path.drop_last()).push(path.last())
    }
}

/// The last segment is the end of the path that holds no dot: it has no
/// dot, it ends the path, and it is the whole path or follows a dot.
pub proof fn lemma_last_segment_after_last_dot(path: Seq<char>)
    ensures
        last_segment(path).len() <= path.len(),
        path.skip(path.len() - last_segment(path).len()) == last_segment(path),
        forall|i: int| 0 <= i < last_segment(path).len() ==> #[trigger] last_segment(path)[i] != '.',
        last_segment(path).len() == path.len() || path[path.len() - last_segment(path).len() - 1]
            == '.',
    decreases path.len(),
{
    if path.len() > 0 {
        if path.last() == '.' {
            assert(path.skip(path.len() as int) =~= Seq::<char>::empty());
        } else {
            let front = path.drop_last();
            lemma_last_segment_after_last_dot(front);
            let seg = last_segment(front);
            assert(path.skip(path.len() - seg.len() - 1) =~= front.skip(front.len() - seg.len()).push(
                path.last(),
            ));
            assert forall|i: int| 0 <= i < seg.len() + 1 implies #[trigger] seg.push(path.last())[i]
                != '.' by {
                if i < seg.len() {
                    assert(seg.push(path.last())[i] == seg[i]);
                }
            }
            if seg.len() < front.len() {
                assert(path[path.len() - seg.len() - 2] == front[front.len() - seg.len() - 1]);
            }
        }
    }
}

/// The label of a property path: the label of its last segment.
pub open spec fn path_label_spec(path: Seq<char>) -> Seq<char> {
    join_spec(
        split_whitespace_spec(sentence_case(last_segment(path))).map_values(
            |w| path_label_word(w),
        ),
        seq![' '],
    )
}

fn fps_chars() -> (v: Vec<char>)
    ensures
        v@ == acronym_fps(),
{
    let mut v = Vec::new();
    v.push('f');
    v.push('p');
    v.push('s');
    assert(v@ =~= acronym_fps());
    v
}

/// Relabels the words of a sentence: `lower_first` selects the form used
/// for the acronym test of the capital form.
fn label_words(words: &Vec<Vec<char>>, lower_first: bool) -> (r: Vec<Vec<char>>)
    ensures
        r@.len() == words@.len(),
        forall|i: int|
            0 <= i < r@.len() ==> #[trigger] r@[i]@ == (if lower_first {
                path_label_word(words@[i]@)
            } else {
                label_word(words@[i]@)
            }),
{
    let fps = fps_chars();
    let mut r: Vec<Vec<char>> = Vec::new();
    for i in 0..words.len()
        invariant
            fps@ == acronym_fps(),
            r@.len() == i,
            forall|j: int|
                0 <= j < i ==> #[trigger] r@[j]@ == (if lower_first {
                    path_label_word(words@[j]@)
                } else {
                    label_word(words@[j]@)
                }),
    {
        let word = string_from_chars(&words[i]);
        let lower = to_lowercase(word.as_str());
        let lower_chars = chars_of(lower.as_str());
        if chars_equal(&lower_chars, &fps) {
            let upper = if lower_first {
                to_uppercase(lower.as_str())
            } else {
                to_uppercase(word.as_str())
            };
            r.push(chars_of(upper.as_str()));
        } else {
            r.push(chars_of(word.as_str()));
        }
    }
    r
}

/// The label shown for the property `name`.
pub fn field_label(name: &str) -> (label: String)
    ensures
        label@ == field_label_spec(name@),
{
    let sentence = to_sentence_case(name);
    let words = split_whitespace_chars(&chars_of(sentence.as_str()));
    let relabelled = label_words(&words, false);
    let sep = vec![' '];
    let joined = join_chars(&relabelled, &sep);
    proof {
        let ws = split_whitespace_spec(sentence_case(name@));
        assert(relabelled@.map_values(|w: Vec<char>| w@) =~= ws.map_values(|w| label_word(w)));
        assert(sep@ =~= seq![' ']);
    }
    string_from_chars(&joined)
}

/// The part of `path` after its last dot.
fn last_segment_chars(path: &Vec<char>) -> (r: Vec<char>)
    ensures
        r@ == last_segment(path@),
{
    let n = path.len();
    let mut start: usize = n;
    assert(path@.take(n as int) =~= path@);
    assert(path@ + path@.skip(n as int) =~= path@);
    while start > 0 && path[start - 1] != '.'
        invariant
            start <= n,
            n == path.len(),
            last_segment(path@) == last_segment(path@.take(start as int)) + path@.skip(
                start as int,
            ),
        decreases start,
    {
        let ghost t = path@.take(start as int);
        assert(t.drop_last() =~= path@.take(start - 1));
        assert(path@.skip(start - 1) =~= seq![path@[start - 1]] + path@.skip(start as int));
        start = start - 1;
    }
    let ghost t = path@.take(start as int);
    if start > 0 {
        assert(t.last() == '.');
    } else {
        assert(t =~= Seq::<char>::empty());
    }
    assert(last_segment(t) =~= Seq::<char>::empty());
    let mut r: Vec<char> = Vec::new();
    for i in start..n
        invariant
            start <= n,
            n == path.len(),
            r@ == path@.subrange(start as int, i as int),
    {
        r.push(path[i]);
        assert(path@.subrange(start as int, i + 1) =~= path@.subrange(start as int, i as int).push(
            path@[i as int],
        ));
    }
    assert(r@ =~= path@.skip(start as int));
    assert(last_segment(path@) =~= r@);
    r
}

/// The label shown for the property at the dotted `path`.
pub fn path_to_label(path: &str) -> (label: String)
    ensures
        label@ == path_label_spec(path@),
{
    let segment = string_from_chars(&last_segment_chars(&chars_of(path)));
    let sentence = to_sentence_case(segment.as_str());
    let words = split_whitespace_chars(&chars_of(sentence.as_str()));
    let relabelled = label_words(&words, true);
    let sep = vec![' '];
    let joined = join_chars(&relabelled, &sep);
    proof {
        let ws = split_whitespace_spec(sentence_case(last_segment(path@)));
        assert(relabelled@.map_values(|w: Vec<char>| w@) =~= ws.map_values(
            |w| path_label_word(w),
        ));
        assert(sep@ =~= seq![' ']);
    }
    string_from_chars(&joined)
}

} // verus!
