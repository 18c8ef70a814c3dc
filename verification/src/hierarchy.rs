//! Walking up the UI entity hierarchy to the nearest marked ancestor.
//!
//! Entities are identified by their 64-bit ids; the hierarchy is given as the
//! map from a child to its parent.

use std::collections::{HashMap, HashSet};
use vstd::prelude::*;

verus! {

broadcast use vstd::std_specs::hash::group_hash_axioms;

/// How far up the hierarchy a widget looks for the field it belongs to.
pub const MAX_ANCESTOR_DEPTH: usize = 10;

/// The nearest entity among `e` and its first `depth - 1` ancestors that is
/// marked, if the walk reaches one before an entity without parent.
pub open spec fn find_ancestor_spec(
    parents: Map<u64, u64>,
    marked: Set<u64>,
    e: u64,
    depth: nat,
) -> Option<u64>
    decreases depth,
{
    if depth == 0 {
        None
    } else if marked.contains(e) {
        Some(e)
    } else if parents.dom().contains(e) {
        find_ancestor_spec(parents, marked, parents[e], (depth - 1) as nat)
    } else {
        None
    }
}

/// The `k`-th ancestor of `e` (`e` itself for `k == 0`), if there is one.
pub open spec fn ancestor_at(parents: Map<u64, u64>, e: u64, k: nat) -> Option<u64>
    decreases k,
{
    if k == 0 {
        Some(e)
    } else {
        match ancestor_at(parents, e, (k - 1) as nat) {
            Some(a) => if parents.dom().contains(a) {
                Some(parents[a])
            } else {
                None
            },
            None => None,
        }
    }
}

/// Walks from `entity` up through at most `max_depth` entities (the entity
/// itself included) and returns the first one that is marked.
pub fn find_ancestor(
    entity: u64,
    parents: &HashMap<u64, u64>,
    max_depth: usize,
    marked: &HashSet<u64>,
) -> (r: Option<u64>)
    ensures
        r == find_ancestor_spec(parents@, marked@, entity, max_depth as nat),
{
    let mut cur = entity;
    let mut left = max_depth;
    while left > 0
        invariant
            find_ancestor_spec(parents@, marked@, entity, max_depth as nat) == find_ancestor_spec(
                parents@,
                marked@,
                cur,
                left as nat,
            ),
        decreases left,
    {
        if marked.contains(&cur) {
            return Some(cur);
        }
        match parents.get(&cur) {
            Some(p) => {
                cur = *p;
            },
            None => {
                return None;
            },
        }
        left = left - 1;
    }
    None
}

/// Whether `target` is `entity` or one of its first nine ancestors.
pub fn find_ancestor_entity(entity: u64, target: u64, parents: &HashMap<u64, u64>) -> (r: bool)
    ensures
        r == find_ancestor_spec(
            parents@,
            Set::empty().insert(target),
            entity,
            MAX_ANCESTOR_DEPTH as nat,
        ) is Some,
{
    let mut marked: HashSet<u64> = HashSet::new();
    marked.insert(target);
    find_ancestor(entity, parents, MAX_ANCESTOR_DEPTH, &marked).is_some()
}

/// How far up a combo box looks for the popover it may lie in.
pub const DESCENDANT_SEARCH_DEPTH: usize = 50;

/// Whether `ancestor` is `entity` or one of its first 49 ancestors.
pub fn is_descendant_of(entity: u64, ancestor: u64, parents: &HashMap<u64, u64>) -> (r: bool)
    ensures
        r == find_ancestor_spec(
            parents@,
            Set::empty().insert(ancestor),
            entity,
            DESCENDANT_SEARCH_DEPTH as nat,
        ) is Some,
{
    let mut marked: HashSet<u64> = HashSet::new();
    marked.insert(ancestor);
    find_ancestor(entity, parents, DESCENDANT_SEARCH_DEPTH, &marked).is_some()
}

/// Whether `entity` lies inside a variant editor (one of `variant_edits`):
/// one of it and its first 19 ancestors is one.
pub fn is_descendant_of_variant_edit(
    entity: u64,
    variant_edits: &HashSet<u64>,
    parents: &HashMap<u64, u64>,
) -> (r: bool)
    ensures
        r == find_ancestor_spec(parents@, variant_edits@, entity, (MAX_ANCESTOR_DEPTH * 2) as nat) is Some,
{
    find_ancestor(entity, parents, MAX_ANCESTOR_DEPTH * 2, variant_edits).is_some()
}

/// The field an event on `entity` belongs to: `entity` itself when it is
/// a field, else the nearest field among its parent and the parent's first
/// nine ancestors.  `fields` maps each field entity to its field.
pub fn find_field_entity_for_entity<F>(
    entity: u64,
    fields: &HashMap<u64, F>,
    parents: &HashMap<u64, u64>,
) -> (r: Option<u64>)
    ensures
        r == find_ancestor_spec(parents@, fields@.dom(), entity, (MAX_ANCESTOR_DEPTH + 1) as nat),
{
    let mut cur = entity;
    let mut left: usize = MAX_ANCESTOR_DEPTH + 1;
    while left > 0
        invariant
            find_ancestor_spec(parents@, fields@.dom(), entity, (MAX_ANCESTOR_DEPTH + 1) as nat)
                == find_ancestor_spec(parents@, fields@.dom(), cur, left as nat),
        decreases left,
    {
        if fields.contains_key(&cur) {
            return Some(cur);
        }
        match parents.get(&cur) {
            Some(p) => {
                cur = *p;
            },
            None => {
                return None;
            },
        }
        left = left - 1;
    }
    None
}

/// The field an event on `entity` belongs to, found as in
/// `find_field_entity_for_entity`.
pub fn find_field_for_entity<'a, F>(
    entity: u64,
    fields: &'a HashMap<u64, F>,
    parents: &HashMap<u64, u64>,
) -> (r: Option<&'a F>)
    ensures
        r == match find_ancestor_spec(
            parents@,
            fields@.dom(),
            entity,
            (MAX_ANCESTOR_DEPTH + 1) as nat,
        ) {
            Some(e) => Some(&fields@[e]),
            None => None,
        },
{
    match find_field_entity_for_entity(entity, fields, parents) {
        Some(e) => {
            proof {
                lemma_found_ancestor_is_nearest_marked(
                    parents@,
                    fields@.dom(),
                    entity,
                    (MAX_ANCESTOR_DEPTH + 1) as nat,
                );
            }
            fields.get(&e)
        },
        None => None,
    }
}

/// The component (0 for x, 1 for y, 2 for z) of a vector editor whose
/// input holds `entity`: the first of the editor's first three children
/// that is `entity` or one of its first nine ancestors.
pub open spec fn vector_component_spec(entity: u64, children: Seq<u64>, parents: Map<u64, u64>, n: int) -> Option<usize>
    decreases n,
{
    if n <= 0 {
        None
    } else {
        match vector_component_spec(entity, children, parents, n - 1) {
            Some(i) => Some(i),
            None => if find_ancestor_spec(
                parents,
                Set::empty().insert(children[n - 1]),
                entity,
                MAX_ANCESTOR_DEPTH as nat,
            ) is Some {
                Some((n - 1) as usize)
            } else {
                None
            },
        }
    }
}

/// Which component of a vector editor an edit on `entity` is for (see
/// `vector_component_spec`), if any.
pub fn vector_component_index(entity: u64, children: &[u64], parents: &HashMap<u64, u64>) -> (r:
    Option<usize>)
    ensures
        r == vector_component_spec(
            entity,
            children@,
            parents@,
            if children@.len() < 3 {
                children@.len() as int
            } else {
                3
            },
        ),
{
    let n: usize = if children.len() < 3 {
        children.len()
    } else {
        3
    };
    let mut i: usize = 0;
    while i < n
        invariant
            i <= n,
            n as int == (if children@.len() < 3 {
                children@.len() as int
            } else {
                3
            }),
            vector_component_spec(entity, children@, parents@, i as int) is None,
        decreases n - i,
    {
        if find_ancestor_entity(entity, children[i], parents) {
            proof {
                assert(vector_component_spec(entity, children@, parents@, i + 1) == Some(i));
                lemma_vector_component_stays(entity, children@, parents@, i + 1, n as int);
            }
            return Some(i);
        }
        i = i + 1;
    }
    None
}

/// The component found is that of the first of the editor's first `n`
/// children that is the edited entity or one of its first nine ancestors;
/// none is found when no such child is.
pub proof fn lemma_vector_component_first(entity: u64, children: Seq<u64>, parents: Map<u64, u64>, n: int)
    requires
        0 <= n <= children.len(),
        n <= usize::MAX,
    ensures
        vector_component_spec(entity, children, parents, n) is None <==> forall|j: int|
            0 <= j < n ==> find_ancestor_spec(
                parents,
                Set::empty().insert(#[trigger] children[j]),
                entity,
                MAX_ANCESTOR_DEPTH as nat,
            ) is None,
        vector_component_spec(entity, children, parents, n) matches Some(i) ==> {
            &&& 0 <= i < n
            &&& find_ancestor_spec(
                parents,
                Set::empty().insert(children[i as int]),
                entity,
                MAX_ANCESTOR_DEPTH as nat,
            ) is Some
            &&& forall|j: int|
                0 <= j < i ==> find_ancestor_spec(
                    parents,
                    Set::empty().insert(#[trigger] children[j]),
                    entity,
                    MAX_ANCESTOR_DEPTH as nat,
                ) is None
        },
    decreases n,
{
    if n > 0 {
        lemma_vector_component_first(entity, children, parents, n - 1);
    }
}

proof fn lemma_vector_component_stays(entity: u64, children: Seq<u64>, parents: Map<u64, u64>, m: int, n: int)
    requires
        0 <= m <= n,
        vector_component_spec(entity, children, parents, m) is Some,
    ensures
        vector_component_spec(entity, children, parents, n) == vector_component_spec(
            entity,
            children,
            parents,
            m,
        ),
    decreases n - m,
{
    if m < n {
        lemma_vector_component_stays(entity, children, parents, m, n - 1);
    }
}

/// A found ancestor is marked, and it is reached from the start entity by
/// fewer parent steps than the depth allowed, every entity before it on the
/// way being unmarked.
pub proof fn lemma_found_ancestor_is_nearest_marked(
    parents: Map<u64, u64>,
    marked: Set<u64>,
    e: u64,
    depth: nat,
)
    ensures
        match find_ancestor_spec(parents, marked, e, depth) {
            Some(a) => {
                &&& marked.contains(a)
                &&& exists|k: nat|
                    k < depth && #[trigger] ancestor_at(parents, e, k) == Some(a) && forall|j: nat|
                        j < k ==> (#[trigger] ancestor_at(parents, e, j) matches Some(x)
                            && !marked.contains(x))
            },
            None => forall|k: nat|
                k < depth ==> !(#[trigger] ancestor_at(parents, e, k) matches Some(x)
                    && marked.contains(x)),
        },
    decreases depth,
{
    if depth == 0 {
    } else if marked.contains(e) {
        assert(ancestor_at(parents, e, 0) == Some(e));
    } else if parents.dom().contains(e) {
        let p = parents[e];
        lemma_found_ancestor_is_nearest_marked(parents, marked, p, (depth - 1) as nat);
        assert forall|k: nat| #[trigger] ancestor_at(parents, e, k + 1) == ancestor_at(
            parents,
            p,
            k,
        ) by {
            lemma_ancestor_shift(parents, e, k);
        }
        match find_ancestor_spec(parents, marked, p, (depth - 1) as nat) {
            Some(a) => {
                let k = choose|k: nat|
                    k < depth - 1 && #[trigger] ancestor_at(parents, p, k) == Some(a) && forall|
                        j: nat,
                    |
                        j < k ==> (#[trigger] ancestor_at(parents, p, j) matches Some(x)
                            && !marked.contains(x));
                assert(ancestor_at(parents, e, k + 1) == Some(a));
                assert forall|j: nat| j < k + 1 implies (#[trigger] ancestor_at(
                    parents,
                    e,
                    j,
                ) matches Some(x) && !marked.contains(x)) by {
                    if j > 0 {
                        assert(ancestor_at(parents, e, ((j - 1) + 1) as nat) == ancestor_at(
                            parents,
                            p,
                            (j - 1) as nat,
                        ));
                    }
                }
            },
            None => {
                assert forall|k: nat| k < depth implies !(#[trigger] ancestor_at(
                    parents,
                    e,
                    k,
                ) matches Some(x) && marked.contains(x)) by {
                    if k > 0 {
                        assert(ancestor_at(parents, e, ((k - 1) + 1) as nat) == ancestor_at(
                            parents,
                            p,
                            (k - 1) as nat,
                        ));
                    }
                }
            },
        }
    } else {
        assert forall|k: nat| k < depth implies !(#[trigger] ancestor_at(parents, e, k) matches Some(
            x,
        ) && marked.contains(x)) by {
            if k > 0 {
                lemma_no_parent_no_ancestor(parents, e, k);
            }
        }
    }
}

proof fn lemma_ancestor_shift(parents: Map<u64, u64>, e: u64, k: nat)
    requires
        parents.dom().contains(e),
    ensures
        ancestor_at(parents, e, k + 1) == ancestor_at(parents, parents[e], k),
    decreases k,
{
    let p = parents[e];
    if k == 0 {
        assert(ancestor_at(parents, e, 0) == Some(e));
        assert(ancestor_at(parents, e, 1) == Some(p));
    } else {
        let k1 = (k - 1) as nat;
        lemma_ancestor_shift(parents, e, k1);
        assert(ancestor_at(parents, e, k1 + 1) == ancestor_at(parents, p, k1));
        assert((k1 + 1) as nat == k);
        let a = ancestor_at(parents, e, k);
        assert(ancestor_at(parents, e, k + 1) == match a {
            Some(x) => if parents.dom().contains(x) {
                Some(parents[x])
            } else {
                None
            },
            None => None,
        });
        assert(ancestor_at(parents, p, k) == match ancestor_at(parents, p, k1) {
            Some(x) => if parents.dom().contains(x) {
                Some(parents[x])
            } else {
                None
            },
            None => None,
        });
    }
}

proof fn lemma_no_parent_no_ancestor(parents: Map<u64, u64>, e: u64, k: nat)
    requires
        !parents.dom().contains(e),
        k > 0,
    ensures
        ancestor_at(parents, e, k) is None,
    decreases k,
{
    let k1 = (k - 1) as nat;
    if k1 > 0 {
        lemma_no_parent_no_ancestor(parents, e, k1);
    } else {
        assert(ancestor_at(parents, e, 0) == Some(e));
    }
    assert(ancestor_at(parents, e, k) == match ancestor_at(parents, e, k1) {
        Some(x) => if parents.dom().contains(x) {
            Some(parents[x])
        } else {
            None
        },
        None => None,
    });
}

} // verus!
