//! Random seeds for emitters that replay the same simulation.

use vstd::prelude::*;

verus! {

/// The seed taken from a clock reading in nanoseconds: its low 32 bits.
pub fn seed_from_nanos(nanos: u128) -> (s: u32)
    ensures
        s == nanos % 0x1_0000_0000,
{
    (nanos % 0x1_0000_0000) as u32
}

/// The seed after the fixed-seed switch is edited (`was_fixed` before,
/// `use_fixed` after), with `fresh` the seed drawn for the occasion: a seed
/// of zero is replaced by `fresh` when the switch is turned on.  The second
/// part tells whether the seed changed.
pub open spec fn seed_after_toggle_spec(was_fixed: bool, use_fixed: bool, seed: u32, fresh: u32) -> (u32, bool) {
    if use_fixed && !was_fixed && seed == 0 {
        (fresh, true)
    } else {
        (seed, false)
    }
}

/// Editing the switch changes the seed only when it turns the switch on
/// while the seed is zero, and then to the fresh seed; any other edit keeps
/// the seed, and the second part says exactly whether the seed changed.
pub proof fn lemma_seed_toggle(was_fixed: bool, use_fixed: bool, seed: u32, fresh: u32)
    ensures
        seed_after_toggle_spec(was_fixed, use_fixed, seed, fresh).1 <==> (use_fixed && !was_fixed
            && seed == 0),
        seed_after_toggle_spec(was_fixed, use_fixed, seed, fresh).0 == (if use_fixed && !was_fixed
            && seed == 0 {
            fresh
        } else {
            seed
        }),
        seed != 0 ==> seed_after_toggle_spec(was_fixed, use_fixed, seed, fresh) == (seed, false),
        !use_fixed ==> seed_after_toggle_spec(was_fixed, use_fixed, seed, fresh) == (seed, false),
        was_fixed ==> seed_after_toggle_spec(was_fixed, use_fixed, seed, fresh) == (seed, false),
{
}

/// See `seed_after_toggle_spec`.
pub fn seed_after_toggle(was_fixed: bool, use_fixed: bool, seed: u32, fresh: u32) -> (r: (u32, bool))
    ensures
        r == seed_after_toggle_spec(was_fixed, use_fixed, seed, fresh),
{
    if use_fixed && !was_fixed && seed == 0 {
        (fresh, true)
    } else {
        (seed, false)
    }
}

} // verus!
