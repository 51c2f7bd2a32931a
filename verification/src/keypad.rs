//! The sixteen-key keypad.

use vstd::prelude::*;

verus! {

/// Number of keys on the keypad.
pub const NUM_KEYS: usize = 16;

/// Whether any key is down.
pub open spec fn any_key(keys: Seq<bool>) -> bool {
    exists|k: int| 0 <= k < keys.len() && #[trigger] keys[k]
}

/// Whether key `k` is down and no key with a smaller number is.
pub open spec fn is_lowest_key(keys: Seq<bool>, k: int) -> bool {
    &&& 0 <= k < keys.len()
    &&& keys[k]
    &&& forall|j: int| 0 <= j < k ==> !keys[j]
}

/// The smallest number of a key that is down.
pub open spec fn lowest_key(keys: Seq<bool>) -> int {
    choose|k: int| is_lowest_key(keys, k)
}

/// At most one key is the lowest one down.
pub proof fn lemma_lowest_key_unique(keys: Seq<bool>, k: int)
    requires
        is_lowest_key(keys, k),
    ensures
        lowest_key(keys) == k,
        any_key(keys),
{
}

/// Where any key is down, the lowest key is one that is down, with none
/// below it.
pub proof fn lemma_lowest_key_in_range(keys: Seq<bool>)
    requires
        any_key(keys),
    ensures
        is_lowest_key(keys, lowest_key(keys)),
{
    let some = choose|k: int| 0 <= k < keys.len() && #[trigger] keys[k];
    lemma_some_key_is_lowest(keys, some);
}

proof fn lemma_some_key_is_lowest(keys: Seq<bool>, k: int)
    requires
        0 <= k < keys.len(),
        keys[k],
    ensures
        exists|m: int| is_lowest_key(keys, m),
    decreases k,
{
    if exists|j: int| 0 <= j < k && keys[j] {
        let j = choose|j: int| 0 <= j < k && keys[j];
        lemma_some_key_is_lowest(keys, j);
    } else {
        assert(is_lowest_key(keys, k));
    }
}

/// Finds the lowest key that is down.
pub fn lowest_pressed(keys: &[bool; 16]) -> (found: Option<u8>)
    ensures
        match found {
            Some(k) => any_key(keys@) && k == lowest_key(keys@) && is_lowest_key(keys@, k as int),
            None => !any_key(keys@),
        },
{
    let mut k: u8 = 0;
    while k < 16 && !keys[k as usize]
        invariant
            k <= 16,
            forall|j: int| 0 <= j < k ==> !keys@[j],
        decreases 16 - k,
    {
        k += 1;
    }
    if k < 16 {
        proof {
            lemma_lowest_key_unique(keys@, k as int);
        }
        Some(k)
    } else {
        None
    }
}

} // verus!
