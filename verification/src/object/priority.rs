//! Command priority arrays: sixteen slots, slot 1 the highest priority.
//! The value in force is the one in the highest non-empty slot, or the
//! relinquish default where every slot is empty.

use vstd::prelude::*;

verus! {

/// The first non-empty slot of `a` at or after `i`, as an index.
pub open spec fn first_slot<T>(a: Seq<Option<T>>, i: int) -> Option<int>
    decreases a.len() - i,
{
    if i < 0 || i >= a.len() {
        None
    } else if a[i] is Some {
        Some(i)
    } else {
        first_slot(a, i + 1)
    }
}

/// The value in force for a priority array with relinquish default `d`.
pub open spec fn commanded_value<T>(a: Seq<Option<T>>, d: T) -> T {
    match first_slot(a, 0) {
        Some(i) => a[i].unwrap(),
        None => d,
    }
}

/// The priority level (1-16) of the slot in force, if any.
pub open spec fn effective_priority<T>(a: Seq<Option<T>>) -> Option<u8> {
    match first_slot(a, 0) {
        Some(i) => Some((i + 1) as u8),
        None => None,
    }
}

/// The slot found is non-empty, and every slot before it is empty.
pub proof fn lemma_first_slot<T>(a: Seq<Option<T>>, i: int)
    requires
        0 <= i,
    ensures
        first_slot(a, i) matches Some(k) ==> i <= k < a.len() && a[k] is Some
            && forall|j: int| i <= j < k ==> a[j] is None,
        first_slot(a, i) is None ==> forall|j: int| i <= j < a.len() ==> a[j] is None,
    decreases a.len() - i,
{
    if i < a.len() && a[i] is None {
        lemma_first_slot(a, i + 1);
    }
}

/// The value in force is that of the slot at the effective priority, or
/// the relinquish default where there is none.
pub proof fn lemma_commanded_by_effective_priority<T>(a: Seq<Option<T>>, d: T)
    requires
        a.len() == 16,
    ensures
        effective_priority(a) matches Some(p) ==> 1 <= p <= 16 && commanded_value(a, d) == a[p - 1].unwrap(),
        effective_priority(a) is None ==> commanded_value(a, d) == d,
{
    lemma_first_slot(a, 0);
}

/// Writing a value at a level above every occupied one puts that value in
/// force at that level.
pub proof fn lemma_highest_write_commands<T>(a: Seq<Option<T>>, d: T, k: int, v: T)
    requires
        a.len() == 16,
        0 <= k < 16,
        forall|j: int| 0 <= j < k ==> a[j] is None,
    ensures
        commanded_value(a.update(k, Some(v)), d) == v,
        effective_priority(a.update(k, Some(v))) == Some((k + 1) as u8),
{
    let b = a.update(k, Some(v));
    lemma_first_slot(b, 0);
    assert(b[k] is Some);
    match first_slot(b, 0) {
        Some(i) => {
            assert(i == k);
        },
        None => {
            assert(b[k] is None);
        },
    }
}

/// The value in force for a sixteen-slot priority array.
pub fn commanded<T: Copy>(a: &[Option<T>; 16], d: T) -> (r: T)
    ensures
        r == commanded_value(a@, d),
{
    let mut i: usize = 0;
    while i < 16
        invariant
            i <= 16,
            a@.len() == 16,
            first_slot(a@, 0) == first_slot(a@, i as int),
        decreases 16 - i,
    {
        if let Some(v) = a[i] {
            return v;
        }
        i = i + 1;
    }
    d
}

/// The priority level (1-16) in force for a sixteen-slot priority array.
pub fn effective_level<T>(a: &[Option<T>; 16]) -> (r: Option<u8>)
    ensures
        r == effective_priority(a@),
{
    let mut i: usize = 0;
    while i < 16
        invariant
            i <= 16,
            a@.len() == 16,
            first_slot(a@, 0) == first_slot(a@, i as int),
        decreases 16 - i,
    {
        if a[i].is_some() {
            return Some((i + 1) as u8);
        }
        i = i + 1;
    }
    None
}

} // verus!
