use vstd::prelude::*;

verus! {

/// Returns `n + 1`.
pub fn increment(n: i64) -> (r: i64)
    requires
        n < i64::MAX,
    ensures
        r == n + 1,
{
    n + 1
}

/// Returns whether `n` is non-negative (zero counts as positive).
pub fn is_positive(n: i64) -> (r: bool)
    ensures
        r == (n >= 0),
{
    if n >= 0 {
        true
    } else {
        false
    }
}

/// Pushes `value` onto the end of `collection`.
pub fn append(value: i64, collection: &mut Vec<i64>)
    ensures
        final(collection)@ == old(collection)@.push(value),
{
    collection.push(value)
}

/// Returns whether `value` occurs anywhere in `collection`.
pub fn exists_in(value: i64, collection: &Vec<i64>) -> (r: bool)
    ensures
        r == collection@.contains(value),
{
    let mut i: usize = 0;
    while i < collection.len()
        invariant
            0 <= i <= collection@.len(),
            forall|j: int| 0 <= j < i ==> collection@[j] != value,
        decreases collection@.len() - i,
    {
        if collection[i] == value {
            assert(collection@[i as int] == value);
            return true;
        }
        i = i + 1;
    }
    false
}

/// The first element of `v`, or `None` when `v` is empty.
pub fn first_of(v: &Vec<i64>) -> (r: Option<i64>)
    ensures
        v@.len() == 0 ==> r == None::<i64>,
        v@.len() > 0 ==> r == Some(v@[0]),
{
    if v.len() == 0 {
        None
    } else {
        Some(v[0])
    }
}

} // verus!
