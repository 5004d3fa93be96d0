//! The largest element of a list.
use vstd::prelude::*;

verus! {

/// The largest value in `list`.
pub fn largest(list: &[i32]) -> (r: i32)
    requires
        list@.len() > 0,
    ensures
        list@.contains(r),
        forall|i: int| 0 <= i < list@.len() ==> list@[i] <= r,
{
    let mut largest: i32 = list[0];
    let mut i: usize = 0;
    while i < list.len()
        invariant
            i <= list@.len(),
            list@.contains(largest),
            forall|j: int| 0 <= j < i ==> list@[j] <= largest,
        decreases list@.len() - i,
    {
        if list[i] > largest {
            largest = list[i];
        }
        i = i + 1;
    }
    largest
}

/// A reference to the first occurrence of the largest value in `list`.
pub fn largest_ex(list: &[i32]) -> (r: &i32)
    requires
        list@.len() > 0,
    ensures
        exists|k: int|
            0 <= k < list@.len() && list@[k] == *r && forall|j: int| 0 <= j < k ==> list@[j] < *r,
        forall|i: int| 0 <= i < list@.len() ==> list@[i] <= *r,
{
    let mut best: usize = 0;
    let mut i: usize = 0;
    while i < list.len()
        invariant
            i <= list@.len(),
            best < list@.len(),
            i > 0 ==> best < i,
            best <= i,
            forall|j: int| 0 <= j < i ==> list@[j] <= list@[best as int],
            forall|j: int| 0 <= j < best ==> list@[j] < list@[best as int],
        decreases list@.len() - i,
    {
        if list[i] > list[best] {
            best = i;
        }
        i = i + 1;
    }
    &list[best]
}

} // verus!
