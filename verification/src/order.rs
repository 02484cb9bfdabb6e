//! What "greater" means for a type that can be compared, and the largest
//! item of a list under it.

use core::cmp::Ordering;
use vstd::prelude::*;
use vstd::std_specs::cmp::PartialOrdSpec;

verus! {

/// Whether comparing values of the type follows the type's own statement of
/// its order.
pub open spec fn ordered<T: PartialOrd>() -> bool {
    T::obeys_partial_cmp_spec()
}

/// Whether `a` compares greater than `b`.
pub open spec fn greater<T: PartialOrd>(a: T, b: T) -> bool {
    a.partial_cmp_spec(&b) == Some(Ordering::Greater)
}

/// The largest of the first `n` items of a non-empty list: the first item,
/// replaced in turn by each item that compares greater than the largest so
/// far.
pub open spec fn largest_so_far<T: PartialOrd>(list: Seq<T>, n: int) -> T
    decreases n,
{
    if n <= 0 {
        list[0]
    } else {
        let before = largest_so_far(list, n - 1);
        if greater(list[n - 1], before) {
            list[n - 1]
        } else {
            before
        }
    }
}

/// The largest item of a non-empty list.
pub open spec fn largest_of<T: PartialOrd>(list: Seq<T>) -> T {
    largest_so_far(list, list.len() as int)
}

} // verus!
