//! Vectors and the sequences they stand for.

use vstd::prelude::*;

verus! {

/// Whether `views` holds the views of `items`, one by one and in order.
pub open spec fn views_are<T: View>(items: Seq<T>, views: Seq<T::V>) -> bool {
    &&& items.len() == views.len()
    &&& forall|i: int| 0 <= i < items.len() ==> (#[trigger] items[i])@ == views[i]
}

} // verus!
