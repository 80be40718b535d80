//! Views of values held in a `Vec` or an `Option`.

use vstd::prelude::*;

verus! {

/// The views of a sequence of values, in order.
pub open spec fn views<T: View>(items: Seq<T>) -> Seq<T::V> {
    items.map_values(|item: T| item@)
}

/// The view of a value, where there is one.
pub open spec fn optional_view<T: View>(item: Option<T>) -> Option<T::V> {
    match item {
        Some(value) => Some(value@),
        None => None,
    }
}

/// The views of a sequence of values, where there is one.
pub open spec fn optional_views<T: View>(items: Option<Vec<T>>) -> Option<Seq<T::V>> {
    match items {
        Some(list) => Some(views(list@)),
        None => None,
    }
}

/// A copy of a list, item by item.
pub(crate) fn copy_list<T: View + Clone>(items: &Vec<T>) -> (copy: Vec<T>)
    requires
        forall|a: T, b: T| cloned(a, b) ==> a@ == b@,
    ensures
        views(copy@) == views(items@),
{
    let copy = items.clone();
    proof {
        assert(views(copy@) =~= views(items@));
    }
    copy
}

} // verus!
