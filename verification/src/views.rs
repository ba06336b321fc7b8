//! Views of sequences, taken element by element.
use vstd::prelude::*;

verus! {

/// The view of every element of `s`, in order.
pub open spec fn each_view<T: View>(s: Seq<T>) -> Seq<T::V> {
    Seq::new(s.len(), |i: int| s[i]@)
}

/// Viewing distributes over concatenation.
pub proof fn each_view_concat<T: View>(a: Seq<T>, b: Seq<T>)
    ensures
        each_view(a + b) == each_view(a) + each_view(b),
{
}

} // verus!
