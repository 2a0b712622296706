//! Copies of values that keep what the value stands for.

use vstd::prelude::*;

verus! {

/// A value that can be copied so that the copy stands for the same thing.
pub trait Duplicate: DeepView + Sized {
    /// Returns a copy with the same deep view.
    fn duplicate(&self) -> (copy: Self)
        ensures
            copy.deep_view() == self.deep_view(),
    ;
}

impl Duplicate for String {
    fn duplicate(&self) -> (copy: Self) {
        self.clone()
    }
}

impl<T: Duplicate> Duplicate for Option<T> {
    fn duplicate(&self) -> (copy: Self) {
        match self {
            Some(value) => Some(value.duplicate()),
            None => None,
        }
    }
}

impl<T: Duplicate> Duplicate for Vec<T> {
    fn duplicate(&self) -> (copy: Self) {
        duplicate_slice(self.as_slice())
    }
}

/// Returns a vector of copies of the elements of `values`, in order.
pub fn duplicate_slice<T: Duplicate>(values: &[T]) -> (copy: Vec<T>)
    ensures
        copy.deep_view() == Seq::new(values@.len(), |i: int| values@[i].deep_view()),
{
    let mut copy: Vec<T> = Vec::new();
    let mut index: usize = 0;
    while index < values.len()
        invariant
            index <= values@.len(),
            copy@.len() == index,
            forall|i: int|
                0 <= i < index ==> #[trigger] copy@[i].deep_view() == values@[i].deep_view(),
        decreases values@.len() - index,
    {
        copy.push(values[index].duplicate());
        index += 1;
    }
    assert(copy.deep_view() =~= Seq::new(values@.len(), |i: int| values@[i].deep_view()));
    copy
}

} // verus!
