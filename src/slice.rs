use crate::ptr::ConstPtr;
use vstd::prelude::*;

verus! {

/// The parts of a pointer to a slice: where its first element is, and how
/// many elements it has.
pub struct FatPtr<T> {
    pub data: ConstPtr<T>,
    pub len: usize,
}

/// A pointer to a slice of `T`.
pub struct SlicePtr<T> {
    raw: FatPtr<T>,
}

impl<T> View for SlicePtr<T> {
    /// The address of the first element, and the number of elements.
    type V = (nat, nat);

    closed spec fn view(&self) -> (nat, nat) {
        (self.raw.data@, self.raw.len as nat)
    }
}

impl<T> SlicePtr<T> {
    /// The pointer to the `len` elements that start at `data`.
    pub fn from_raw_parts(data: ConstPtr<T>, len: usize) -> (r: SlicePtr<T>)
        ensures
            r@ == (data@, len as nat),
    {
        SlicePtr { raw: FatPtr { data, len } }
    }

    /// The parts of the pointer.
    pub fn to_raw_parts(self) -> (r: FatPtr<T>)
        ensures
            r.data@ == self@.0,
            r.len == self@.1,
    {
        self.raw
    }

    /// The number of elements of the slice.
    pub fn len(self) -> (r: usize)
        ensures
            r == self@.1,
    {
        let a = self.raw;
        a.len
    }

    /// The pointer to the first element of the slice.
    pub fn as_ptr(self) -> (r: ConstPtr<T>)
        ensures
            r@ == self@.0,
    {
        self.raw.data
    }
}

} // verus!
