use vstd::prelude::*;
use vstd::slice::slice_subrange;

verus! {

/// A lightweight Torque vector which does not manage its own memory: a
/// window of `len` elements at the front of storage that it was lent.
#[derive(Debug)]
pub struct ToolVec<'a, T> {
    storage: &'a [T],
    size: u32,
}

impl<'a, T> View for ToolVec<'a, T> {
    type V = Seq<T>;

    closed spec fn view(&self) -> Seq<T> {
        self.storage@.take(self.size as int)
    }
}

impl<'a, T> ToolVec<'a, T> {
    #[verifier::type_invariant]
    spec fn within_storage(&self) -> bool {
        self.size <= self.storage@.len()
    }

    /// Everything that the vector was lent.
    pub closed spec fn lent(&self) -> Seq<T> {
        self.storage@
    }

    /// Constructs a new vector from storage and a size.
    pub fn new(storage: &'a [T], size: u32) -> (vec: Self)
        requires
            size <= storage@.len(),
        ensures
            vec@ == storage@.take(size as int),
            vec.lent() == storage@,
    {
        Self { storage, size }
    }

    /// Constructs a new vector over a slice.
    pub fn from_slice(slice: &'a [T]) -> (vec: Self)
        requires
            slice@.len() <= u32::MAX,
        ensures
            vec@ == slice@,
            vec.lent() == slice@,
    {
        let vec = Self { storage: slice, size: slice.len() as u32 };
        assert(slice@.take(slice@.len() as int) =~= slice@);
        vec
    }

    /// Returns a slice covering the vector.
    pub fn as_slice(&self) -> (slice: &'a [T])
        ensures
            slice@ == self@,
    {
        proof {
            use_type_invariant(self);
        }
        slice_subrange(self.storage, 0, self.size as usize)
    }

    /// Returns `true` if the vector is empty.
    pub fn is_empty(&self) -> (empty: bool)
        ensures
            empty == (self@.len() == 0),
    {
        proof {
            use_type_invariant(self);
        }
        self.size == 0
    }

    /// Returns the length of the vector.
    pub fn len(&self) -> (n: u32)
        ensures
            n == self@.len(),
    {
        proof {
            use_type_invariant(self);
        }
        self.size
    }

    /// Sets the length of the vector, within what it was lent.
    pub fn set_len(&mut self, len: u32)
        requires
            len <= old(self).lent().len(),
        ensures
            final(self).lent() == old(self).lent(),
            final(self)@ == old(self).lent().take(len as int),
    {
        self.size = len
    }
}

impl<'a, T> Clone for ToolVec<'a, T> {
    fn clone(&self) -> (copy: Self)
        ensures
            copy@ == self@,
            copy.lent() == self.lent(),
    {
        proof {
            use_type_invariant(self);
        }
        ToolVec { storage: self.storage, size: self.size }
    }
}

impl<'a, T> Copy for ToolVec<'a, T> {

}

} // verus!
