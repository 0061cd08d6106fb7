use core::marker::PhantomData;
use vstd::prelude::*;

verus! {

/// An absolute address inside the foreign binary.
#[derive(Debug, Clone, Copy, PartialEq, Eq)]
pub struct TgeAddr(pub usize);

/// An address that stands for a function of signature `T` in the foreign
/// binary. The handle never reads or calls through the address: it only
/// carries it, tagged with the signature the caller asserts for it.
#[derive(Debug)]
pub struct FnPtr<T> {
    address: usize,
    phantom: PhantomData<T>,
}

impl<T> FnPtr<T> {
    /// The address this handle carries.
    pub closed spec fn addr(&self) -> usize {
        self.address
    }

    /// Builds a handle for the function at `address`. Any address is accepted.
    pub fn new(address: TgeAddr) -> (handle: Self)
        ensures
            handle.addr() == address.0,
    {
        FnPtr::<T> { address: address.0, phantom: PhantomData }
    }

    /// Returns the address given at construction.
    pub fn address(&self) -> (a: usize)
        ensures
            a == self.addr(),
    {
        self.address
    }
}

impl<T> Clone for FnPtr<T> {
    fn clone(&self) -> (copy: Self)
        ensures
            copy.addr() == self.addr(),
    {
        FnPtr::<T> { address: self.address, phantom: PhantomData }
    }
}

impl<T> Copy for FnPtr<T> {

}

} // verus!
