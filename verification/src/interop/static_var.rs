use super::fn_ptr::TgeAddr;
use core::marker::PhantomData;
use vstd::prelude::*;

verus! {

/// An address that stands for a global of type `T` in the foreign binary.
/// Like [`super::FnPtr`], the handle only carries the address.
#[derive(Debug)]
pub struct StaticVar<T> {
    address: usize,
    phantom: PhantomData<T>,
}

impl<T> StaticVar<T> {
    /// The address this handle carries.
    pub closed spec fn addr(&self) -> usize {
        self.address
    }

    /// Builds a handle for the global at `address`. Any address is accepted.
    pub fn new(address: TgeAddr) -> (handle: Self)
        ensures
            handle.addr() == address.0,
    {
        StaticVar::<T> { address: address.0, phantom: PhantomData }
    }

    /// Returns the address given at construction.
    pub fn address(&self) -> (a: usize)
        ensures
            a == self.addr(),
    {
        self.address
    }
}

impl<T> Clone for StaticVar<T> {
    fn clone(&self) -> (copy: Self)
        ensures
            copy.addr() == self.addr(),
    {
        StaticVar::<T> { address: self.address, phantom: PhantomData }
    }
}

impl<T> Copy for StaticVar<T> {

}

} // verus!
