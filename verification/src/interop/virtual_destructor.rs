use super::platform::{mcall, Call, Platform, Value};
use core::marker::PhantomData;
use vstd::prelude::*;

verus! {

/// The destructor slot of a dispatch table for objects of type `T`.
///
/// Where a method call passes the unused register, the slot is one entry: a
/// function that destroys the object and takes a flag that says whether to
/// free its memory too. Elsewhere the slot is two entries, one that destroys
/// and one that deletes.
#[derive(Debug)]
pub struct VirtualDestructor<T> {
    platform: Platform,
    destroy: usize,
    delete: usize,
    phantom: PhantomData<T>,
}

impl<T> VirtualDestructor<T> {
    /// The platform whose table the slot belongs to.
    pub closed spec fn platform(&self) -> Platform {
        self.platform
    }

    /// The address of the entry that destroys.
    pub closed spec fn destroy_entry(&self) -> usize {
        self.destroy
    }

    /// The address of the entry that deletes, where the slot has one.
    pub closed spec fn delete_entry(&self) -> usize {
        self.delete
    }

    /// The slot of a table of the platform that passes the unused register.
    pub fn flagged(destroy: usize) -> (slot: Self)
        ensures
            slot.platform() == Platform::Windows,
            slot.destroy_entry() == destroy,
    {
        VirtualDestructor { platform: Platform::Windows, destroy, delete: 0, phantom: PhantomData }
    }

    /// The slot of a table of the platform that calls methods as plain
    /// functions.
    pub fn split(destroy: usize, delete: usize) -> (slot: Self)
        ensures
            slot.platform() == Platform::MacOs,
            slot.destroy_entry() == destroy,
            slot.delete_entry() == delete,
    {
        VirtualDestructor { platform: Platform::MacOs, destroy, delete, phantom: PhantomData }
    }

    /// The calls that tear down the object at `obj`, in order: one call that
    /// destroys and is told not to free the memory, or one call that
    /// destroys followed by one that deletes.
    pub open spec fn teardown(&self, obj: usize) -> Seq<(usize, Seq<Value>)> {
        if self.platform().has_hidden_register() {
            seq![
                (
                    self.destroy_entry(),
                    seq![Value::Address(obj), Value::Null, Value::Bool(false)],
                ),
            ]
        } else {
            seq![
                (self.destroy_entry(), seq![Value::Address(obj)]),
                (self.delete_entry(), seq![Value::Address(obj)]),
            ]
        }
    }

    /// Builds the calls that tear down the object at `obj`.
    pub fn invoke(&self, obj: usize) -> (calls: Vec<Call>)
        ensures
            calls.len() == self.teardown(obj).len(),
            forall|i: int|
                0 <= i < calls.len() ==> (#[trigger] calls[i]).function == self.teardown(obj)[i].0
                    && calls[i].args@ == self.teardown(obj)[i].1,
    {
        let mut calls: Vec<Call> = Vec::new();
        if self.platform.hidden_register() {
            let mut args: Vec<Value> = Vec::new();
            args.push(Value::Bool(false));
            let call = mcall(self.platform, self.destroy, obj, args);
            assert(call.args@ =~= seq![Value::Address(obj), Value::Null, Value::Bool(false)]);
            calls.push(call);
        } else {
            let destroy = mcall(self.platform, self.destroy, obj, Vec::new());
            assert(destroy.args@ =~= seq![Value::Address(obj)]);
            calls.push(destroy);
            let delete = mcall(self.platform, self.delete, obj, Vec::new());
            assert(delete.args@ =~= seq![Value::Address(obj)]);
            calls.push(delete);
        }
        calls
    }
}

impl<T> Clone for VirtualDestructor<T> {
    fn clone(&self) -> (copy: Self)
        ensures
            copy.platform() == self.platform(),
            copy.destroy_entry() == self.destroy_entry(),
            copy.delete_entry() == self.delete_entry(),
    {
        VirtualDestructor {
            platform: self.platform,
            destroy: self.destroy,
            delete: self.delete,
            phantom: PhantomData,
        }
    }
}

impl<T> Copy for VirtualDestructor<T> {

}

} // verus!
