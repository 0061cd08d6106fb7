use crate::interop::fn_ptr::TgeAddr;
use crate::interop::platform::{address_for, mcall, method_args, tge_addr, Call, Platform, Value};
use crate::interop::vtable::{destructor, Slot, Vtable, VtableLayout};
use vstd::prelude::*;

verus! {

/// The table of a resource instance: its destructor and nothing else.
#[derive(Debug, Clone, Copy, PartialEq, Eq)]
pub struct ResourceInstanceVtable;

impl ResourceInstanceVtable {
    /// The slots of the table.
    pub open spec fn slots() -> Seq<Slot> {
        seq![destructor("ResourceInstance")]
    }

    /// Returns the slots of the table.
    pub fn layout() -> (layout: VtableLayout)
        ensures
            layout@ == Self::slots(),
    {
        let layout = VtableLayout::empty().with_destructor("ResourceInstance");
        assert(layout@ =~= Self::slots());
        layout
    }
}

/// The base of everything that the resource manager hands out: the address
/// of its dispatch table, then the address of the entry it was loaded for.
#[derive(Debug, Clone, Copy, PartialEq, Eq, Structural)]
pub struct ResourceInstance {
    pub vtable: usize,
    pub source_resource: usize,
}

impl Vtable for ResourceInstance {
    type Vtable = ResourceInstanceVtable;

    open spec fn table(&self) -> usize {
        self.vtable
    }

    fn vtable(&self) -> (address: usize) {
        self.vtable
    }
}

/// What the resource manager keeps of one file. Links and texts are held as
/// addresses.
#[derive(Debug, Clone, Copy, PartialEq, Eq, Structural)]
pub struct ResourceObject {
    pub prev: usize,
    pub next: usize,
    pub next_entry: usize,
    pub next_resource: usize,
    pub prev_resource: usize,
    pub flags: i32,
    pub path: usize,
    pub name: usize,
    pub zip_path: usize,
    pub zip_name: usize,
    pub file_offset: i32,
    pub file_size: i32,
    pub compressed_file_size: i32,
    pub instance: usize,
    pub lock_count: i32,
    pub crc: u32,
}

/// The engine's resource manager. Nothing of its contents is read here.
#[derive(Debug, Clone, Copy, PartialEq, Eq)]
pub struct ResManager {}

impl ResManager {
    /// Builds the call that makes the resource manager at `this` load files
    /// with the extension whose text stands at `extension` through the
    /// function at `func`.
    pub fn register_extension(this: usize, extension: usize, func: usize, platform: Platform)
        -> (call: Call)
        ensures
            call.function == address_for(platform, 0x408f21, 0x4b810),
            call.args@ == method_args(
                platform,
                this,
                seq![Value::Address(extension), Value::Address(func)],
            ),
    {
        let mut args: Vec<Value> = Vec::new();
        args.push(Value::Address(extension));
        args.push(Value::Address(func));
        assert(args@ =~= seq![Value::Address(extension), Value::Address(func)]);
        mcall(platform, tge_register_extension(platform).0, this, args)
    }
}

/// Where the method stands that makes the resource manager load files with
/// a given extension through a given function.
pub fn tge_register_extension(platform: Platform) -> (address: TgeAddr)
    ensures
        address.0 == address_for(platform, 0x408f21, 0x4b810),
{
    tge_addr(platform, 0x408f21, 0x4b810)
}

/// Where the engine keeps the address of its resource manager.
pub fn tge_resource_manager(platform: Platform) -> (address: TgeAddr)
    ensures
        address.0 == address_for(platform, 0x6a4064, 0x2da560),
{
    tge_addr(platform, 0x6a4064, 0x2da560)
}

} // verus!
