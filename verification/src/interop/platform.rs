use super::fn_ptr::TgeAddr;
use vstd::prelude::*;

verus! {

/// The two builds of the foreign binary, which differ in how a method takes
/// its object and in where every function stands.
#[derive(Debug, Clone, Copy, PartialEq, Eq, Structural)]
pub enum Platform {
    /// A method takes its object in a register, and a second register is
    /// passed along unused.
    Windows,
    /// A method is a plain function whose first argument is its object.
    MacOs,
}

impl Platform {
    /// Whether a method call passes an unused register after the object.
    pub open spec fn has_hidden_register(self) -> bool {
        self is Windows
    }

    /// Whether a method call passes an unused register after the object.
    pub fn hidden_register(self) -> (hidden: bool)
        ensures
            hidden == self.has_hidden_register(),
    {
        match self {
            Platform::Windows => true,
            Platform::MacOs => false,
        }
    }
}

/// Of the two addresses that one item has, the one for `platform`.
pub open spec fn address_for(platform: Platform, windows: usize, macos: usize) -> usize {
    match platform {
        Platform::Windows => windows,
        Platform::MacOs => macos,
    }
}

/// The address of the field that stands `offset` bytes into the object at
/// `object`.
pub fn field_ptr(object: usize, offset: TgeAddr) -> (address: usize)
    requires
        object + offset.0 <= usize::MAX,
    ensures
        address == object + offset.0,
{
    object + offset.0
}

/// Picks the address of an item for `platform`.
pub fn tge_addr(platform: Platform, windows: usize, macos: usize) -> (address: TgeAddr)
    ensures
        address.0 == address_for(platform, windows, macos),
{
    match platform {
        Platform::Windows => TgeAddr(windows),
        Platform::MacOs => TgeAddr(macos),
    }
}


/// One argument of a call into the foreign binary, as a machine word.
#[derive(Debug, Clone, Copy, PartialEq, Eq, Structural)]
pub enum Value {
    /// A null pointer.
    Null,
    /// The address of an object or of a buffer.
    Address(usize),
    Bool(bool),
    Int(i32),
    UInt(u32),
}

/// A call into the foreign binary: the address called and the arguments, in
/// the order in which the callee declares them.
#[derive(Debug, Clone, PartialEq, Eq)]
pub struct Call {
    pub function: usize,
    pub args: Vec<Value>,
}

/// The arguments of a method call on the object at `target`: the object
/// first, then, where the platform has it, a null pointer for the unused
/// register, then what the method declares.
pub open spec fn method_args(platform: Platform, target: usize, args: Seq<Value>) -> Seq<Value> {
    if platform.has_hidden_register() {
        seq![Value::Address(target), Value::Null] + args
    } else {
        seq![Value::Address(target)] + args
    }
}

/// Builds the call of the method at `method` on the object at `target`.
pub fn mcall(platform: Platform, method: usize, target: usize, args: Vec<Value>) -> (call: Call)
    ensures
        call.function == method,
        call.args@ == method_args(platform, target, args@),
{
    let mut all = args;
    if platform.hidden_register() {
        all.insert(0, Value::Null);
    }
    all.insert(0, Value::Address(target));
    assert(all@ =~= method_args(platform, target, args@));
    Call { function: method, args: all }
}

/// Where the unused register is passed, a method call has one argument more
/// than the object and what the method declares; the added one is null and
/// stands right after the object. Elsewhere nothing is added.
pub proof fn lemma_method_args_shape(platform: Platform, target: usize, args: Seq<Value>)
    ensures
        method_args(platform, target, args)[0] == Value::Address(target),
        platform.has_hidden_register() ==> {
            &&& method_args(platform, target, args).len() == args.len() + 2
            &&& method_args(platform, target, args)[1] == Value::Null
            &&& forall|i: int|
                0 <= i < args.len() ==> #[trigger] method_args(platform, target, args)[i + 2]
                    == args[i]
        },
        !platform.has_hidden_register() ==> {
            &&& method_args(platform, target, args).len() == args.len() + 1
            &&& forall|i: int|
                0 <= i < args.len() ==> #[trigger] method_args(platform, target, args)[i + 1]
                    == args[i]
        },
{
}

} // verus!
