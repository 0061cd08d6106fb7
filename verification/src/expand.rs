//! What each attribute of the library does to the item it is written on,
//! stated on a token-free picture of that item.

pub mod calls;
pub mod command;
pub mod entry;
pub mod item;
pub mod layout;
pub mod meta;
pub mod overrides;

pub use calls::{expand_calls, ExpandMethodCalls, Expr};
pub use command::{command, CommandExpansion};
pub use entry::{plugin_main, PluginMainExpansion};
pub use item::{Abi, ExpandError, Field, Fields, FnItem, Param, ReturnType, StructItem, Visibility};
pub use layout::{
    inherits, virtual_destructor, vtable, DropExpansion, InheritsExpansion, LibraryPath,
    VtableExpansion,
};
pub use meta::{
    unrecognized, ConsoleFnMeta, MetaEntry, MetaError, MetaItem, MetaLit, MetaValue,
};
pub use overrides::{
    can_expand, fn_override, method, method_override, MethodOverrideExpansion, OverrideExpansion,
};
