//! Addressed handles, write-once cells and dispatch-table descriptors.

pub mod fn_ptr;
pub mod original_fn;
pub mod platform;
pub mod static_var;
pub mod virtual_destructor;
pub mod vtable;

pub use fn_ptr::{FnPtr, TgeAddr};
pub use original_fn::{CellOp, OriginalFn};
pub use platform::{field_ptr, mcall, tge_addr, Call, Platform, Value};
pub use static_var::StaticVar;
pub use virtual_destructor::VirtualDestructor;
pub use vtable::{Slot, SlotKind, Vtable, VtableLayout};
