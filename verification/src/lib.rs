//! Typed access to a foreign engine's functions, statics and dispatch tables,
//! and the rules by which calls into it are redirected.

pub mod con;
pub mod engine_core;
pub mod dgl;
pub mod expand;
pub mod game;
pub mod gl;
pub mod interop;
pub mod logger;
pub mod math;
pub mod plugin;
pub mod rust_plugin;
pub mod sim;
pub mod speed_boostair;
pub mod texture_size_fix;
pub mod ts;
pub mod util;

pub use plugin::{
    entry_next, Callback, EntryAction, EntryEvent, EntryState, HostCall, InterceptRequest,
    InterceptState, Interception, Plugin, Status, MBX_PLUGIN_INTERFACE_VERSION,
};
