//! The engine's console: objects, commands and output.

pub mod command;
pub mod object;
pub mod print;

pub use command::{
    add_command, add_command_bool, add_command_float, add_command_int, add_command_str,
    add_command_void, add_method_bool, add_method_float, add_method_int, add_method_str,
    add_method_void, collect_args, get_return_buffer, is_passable, is_registrable, Command,
    CommandFn, CommandKind, Registration, RegistrationEntry,
};
pub use object::{ConsoleObject, ConsoleObjectVtable, SimObject, SimObjectVtable};
pub use print::{error, print, warn, ConsoleLine, Sink};
