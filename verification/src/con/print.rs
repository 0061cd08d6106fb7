use super::command::passable;
use crate::interop::fn_ptr::TgeAddr;
use crate::interop::platform::{address_for, tge_addr, Platform};
use vstd::prelude::*;

verus! {

/// The three ways in which the console shows a line.
#[derive(Debug, Clone, Copy, PartialEq, Eq, Structural)]
pub enum Sink {
    /// As an ordinary message.
    Print,
    /// As a warning.
    Warn,
    /// As an error.
    Error,
}

impl Sink {
    /// Where the engine's function for this way stands in the build for
    /// Windows and in that for macOS.
    pub open spec fn addresses(self) -> (usize, usize) {
        match self {
            Sink::Print => (0x405984, 0x3AC20),
            Sink::Warn => (0x404b5b, 0x3B2A0),
            Sink::Error => (0x405763, 0x3B130),
        }
    }

    /// Returns where the engine's function for this way stands on
    /// `platform`.
    pub fn address(self, platform: Platform) -> (address: TgeAddr)
        ensures
            address.0 == address_for(platform, self.addresses().0, self.addresses().1),
    {
        match self {
            Sink::Print => tge_addr(platform, 0x405984, 0x3AC20),
            Sink::Warn => tge_addr(platform, 0x404b5b, 0x3B2A0),
            Sink::Error => tge_addr(platform, 0x405763, 0x3B130),
        }
    }
}

/// One line for the console: the function it goes through, the format, and
/// the message that the format takes.
#[derive(Debug, Clone, Copy, PartialEq, Eq)]
pub struct ConsoleLine<'a> {
    pub sink: Sink,
    pub format: &'static str,
    pub message: &'a str,
}

/// The line that shows `message` through `sink`: the message is handed over
/// as the one argument of a format that prints a text as it is, so that
/// nothing in the message is taken for a format.
pub open spec fn line_of<'a>(sink: Sink, message: &'a str) -> ConsoleLine<'a> {
    ConsoleLine { sink, format: "%s", message }
}

/// Prints a message to the console.
pub fn print<'a>(message: &'a str) -> (line: ConsoleLine<'a>)
    requires
        passable(message),
    ensures
        line == line_of(Sink::Print, message),
{
    ConsoleLine { sink: Sink::Print, format: "%s", message }
}

/// Prints a warning message to the console.
pub fn warn<'a>(message: &'a str) -> (line: ConsoleLine<'a>)
    requires
        passable(message),
    ensures
        line == line_of(Sink::Warn, message),
{
    ConsoleLine { sink: Sink::Warn, format: "%s", message }
}

/// Print an error message to the console.
pub fn error<'a>(message: &'a str) -> (line: ConsoleLine<'a>)
    requires
        passable(message),
    ensures
        line == line_of(Sink::Error, message),
{
    ConsoleLine { sink: Sink::Error, format: "%s", message }
}

} // verus!
