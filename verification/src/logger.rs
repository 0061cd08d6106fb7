//! The console as the place where the plugin's log goes.

use crate::con::print::Sink;
use crate::plugin::Plugin;
use vstd::prelude::*;

verus! {

/// How grave a record of the log is.
#[derive(Debug, Clone, Copy, PartialEq, Eq, Structural)]
pub enum Level {
    Error,
    Warn,
    Info,
    Debug,
    Trace,
}

/// The least grave level that is still logged.
#[derive(Debug, Clone, Copy, PartialEq, Eq, Structural)]
pub enum LevelFilter {
    Off,
    Error,
    Warn,
    Info,
    Debug,
    Trace,
}

/// What stands between the name of the plugin and the text of a record.
pub open spec fn tag_of(level: Level) -> Seq<char> {
    match level {
        Level::Error | Level::Warn | Level::Info => ""@,
        Level::Debug => "DEBUG: "@,
        Level::Trace => "TRACE: "@,
    }
}

/// The way in which the console shows a record: errors as errors, warnings
/// as warnings, everything else as an ordinary message.
pub open spec fn sink_of(level: Level) -> Sink {
    match level {
        Level::Error => Sink::Error,
        Level::Warn => Sink::Warn,
        _ => Sink::Print,
    }
}

/// The line that a record makes: the name of the plugin, a colon and a
/// space, the tag of the level, the text.
pub open spec fn line_text(plugin_name: Seq<char>, level: Level, text: Seq<char>) -> Seq<char> {
    plugin_name + ": "@ + tag_of(level) + text
}

/// The level from which on records are logged: everything in a debug build
/// or with a local build of the host loader, else nothing below `Info`.
pub open spec fn max_level(debug_build: bool, build_pipeline: i32) -> LevelFilter {
    if debug_build || build_pipeline == 0 {
        LevelFilter::Trace
    } else {
        LevelFilter::Info
    }
}

/// Writes the log of a plugin to the console.
#[derive(Debug, Clone, Copy, PartialEq, Eq)]
pub struct ConsoleLogger {
    plugin_name: &'static str,
}

impl ConsoleLogger {
    /// The name that every line begins with.
    pub closed spec fn name(&self) -> Seq<char> {
        self.plugin_name@
    }

    /// Every record is taken.
    pub fn enabled(&self) -> (yes: bool)
        ensures
            yes,
    {
        true
    }

    /// Makes the line of a record of `level` whose text is `text`, and tells
    /// how the console is to show it.
    pub fn log(&self, level: Level, text: &str) -> (r: (Sink, String))
        ensures
            r.0 == sink_of(level),
            r.1@ == line_text(self.name(), level, text@),
    {
        let tag = match level {
            Level::Error | Level::Warn | Level::Info => "",
            Level::Debug => "DEBUG: ",
            Level::Trace => "TRACE: ",
        };
        let msg = String::from_str(self.plugin_name).concat(": ").concat(tag).concat(text);
        let sink = match level {
            Level::Error => Sink::Error,
            Level::Warn => Sink::Warn,
            Level::Info => Sink::Print,
            Level::Debug => Sink::Print,
            Level::Trace => Sink::Print,
        };
        (sink, msg)
    }
}

/// Sets the TGE console as the active logger: hands out the logger for
/// `plugin` and the level from which on it is to be asked.
pub fn init(plugin: &Plugin, debug_build: bool) -> (r: (ConsoleLogger, LevelFilter))
    ensures
        r.0.name() == plugin.name_of()@,
        r.1 == max_level(debug_build, plugin.pipeline_of()),
{
    let logger = ConsoleLogger { plugin_name: plugin.name() };
    let filter = if debug_build || plugin.build_pipeline() == 0 {
        LevelFilter::Trace
    } else {
        LevelFilter::Info
    };
    (logger, filter)
}

} // verus!
