use crate::interop::fn_ptr::TgeAddr;
use crate::interop::platform::{address_for, tge_addr, Platform};
use vstd::prelude::*;
use vstd::string::StringSliceAdditionalSpecFns;
use vstd::utf8::{decode_utf8, valid_utf8};

verus! {

/// What a console function hands back to the engine.
#[derive(Debug, Clone, Copy, PartialEq, Eq, Structural)]
pub enum CommandKind {
    Bool,
    Float,
    Int,
    String,
    Void,
}

/// Enum which can hold any console function pointer, as the address of the
/// function.
#[derive(Debug, Clone, Copy, PartialEq, Eq, Structural)]
pub enum CommandFn {
    Bool(usize),
    Float(usize),
    Int(usize),
    String(usize),
    Void(usize),
}

impl CommandFn {
    /// What the function hands back.
    pub open spec fn kind_of(self) -> CommandKind {
        match self {
            CommandFn::Bool(_) => CommandKind::Bool,
            CommandFn::Float(_) => CommandKind::Float,
            CommandFn::Int(_) => CommandKind::Int,
            CommandFn::String(_) => CommandKind::String,
            CommandFn::Void(_) => CommandKind::Void,
        }
    }

    /// Where the function stands.
    pub open spec fn address_of(self) -> usize {
        match self {
            CommandFn::Bool(f) => f,
            CommandFn::Float(f) => f,
            CommandFn::Int(f) => f,
            CommandFn::String(f) => f,
            CommandFn::Void(f) => f,
        }
    }

    /// Returns what the function hands back.
    pub fn kind(self) -> (kind: CommandKind)
        ensures
            kind == self.kind_of(),
    {
        match self {
            CommandFn::Bool(_) => CommandKind::Bool,
            CommandFn::Float(_) => CommandKind::Float,
            CommandFn::Int(_) => CommandKind::Int,
            CommandFn::String(_) => CommandKind::String,
            CommandFn::Void(_) => CommandKind::Void,
        }
    }

    /// Returns where the function stands.
    pub fn address(self) -> (address: usize)
        ensures
            address == self.address_of(),
    {
        match self {
            CommandFn::Bool(f) => f,
            CommandFn::Float(f) => f,
            CommandFn::Int(f) => f,
            CommandFn::String(f) => f,
            CommandFn::Void(f) => f,
        }
    }

    /// The function at `address` that hands back a `kind`.
    pub fn new(kind: CommandKind, address: usize) -> (func: Self)
        ensures
            func.kind_of() == kind,
            func.address_of() == address,
    {
        match kind {
            CommandKind::Bool => CommandFn::Bool(address),
            CommandKind::Float => CommandFn::Float(address),
            CommandKind::Int => CommandFn::Int(address),
            CommandKind::String => CommandFn::String(address),
            CommandKind::Void => CommandFn::Void(address),
        }
    }
}

/// Struct describing a console command for use with add_command().
#[derive(Debug, Clone, Copy, PartialEq, Eq)]
pub struct Command {
    pub class: Option<&'static str>,
    pub name: &'static str,
    pub usage: &'static str,
    pub min_args: i32,
    pub max_args: i32,
    pub func: CommandFn,
}

/// The ten functions of the engine that register a console command: one for
/// each thing a command can hand back, for a global command and for a
/// method of a class.
#[derive(Debug, Clone, Copy, PartialEq, Eq, Structural)]
pub enum RegistrationEntry {
    CommandBool,
    CommandFloat,
    CommandInt,
    CommandStr,
    CommandVoid,
    MethodBool,
    MethodFloat,
    MethodInt,
    MethodStr,
    MethodVoid,
}

/// The function that registers a command that hands back a `kind`, as a
/// method of a class if `scoped` and as a global command if not.
pub open spec fn entry_for(kind: CommandKind, scoped: bool) -> RegistrationEntry {
    match (kind, scoped) {
        (CommandKind::Bool, false) => RegistrationEntry::CommandBool,
        (CommandKind::Float, false) => RegistrationEntry::CommandFloat,
        (CommandKind::Int, false) => RegistrationEntry::CommandInt,
        (CommandKind::String, false) => RegistrationEntry::CommandStr,
        (CommandKind::Void, false) => RegistrationEntry::CommandVoid,
        (CommandKind::Bool, true) => RegistrationEntry::MethodBool,
        (CommandKind::Float, true) => RegistrationEntry::MethodFloat,
        (CommandKind::Int, true) => RegistrationEntry::MethodInt,
        (CommandKind::String, true) => RegistrationEntry::MethodStr,
        (CommandKind::Void, true) => RegistrationEntry::MethodVoid,
    }
}

impl RegistrationEntry {
    /// What the commands that the function registers hand back.
    pub open spec fn kind_of(self) -> CommandKind {
        match self {
            RegistrationEntry::CommandBool | RegistrationEntry::MethodBool => CommandKind::Bool,
            RegistrationEntry::CommandFloat | RegistrationEntry::MethodFloat => CommandKind::Float,
            RegistrationEntry::CommandInt | RegistrationEntry::MethodInt => CommandKind::Int,
            RegistrationEntry::CommandStr | RegistrationEntry::MethodStr => CommandKind::String,
            RegistrationEntry::CommandVoid | RegistrationEntry::MethodVoid => CommandKind::Void,
        }
    }

    /// Whether the function registers methods of a class.
    pub open spec fn scoped(self) -> bool {
        match self {
            RegistrationEntry::MethodBool
            | RegistrationEntry::MethodFloat
            | RegistrationEntry::MethodInt
            | RegistrationEntry::MethodStr
            | RegistrationEntry::MethodVoid => true,
            _ => false,
        }
    }

    /// Where the function stands in the build for Windows and in that for
    /// macOS.
    pub open spec fn addresses(self) -> (usize, usize) {
        match self {
            RegistrationEntry::CommandBool => (0x407527, 0x3A1F0),
            RegistrationEntry::CommandFloat => (0x408972, 0x3A2B0),
            RegistrationEntry::CommandInt => (0x4044ad, 0x3A250),
            RegistrationEntry::CommandStr => (0x404f2a, 0x3A130),
            RegistrationEntry::CommandVoid => (0x407b8a, 0x3A190),
            RegistrationEntry::MethodBool => (0x40243c, 0x3c5e0),
            RegistrationEntry::MethodFloat => (0x4080d0, 0x3c6a0),
            RegistrationEntry::MethodInt => (0x4084c7, 0x3c760),
            RegistrationEntry::MethodStr => (0x404ade, 0x3c820),
            RegistrationEntry::MethodVoid => (0x403698, 0x3c8e0),
        }
    }

    /// Returns where the function stands on `platform`.
    pub fn address(self, platform: Platform) -> (address: TgeAddr)
        ensures
            address.0 == address_for(platform, self.addresses().0, self.addresses().1),
    {
        match self {
            RegistrationEntry::CommandBool => tge_addr(platform, 0x407527, 0x3A1F0),
            RegistrationEntry::CommandFloat => tge_addr(platform, 0x408972, 0x3A2B0),
            RegistrationEntry::CommandInt => tge_addr(platform, 0x4044ad, 0x3A250),
            RegistrationEntry::CommandStr => tge_addr(platform, 0x404f2a, 0x3A130),
            RegistrationEntry::CommandVoid => tge_addr(platform, 0x407b8a, 0x3A190),
            RegistrationEntry::MethodBool => tge_addr(platform, 0x40243c, 0x3c5e0),
            RegistrationEntry::MethodFloat => tge_addr(platform, 0x4080d0, 0x3c6a0),
            RegistrationEntry::MethodInt => tge_addr(platform, 0x4084c7, 0x3c760),
            RegistrationEntry::MethodStr => tge_addr(platform, 0x404ade, 0x3c820),
            RegistrationEntry::MethodVoid => tge_addr(platform, 0x403698, 0x3c8e0),
        }
    }
}

/// Each of the ten functions serves one kind and one scope, and each kind
/// and scope is served by one function: the function that a command is
/// registered through tells what the command hands back and whether it
/// belongs to a class, and a command is never routed to a function of the
/// other scope or of another kind.
pub proof fn lemma_entry_matches_kind_and_scope(kind: CommandKind, scoped: bool)
    ensures
        entry_for(kind, scoped).kind_of() == kind,
        entry_for(kind, scoped).scoped() == scoped,
        forall|entry: RegistrationEntry| #[trigger]
            entry_for(entry.kind_of(), entry.scoped()) == entry,
        forall|other: CommandKind, other_scoped: bool|
            #[trigger] entry_for(other, other_scoped) == entry_for(kind, scoped) ==> other
                == kind && other_scoped == scoped,
{
    assert forall|other: CommandKind, other_scoped: bool|
        #[trigger] entry_for(other, other_scoped) == entry_for(kind, scoped) implies other
        == kind && other_scoped == scoped by {
        assert(entry_for(other, other_scoped).kind_of() == other);
        assert(entry_for(other, other_scoped).scoped() == other_scoped);
    }
}

/// One call of a function that registers a console command.
#[derive(Debug, Clone, Copy, PartialEq, Eq)]
pub struct Registration<'a> {
    pub entry: RegistrationEntry,
    pub class: Option<&'a str>,
    pub name: &'a str,
    pub callback: usize,
    pub usage: &'a str,
    pub min_args: i32,
    pub max_args: i32,
}

/// Whether a text can be handed to the engine: the engine takes a text to
/// end at its first zero byte, so a text that holds one cannot.
pub open spec fn passable(text: &str) -> bool {
    forall|i: int| 0 <= i < text.spec_bytes().len() ==> text.spec_bytes()[i] != 0
}

/// Tells whether a text can be handed to the engine.
pub fn is_passable(text: &str) -> (ok: bool)
    ensures
        ok == passable(text),
{
    let bytes = text.as_bytes();
    let mut i: usize = 0;
    while i < bytes.len()
        invariant
            i <= bytes@.len(),
            bytes@ == text.spec_bytes(),
            forall|k: int| 0 <= k < i ==> bytes@[k] != 0,
        decreases bytes@.len() - i,
    {
        if bytes[i] == 0 {
            return false;
        }
        i += 1;
    }
    true
}

/// The call that registers the global command `name`.
pub open spec fn global_registration<'a>(
    entry: RegistrationEntry,
    name: &'a str,
    callback: usize,
    usage: &'a str,
    min_args: i32,
    max_args: i32,
) -> Registration<'a> {
    Registration { entry, class: None, name, callback, usage, min_args, max_args }
}

/// The call that registers `name` as a method of `class`.
pub open spec fn method_registration<'a>(
    entry: RegistrationEntry,
    class: &'a str,
    name: &'a str,
    callback: usize,
    usage: &'a str,
    min_args: i32,
    max_args: i32,
) -> Registration<'a> {
    Registration { entry, class: Some(class), name, callback, usage, min_args, max_args }
}

/// Register a console command which returns a boolean.
pub fn add_command_bool<'a>(
    name: &'a str,
    cb: usize,
    usage: &'a str,
    min_args: i32,
    max_args: i32,
) -> (r: Registration<'a>)
    requires
        passable(name),
        passable(usage),
    ensures
        r == global_registration(
            RegistrationEntry::CommandBool,
            name,
            cb,
            usage,
            min_args,
            max_args,
        ),
{
    Registration {
        entry: RegistrationEntry::CommandBool,
        class: None,
        name,
        callback: cb,
        usage,
        min_args,
        max_args,
    }
}

/// Register a console method which returns a boolean.
pub fn add_method_bool<'a>(
    class: &'a str,
    name: &'a str,
    cb: usize,
    usage: &'a str,
    min_args: i32,
    max_args: i32,
) -> (r: Registration<'a>)
    requires
        passable(class),
        passable(name),
        passable(usage),
    ensures
        r == method_registration(
            RegistrationEntry::MethodBool,
            class,
            name,
            cb,
            usage,
            min_args,
            max_args,
        ),
{
    Registration {
        entry: RegistrationEntry::MethodBool,
        class: Some(class),
        name,
        callback: cb,
        usage,
        min_args,
        max_args,
    }
}

/// Register a console command which returns a float.
pub fn add_command_float<'a>(
    name: &'a str,
    cb: usize,
    usage: &'a str,
    min_args: i32,
    max_args: i32,
) -> (r: Registration<'a>)
    requires
        passable(name),
        passable(usage),
    ensures
        r == global_registration(
            RegistrationEntry::CommandFloat,
            name,
            cb,
            usage,
            min_args,
            max_args,
        ),
{
    Registration {
        entry: RegistrationEntry::CommandFloat,
        class: None,
        name,
        callback: cb,
        usage,
        min_args,
        max_args,
    }
}

/// Register a console method which returns a float.
pub fn add_method_float<'a>(
    class: &'a str,
    name: &'a str,
    cb: usize,
    usage: &'a str,
    min_args: i32,
    max_args: i32,
) -> (r: Registration<'a>)
    requires
        passable(class),
        passable(name),
        passable(usage),
    ensures
        r == method_registration(
            RegistrationEntry::MethodFloat,
            class,
            name,
            cb,
            usage,
            min_args,
            max_args,
        ),
{
    Registration {
        entry: RegistrationEntry::MethodFloat,
        class: Some(class),
        name,
        callback: cb,
        usage,
        min_args,
        max_args,
    }
}

/// Register a console command which returns an integer.
pub fn add_command_int<'a>(
    name: &'a str,
    cb: usize,
    usage: &'a str,
    min_args: i32,
    max_args: i32,
) -> (r: Registration<'a>)
    requires
        passable(name),
        passable(usage),
    ensures
        r == global_registration(
            RegistrationEntry::CommandInt,
            name,
            cb,
            usage,
            min_args,
            max_args,
        ),
{
    Registration {
        entry: RegistrationEntry::CommandInt,
        class: None,
        name,
        callback: cb,
        usage,
        min_args,
        max_args,
    }
}

/// Register a console method which returns an integer.
pub fn add_method_int<'a>(
    class: &'a str,
    name: &'a str,
    cb: usize,
    usage: &'a str,
    min_args: i32,
    max_args: i32,
) -> (r: Registration<'a>)
    requires
        passable(class),
        passable(name),
        passable(usage),
    ensures
        r == method_registration(
            RegistrationEntry::MethodInt,
            class,
            name,
            cb,
            usage,
            min_args,
            max_args,
        ),
{
    Registration {
        entry: RegistrationEntry::MethodInt,
        class: Some(class),
        name,
        callback: cb,
        usage,
        min_args,
        max_args,
    }
}

/// Register a console command which returns a string.
pub fn add_command_str<'a>(
    name: &'a str,
    cb: usize,
    usage: &'a str,
    min_args: i32,
    max_args: i32,
) -> (r: Registration<'a>)
    requires
        passable(name),
        passable(usage),
    ensures
        r == global_registration(
            RegistrationEntry::CommandStr,
            name,
            cb,
            usage,
            min_args,
            max_args,
        ),
{
    Registration {
        entry: RegistrationEntry::CommandStr,
        class: None,
        name,
        callback: cb,
        usage,
        min_args,
        max_args,
    }
}

/// Register a console method which returns a string.
pub fn add_method_str<'a>(
    class: &'a str,
    name: &'a str,
    cb: usize,
    usage: &'a str,
    min_args: i32,
    max_args: i32,
) -> (r: Registration<'a>)
    requires
        passable(class),
        passable(name),
        passable(usage),
    ensures
        r == method_registration(
            RegistrationEntry::MethodStr,
            class,
            name,
            cb,
            usage,
            min_args,
            max_args,
        ),
{
    Registration {
        entry: RegistrationEntry::MethodStr,
        class: Some(class),
        name,
        callback: cb,
        usage,
        min_args,
        max_args,
    }
}

/// Register a console command which does not return a value.
pub fn add_command_void<'a>(
    name: &'a str,
    cb: usize,
    usage: &'a str,
    min_args: i32,
    max_args: i32,
) -> (r: Registration<'a>)
    requires
        passable(name),
        passable(usage),
    ensures
        r == global_registration(
            RegistrationEntry::CommandVoid,
            name,
            cb,
            usage,
            min_args,
            max_args,
        ),
{
    Registration {
        entry: RegistrationEntry::CommandVoid,
        class: None,
        name,
        callback: cb,
        usage,
        min_args,
        max_args,
    }
}

/// Register a console method which does not return a value.
pub fn add_method_void<'a>(
    class: &'a str,
    name: &'a str,
    cb: usize,
    usage: &'a str,
    min_args: i32,
    max_args: i32,
) -> (r: Registration<'a>)
    requires
        passable(class),
        passable(name),
        passable(usage),
    ensures
        r == method_registration(
            RegistrationEntry::MethodVoid,
            class,
            name,
            cb,
            usage,
            min_args,
            max_args,
        ),
{
    Registration {
        entry: RegistrationEntry::MethodVoid,
        class: Some(class),
        name,
        callback: cb,
        usage,
        min_args,
        max_args,
    }
}

/// Whether every text of a command can be handed to the engine.
pub open spec fn registrable(cmd: Command) -> bool {
    &&& passable(cmd.name)
    &&& passable(cmd.usage)
    &&& cmd.class matches Some(class) ==> passable(class)
}

/// Tells whether `add_command` takes `cmd`.
pub fn is_registrable(cmd: &Command) -> (ok: bool)
    ensures
        ok == registrable(*cmd),
{
    let class_ok = match cmd.class {
        Some(class) => is_passable(class),
        None => true,
    };
    class_ok && is_passable(cmd.name) && is_passable(cmd.usage)
}

/// Add a console command described by a Command struct: it is registered
/// through the one function that serves what it hands back and its scope,
/// with its name, its usage text and its argument counts as they are.
pub fn add_command(cmd: &Command) -> (r: Registration<'static>)
    requires
        registrable(*cmd),
    ensures
        r.entry == entry_for(cmd.func.kind_of(), cmd.class is Some),
        r.class == cmd.class,
        r.name == cmd.name,
        r.callback == cmd.func.address_of(),
        r.usage == cmd.usage,
        r.min_args == cmd.min_args,
        r.max_args == cmd.max_args,
{
    let (name, usage, min, max) = (cmd.name, cmd.usage, cmd.min_args, cmd.max_args);
    match cmd.class {
        Some(class) => match cmd.func {
            CommandFn::Bool(func) => add_method_bool(class, name, func, usage, min, max),
            CommandFn::Float(func) => add_method_float(class, name, func, usage, min, max),
            CommandFn::Int(func) => add_method_int(class, name, func, usage, min, max),
            CommandFn::String(func) => add_method_str(class, name, func, usage, min, max),
            CommandFn::Void(func) => add_method_void(class, name, func, usage, min, max),
        },
        None => match cmd.func {
            CommandFn::Bool(func) => add_command_bool(name, func, usage, min, max),
            CommandFn::Float(func) => add_command_float(name, func, usage, min, max),
            CommandFn::Int(func) => add_command_int(name, func, usage, min, max),
            CommandFn::String(func) => add_command_str(name, func, usage, min, max),
            CommandFn::Void(func) => add_command_void(name, func, usage, min, max),
        },
    }
}

/// Reads bytes as text.
///
/// Calls `core::str::from_utf8`, which accepts exactly the byte sequences
/// that are well-formed UTF-8 and then hands back the same bytes as text.
#[verifier::external_body]
fn from_utf8(bytes: &[u8]) -> (text: Option<&str>)
    ensures
        match text {
            Some(s) => valid_utf8(bytes@) && s@ == decode_utf8(bytes@),
            None => !valid_utf8(bytes@),
        },
{
    core::str::from_utf8(bytes).ok()
}

/// The text of one argument: its bytes read as UTF-8, or nothing where they
/// are not.
pub open spec fn arg_text(bytes: Seq<u8>) -> Seq<char> {
    if valid_utf8(bytes) {
        decode_utf8(bytes)
    } else {
        Seq::<char>::empty()
    }
}

/// Collect console command arguments into a vector of strings. Arguments
/// which cannot be represented as UTF-8 will default to an empty string.
pub fn collect_args(argv: &Vec<Vec<u8>>) -> (args: Vec<String>)
    ensures
        args.len() == argv.len(),
        forall|i: int| 0 <= i < argv.len() ==> (#[trigger] args[i])@ == arg_text(argv[i]@),
{
    let mut args: Vec<String> = Vec::new();
    let mut i: usize = 0;
    while i < argv.len()
        invariant
            i <= argv.len(),
            args.len() == i,
            forall|k: int| 0 <= k < i ==> (#[trigger] args[k])@ == arg_text(argv[k]@),
        decreases argv.len() - i,
    {
        let text = match from_utf8(argv[i].as_slice()) {
            Some(s) => String::from_str(s),
            None => String::new(),
        };
        args.push(text);
        i += 1;
    }
    args
}

/// What a string result looks like in the buffer that the engine lends for
/// it: the bytes of the text, then a zero byte.
pub open spec fn return_buffer_of(s: &str) -> Seq<u8> {
    s.spec_bytes().push(0u8)
}

/// Prepares a string for Torque's internal string return buffer: the size
/// of the buffer to ask for, and the bytes to put in it.
pub fn get_return_buffer(s: &str) -> (r: (u32, Vec<u8>))
    requires
        s.spec_bytes().len() < u32::MAX,
    ensures
        r.0 == s.spec_bytes().len() + 1,
        r.1@ == return_buffer_of(s),
{
    let bytes = s.as_bytes();
    let mut buffer = vstd::slice::slice_to_vec(bytes);
    buffer.push(0);
    (bytes.len() as u32 + 1, buffer)
}

} // verus!
