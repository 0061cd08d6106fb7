use mbx::con::command::RegistrationEntry as Entry;
use mbx::con::{
    add_command, add_command_bool, add_command_float, add_command_int, add_command_str,
    add_command_void, add_method_bool, add_method_float, add_method_int, add_method_str,
    add_method_void, collect_args, error, get_return_buffer, is_passable, is_registrable, print,
    warn, Command, CommandFn, CommandKind, ConsoleLine, Registration, Sink,
};
use mbx::interop::{Platform, TgeAddr};

fn cmd(class: Option<&'static str>, func: CommandFn, args: i32) -> Command {
    Command { class, name: "rustAdd", usage: "rustAdd(x, y)", min_args: args, max_args: args, func }
}

#[test]
fn global_integer_command_goes_to_its_own_entry() {
    let r = add_command(&cmd(None, CommandFn::Int(0x1234), 3));
    assert_eq!(
        r,
        Registration {
            entry: Entry::CommandInt,
            class: None,
            name: "rustAdd",
            callback: 0x1234,
            usage: "rustAdd(x, y)",
            min_args: 3,
            max_args: 3,
        }
    );
    assert_eq!(r.entry.address(Platform::Windows), TgeAddr(0x4044ad));
    assert_eq!(r.entry.address(Platform::MacOs), TgeAddr(0x3A250));
}

#[test]
fn every_kind_and_scope_has_its_entry() {
    let kinds = [
        (CommandKind::Bool, Entry::CommandBool, Entry::MethodBool),
        (CommandKind::Float, Entry::CommandFloat, Entry::MethodFloat),
        (CommandKind::Int, Entry::CommandInt, Entry::MethodInt),
        (CommandKind::String, Entry::CommandStr, Entry::MethodStr),
        (CommandKind::Void, Entry::CommandVoid, Entry::MethodVoid),
    ];
    for n in [0, 1, 7] {
        for (kind, global, method) in kinds {
            let func = CommandFn::new(kind, 0x10);
            assert_eq!(func.kind(), kind);
            assert_eq!(func.address(), 0x10);
            let r = add_command(&cmd(None, func, n));
            assert_eq!((r.entry, r.class, r.min_args, r.max_args), (global, None, n, n));
            let r = add_command(&cmd(Some("Marble"), func, n));
            assert_eq!((r.entry, r.class, r.min_args, r.max_args), (method, Some("Marble"), n, n));
        }
    }
    let all = [
        (Entry::CommandBool, 0x407527, 0x3A1F0),
        (Entry::CommandFloat, 0x408972, 0x3A2B0),
        (Entry::CommandInt, 0x4044ad, 0x3A250),
        (Entry::CommandStr, 0x404f2a, 0x3A130),
        (Entry::CommandVoid, 0x407b8a, 0x3A190),
        (Entry::MethodBool, 0x40243c, 0x3c5e0),
        (Entry::MethodFloat, 0x4080d0, 0x3c6a0),
        (Entry::MethodInt, 0x4084c7, 0x3c760),
        (Entry::MethodStr, 0x404ade, 0x3c820),
        (Entry::MethodVoid, 0x403698, 0x3c8e0),
    ];
    for (entry, windows, macos) in all {
        assert_eq!(entry.address(Platform::Windows), TgeAddr(windows));
        assert_eq!(entry.address(Platform::MacOs), TgeAddr(macos));
    }
}

#[test]
fn each_registration_function_names_its_entry() {
    assert_eq!(add_command_bool("n", 1, "u", 0, 1).entry, Entry::CommandBool);
    assert_eq!(add_command_float("n", 1, "u", 0, 1).entry, Entry::CommandFloat);
    assert_eq!(add_command_int("n", 1, "u", 0, 1).entry, Entry::CommandInt);
    assert_eq!(add_command_str("n", 1, "u", 0, 1).entry, Entry::CommandStr);
    assert_eq!(add_command_void("n", 1, "u", 0, 1).entry, Entry::CommandVoid);
    assert_eq!(add_method_bool("c", "n", 1, "u", 0, 1).entry, Entry::MethodBool);
    assert_eq!(add_method_float("c", "n", 1, "u", 0, 1).entry, Entry::MethodFloat);
    assert_eq!(add_method_int("c", "n", 1, "u", 0, 1).entry, Entry::MethodInt);
    assert_eq!(add_method_str("c", "n", 1, "u", 0, 1).entry, Entry::MethodStr);
    let r = add_method_void("c", "n", 9, "u", 2, 5);
    assert_eq!(
        r,
        Registration {
            entry: Entry::MethodVoid,
            class: Some("c"),
            name: "n",
            callback: 9,
            usage: "u",
            min_args: 2,
            max_args: 5,
        }
    );
}

#[test]
fn text_with_a_zero_byte_cannot_be_passed() {
    assert!(is_passable("rustAdd"));
    assert!(is_passable(""));
    assert!(is_passable("année"));
    assert!(!is_passable("rust\0Add"));
    assert!(is_registrable(&cmd(Some("Marble"), CommandFn::Void(0), 1)));
    assert!(!is_registrable(&cmd(Some("Mar\0ble"), CommandFn::Void(0), 1)));
    let mut bad = cmd(None, CommandFn::Void(0), 1);
    bad.usage = "\0";
    assert!(!is_registrable(&bad));
}

#[test]
fn arguments_that_are_not_text_become_empty() {
    let argv = vec![b"rustAdd".to_vec(), vec![0xff, 0xfe], "é".as_bytes().to_vec(), vec![]];
    assert_eq!(collect_args(&argv), vec!["rustAdd", "", "é", ""]);
    assert_eq!(collect_args(&vec![]), Vec::<String>::new());
}

#[test]
fn string_result_ends_with_a_zero_byte() {
    assert_eq!(get_return_buffer("olleh"), (6, b"olleh\0".to_vec()));
    assert_eq!(get_return_buffer(""), (1, vec![0]));
    assert_eq!(get_return_buffer("é"), (3, vec![0xc3, 0xa9, 0]));
}

#[test]
fn console_lines_go_through_a_plain_format() {
    assert_eq!(print("a%d"), ConsoleLine { sink: Sink::Print, format: "%s", message: "a%d" });
    assert_eq!(warn("b").sink, Sink::Warn);
    assert_eq!(error("c").sink, Sink::Error);
    assert_eq!(Sink::Print.address(Platform::Windows), TgeAddr(0x405984));
    assert_eq!(Sink::Warn.address(Platform::Windows), TgeAddr(0x404b5b));
    assert_eq!(Sink::Error.address(Platform::MacOs), TgeAddr(0x3B130));
}
