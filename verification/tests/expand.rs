use mbx::con::CommandKind;
use mbx::expand::layout::put_leading;
use mbx::expand::{
    can_expand, command, expand_calls, fn_override, inherits, method, method_override,
    plugin_main, virtual_destructor, vtable, Abi, ConsoleFnMeta, ExpandError, ExpandMethodCalls,
    Expr, Field, Fields, FnItem, LibraryPath, MetaEntry, MetaError, MetaItem, MetaLit, MetaValue,
    Param, ReturnType, StructItem, Visibility,
};
use mbx::expand::unrecognized;
use mbx::interop::Platform;

fn text(s: &str) -> String {
    s.to_string()
}

fn int_entry(key: &str, literal: &str) -> MetaEntry {
    MetaEntry { key: Some(text(key)), lit: MetaLit::Int(text(literal)) }
}

fn str_entry(key: &str, contents: &str) -> MetaEntry {
    MetaEntry { key: Some(text(key)), lit: MetaLit::Str(text(contents)) }
}

fn param(name: &str, ty: &str) -> Param {
    Param { name: text(name), ty: text(ty) }
}

fn func(name: &str, is_unsafe: bool, abi: Option<Abi>, output: ReturnType) -> FnItem {
    FnItem {
        vis: Visibility::Public,
        name: text(name),
        is_unsafe,
        abi,
        inputs: vec![param("this", "&mut Marble"), param("id", "i32")],
        output,
    }
}

fn call(func: &str, args: Vec<Expr>) -> Expr {
    Expr::Call { func: text(func), args }
}

fn leaf(written: &str) -> Expr {
    Expr::Other { text: text(written), calls: vec![] }
}

fn field(name: &str, ty: &str) -> Field {
    Field { public: false, name: text(name), ty: text(ty) }
}

fn meta() -> ConsoleFnMeta {
    ConsoleFnMeta { class: None, usage: text("rustAdd(x, y)"), min_args: 3, max_args: 3 }
}

#[test]
fn attribute_arguments_are_read_in_order() {
    let entries = vec![int_entry("args", "3"), str_entry("usage", "rustAdd(x, y)")];
    assert_eq!(ConsoleFnMeta::parse(&entries), Ok(meta()));

    let entries = vec![
        str_entry("class", "Marble"),
        int_entry("min_args", "2"),
        int_entry("max_args", "16"),
        str_entry("usage", "%marble.rustPrintVelocity()"),
        int_entry("min_args", "1000"),
    ];
    assert_eq!(
        ConsoleFnMeta::parse(&entries),
        Ok(ConsoleFnMeta {
            class: Some(text("Marble")),
            usage: text("%marble.rustPrintVelocity()"),
            min_args: 1000,
            max_args: 16,
        })
    );

    let entries = vec![int_entry("max_args", "5"), int_entry("args", "42"), str_entry("usage", "u")];
    let read = ConsoleFnMeta::parse(&entries).unwrap();
    assert_eq!((read.min_args, read.max_args), (42, 42));
    let entries = vec![int_entry("args", "42"), int_entry("max_args", "5"), str_entry("usage", "u")];
    let read = ConsoleFnMeta::parse(&entries).unwrap();
    assert_eq!((read.min_args, read.max_args), (42, 5));
}

#[test]
fn attribute_arguments_are_refused_at_the_first_fault() {
    let parse = |entries: Vec<MetaEntry>| ConsoleFnMeta::parse(&entries);
    assert_eq!(parse(vec![]), Err(MetaError::MissingUsage));
    assert_eq!(parse(vec![str_entry("usage", "u")]), Err(MetaError::MissingMinArgs));
    assert_eq!(
        parse(vec![str_entry("usage", "u"), int_entry("min_args", "1")]),
        Err(MetaError::MissingMaxArgs)
    );
    assert_eq!(
        parse(vec![int_entry("max_args", "1"), int_entry("min_args", "1")]),
        Err(MetaError::MissingUsage)
    );
    assert_eq!(
        parse(vec![MetaEntry { key: None, lit: MetaLit::Other }]),
        Err(MetaError::ExpectedIdent { entry: 0 })
    );
    assert_eq!(parse(vec![str_entry("args", "3")]), Err(MetaError::ArgsNotInt { entry: 0 }));
    assert_eq!(
        parse(vec![int_entry("args", "3"), int_entry("class", "3")]),
        Err(MetaError::ClassNotStr { entry: 1 })
    );
    assert_eq!(
        parse(vec![MetaEntry { key: Some(text("max_args")), lit: MetaLit::Other }]),
        Err(MetaError::MaxArgsNotInt { entry: 0 })
    );
    assert_eq!(parse(vec![str_entry("min_args", "")]), Err(MetaError::MinArgsNotInt { entry: 0 }));
    assert_eq!(parse(vec![int_entry("usage", "1")]), Err(MetaError::UsageNotStr { entry: 0 }));
    assert_eq!(
        parse(vec![int_entry("args", "1"), int_entry("arg", "1"), str_entry("args", "x")]),
        Err(MetaError::UnrecognizedKey { entry: 1 })
    );
    assert_eq!(parse(vec![int_entry("args", "99999999999")]), Err(MetaError::BadInt { entry: 0 }));
    assert_eq!(parse(vec![int_entry("args", "three")]), Err(MetaError::BadInt { entry: 0 }));
    assert_eq!(MetaError::BadInt { entry: 4 }.entry(), Some(4));
    assert_eq!(MetaError::MissingUsage.entry(), None);
    assert_eq!(MetaError::MissingUsage.message(), "missing usage");
    assert_eq!(MetaError::ArgsNotInt { entry: 0 }.message(), "args must be an int");
    assert_eq!(unrecognized("arg"), "unrecognized key `arg`");
}

#[test]
fn literals_that_were_read_are_gathered_alike() {
    let items = vec![
        MetaItem { key: Some(text("usage")), value: MetaValue::Str(text("u")) },
        MetaItem { key: Some(text("args")), value: MetaValue::Int(Some(2)) },
    ];
    assert_eq!(
        ConsoleFnMeta::from_items(&items),
        Ok(ConsoleFnMeta { class: None, usage: text("u"), min_args: 2, max_args: 2 })
    );
    let items = vec![MetaItem { key: Some(text("args")), value: MetaValue::Int(None) }];
    assert_eq!(ConsoleFnMeta::from_items(&items), Err(MetaError::BadInt { entry: 0 }));
    assert_eq!(int_entry("args", "7").resolve().value, MetaValue::Int(Some(7)));
    assert_eq!(int_entry("args", "-7").resolve().value, MetaValue::Int(Some(-7)));
    assert_eq!(int_entry("args", "+7").resolve().value, MetaValue::Int(Some(7)));
    assert_eq!(int_entry("args", "007").resolve().value, MetaValue::Int(Some(7)));
    assert_eq!(int_entry("args", "2147483647").resolve().value, MetaValue::Int(Some(i32::MAX)));
    assert_eq!(int_entry("args", "-2147483648").resolve().value, MetaValue::Int(Some(i32::MIN)));
    for refused in ["", "-", "+", "7u8", "0x10", "1_000", "7.5", " 7", "2147483648", "c\"x\""] {
        assert_eq!(int_entry("args", refused).resolve().value, MetaValue::Int(None));
    }
}

#[test]
fn command_becomes_a_private_function_and_a_descriptor() {
    let item = func("rustAdd", false, None, ReturnType::Ident(text("i32")));
    let e = command(meta(), item.clone()).unwrap();
    assert_eq!(e.kind, CommandKind::Int);
    assert_eq!(e.ident, "rustAdd");
    assert_eq!(e.name, "rustAdd");
    assert_eq!(e.vis, Visibility::Public);
    assert_eq!(e.class, None);
    assert_eq!(e.usage, "rustAdd(x, y)");
    assert_eq!((e.min_args, e.max_args), (3, 3));
    assert_eq!(e.function.name, "__rustAdd");
    assert_eq!(e.function.vis, Visibility::Inherited);
    assert_eq!(e.function.abi, Some(Abi::C));
    assert_eq!(e.function.inputs, item.inputs);
    assert_eq!(e.function.output, item.output);

    let kind = |output: ReturnType| command(meta(), func("f", false, None, output)).map(|e| e.kind);
    assert_eq!(kind(ReturnType::Default), Ok(CommandKind::Void));
    assert_eq!(kind(ReturnType::Ident(text("bool"))), Ok(CommandKind::Bool));
    assert_eq!(kind(ReturnType::Ident(text("f32"))), Ok(CommandKind::Float));
    assert_eq!(kind(ReturnType::Ptr), Ok(CommandKind::String));
    assert_eq!(kind(ReturnType::Ident(text("u32"))), Err(ExpandError::BadReturnType));
    assert_eq!(kind(ReturnType::Path), Err(ExpandError::BadReturnType));
    assert_eq!(kind(ReturnType::Other), Err(ExpandError::BadReturnType));
    assert_eq!(
        command(meta(), func("f", false, Some(Abi::C), ReturnType::Other)),
        Err(ExpandError::ConsoleAbiSpecified)
    );
    assert_eq!(
        ExpandError::BadReturnType.message(),
        "return type must be none, `bool`, `f32`, `i32`, or `*const c_char`"
    );
}

#[test]
fn function_override_takes_the_engine_convention() {
    let item = func("my_create_window", true, None, ReturnType::Ptr);
    let e = fn_override(text("original_create_window"), item.clone()).unwrap();
    assert_eq!(e.original, "original_create_window");
    assert_eq!(e.function.abi, Some(Abi::C));
    assert_eq!(e.function.inputs, item.inputs);
    assert_eq!(e.function.name, item.name);
    assert_eq!(
        fn_override(text("o"), func("f", false, None, ReturnType::Default)),
        Err(ExpandError::FnNotUnsafe)
    );
    assert_eq!(
        fn_override(text("o"), func("f", false, Some(Abi::Other), ReturnType::Default)),
        Err(ExpandError::FnAbiSpecified)
    );
    assert_eq!(
        ExpandError::FnAbiSpecified.message(),
        "function overrides must not specify an ABI"
    );
    assert_eq!(ExpandError::FnNotUnsafe.message(), "function overrides must be `unsafe`");
}

#[test]
fn method_override_takes_the_unused_register_after_the_object() {
    let item = func("my_marble_do_power_up", true, None, ReturnType::Default);
    let e = method_override(text("original"), item.clone(), vec![], Platform::Windows).unwrap();
    assert_eq!(e.function.abi, Some(Abi::Fastcall));
    assert_eq!(
        e.function.inputs,
        vec![param("this", "&mut Marble"), param("_edx", "*const ()"), param("id", "i32")]
    );
    assert_eq!(e.original, "original");
    let e = method_override(text("original"), item.clone(), vec![], Platform::MacOs).unwrap();
    assert_eq!(e.function.abi, Some(Abi::C));
    assert_eq!(e.function.inputs, item.inputs);
    assert_eq!(
        method_override(
            text("o"),
            func("f", false, Some(Abi::C), ReturnType::Default),
            vec![],
            Platform::Windows
        ),
        Err(ExpandError::MethodNotUnsafe)
    );
    assert_eq!(
        method_override(
            text("o"),
            func("f", true, Some(Abi::C), ReturnType::Default),
            vec![],
            Platform::MacOs
        ),
        Err(ExpandError::MethodAbiSpecified)
    );
    let mut bare = func("f", true, None, ReturnType::Default);
    bare.inputs.clear();
    assert!(!can_expand(&text("o"), &bare, &vec![], Platform::Windows));
    assert!(can_expand(&text("o"), &bare, &vec![], Platform::MacOs));
    assert!(can_expand(&text("o"), &item, &vec![], Platform::Windows));
    assert!(!can_expand(&text("o"), &item, &vec![leaf("x"), call("o", vec![])], Platform::Windows));
    assert!(can_expand(&text("o"), &item, &vec![call("o", vec![])], Platform::MacOs));
    let not_unsafe = func("f", false, None, ReturnType::Default);
    assert!(can_expand(&text("o"), &not_unsafe, &vec![call("o", vec![])], Platform::Windows));
    assert!(method_override(text("o"), bare, vec![], Platform::MacOs).is_ok());

    let ty = method(func("m", false, None, ReturnType::Default), Platform::Windows);
    assert!(ty.is_unsafe);
    assert_eq!(ty.abi, Some(Abi::Fastcall));
    assert_eq!(ty.inputs[1], param("edx", "*const ()"));
    assert_eq!(ty.inputs.len(), 3);
    let ty = method(func("m", false, None, ReturnType::Default), Platform::MacOs);
    assert_eq!((ty.abi, ty.inputs.len()), (Some(Abi::C), 2));
}

#[test]
fn calls_of_the_original_pass_null_for_the_register() {
    let expand = ExpandMethodCalls::new(&text("original"));
    let written = call("original", vec![leaf("this"), leaf("id")]);
    assert!(expand.accepts(&written));
    assert_eq!(
        expand.fold_expr_call(written),
        call("original", vec![leaf("this"), Expr::Null, leaf("id")])
    );
    assert_eq!(expand.fold_expr_call(call("info", vec![])), call("info", vec![]));
    assert!(expand.accepts(&call("info", vec![])));
    assert!(!expand.accepts(&call("original", vec![])));
    assert!(!expand.accepts(&call("info", vec![call("original", vec![])])));
    assert_eq!(
        expand.fold_expr_call(call("original", vec![leaf("this")])),
        call("original", vec![leaf("this"), Expr::Null])
    );
    assert_eq!(expand.fold_expr_call(Expr::Null), Expr::Null);
}

#[test]
fn nested_calls_of_the_original_pass_null_too() {
    let original = text("original");
    let body = vec![
        call("f", vec![call("original", vec![leaf("this"), leaf("id")])]),
        call(
            "original",
            vec![leaf("this"), call("original", vec![leaf("this"), leaf("1")])],
        ),
        Expr::Other {
            text: text("let x = g(original(this, 2)) + 1"),
            calls: vec![call("g", vec![call("original", vec![leaf("this"), leaf("2")])])],
        },
        leaf("return"),
    ];
    let expected = vec![
        call("f", vec![call("original", vec![leaf("this"), Expr::Null, leaf("id")])]),
        call(
            "original",
            vec![
                leaf("this"),
                Expr::Null,
                call("original", vec![leaf("this"), Expr::Null, leaf("1")]),
            ],
        ),
        Expr::Other {
            text: text("let x = g(original(this, 2)) + 1"),
            calls: vec![call(
                "g",
                vec![call("original", vec![leaf("this"), Expr::Null, leaf("2")])],
            )],
        },
        leaf("return"),
    ];
    let item = func("my_marble_do_power_up", true, None, ReturnType::Default);
    assert!(can_expand(&original, &item, &body, Platform::Windows));
    let e = method_override(text("original"), item, body, Platform::Windows).unwrap();
    assert_eq!(e.body, expected);

    let body = vec![call("f", vec![call("original", vec![leaf("this"), leaf("id")])])];
    let same = vec![call("f", vec![call("original", vec![leaf("this"), leaf("id")])])];
    let item = func("my_marble_do_power_up", true, None, ReturnType::Default);
    let e = method_override(text("original"), item, body, Platform::MacOs).unwrap();
    assert_eq!(e.body, same);
    assert_eq!(expand_calls(&original, vec![]), vec![]);
    assert_eq!(
        expand_calls(&text("other"), same),
        vec![call("f", vec![call("original", vec![leaf("this"), leaf("id")])])]
    );
}

#[test]
fn derived_struct_gets_its_base_in_front() {
    let item = StructItem {
        name: text("SimObject"),
        attrs: vec![Some(text("repr"))],
        fields: Fields::Named(vec![field("name", "*const c_char"), field("id", "u32")]),
    };
    let e = inherits(text("ConsoleObject"), item.clone()).unwrap();
    assert_eq!(e.parent, "ConsoleObject");
    assert_eq!(e.item.name, "SimObject");
    assert_eq!(e.item.attrs, item.attrs);
    assert_eq!(
        e.item.fields,
        Fields::Named(vec![
            Field { public: true, name: text("parent"), ty: text("ConsoleObject") },
            field("name", "*const c_char"),
            field("id", "u32"),
        ])
    );
    let unit = StructItem { name: text("NetObject"), attrs: vec![], fields: Fields::Unit };
    assert_eq!(
        inherits(text("SimObject"), unit).unwrap().item.fields,
        Fields::Named(vec![Field { public: true, name: text("parent"), ty: text("SimObject") }])
    );
    let tuple = StructItem { name: text("T"), attrs: vec![], fields: Fields::Unnamed };
    assert_eq!(inherits(text("S"), tuple), Err(ExpandError::StructNotNamed));
    assert_eq!(ExpandError::StructNotNamed.message(), "struct must have named fields");
    assert_eq!(put_leading(Fields::Unnamed, field("a", "A")), None);
}

#[test]
fn only_the_base_struct_gets_the_table_address() {
    let base = StructItem {
        name: text("Stream"),
        attrs: vec![Some(text("repr")), Some(text("virtual_destructor"))],
        fields: Fields::Named(vec![field("status", "StreamStatus")]),
    };
    let e = vtable(text("StreamVtable"), base, LibraryPath::Crate).unwrap();
    assert_eq!(e.vtable_type, "StreamVtable");
    assert_eq!(e.library, LibraryPath::Crate);
    assert_eq!(
        e.item.fields,
        Fields::Named(vec![
            Field { public: true, name: text("vtable"), ty: text("*const StreamVtable") },
            field("status", "StreamStatus"),
        ])
    );

    let marked = StructItem {
        name: text("Marble"),
        attrs: vec![Some(text("repr")), None, Some(text("inherits"))],
        fields: Fields::Unit,
    };
    let e = vtable(text("MarbleVtable"), marked.clone(), LibraryPath::Extern).unwrap();
    assert_eq!(e.item, marked);

    let expanded = inherits(
        text("ShapeBase"),
        StructItem { name: text("Marble"), attrs: vec![], fields: Fields::Unit },
    )
    .unwrap()
    .item;
    let e = vtable(text("MarbleVtable"), expanded.clone(), LibraryPath::Extern).unwrap();
    assert_eq!(e.item, expanded);

    let unit = StructItem { name: text("ConsoleObject"), attrs: vec![], fields: Fields::Unit };
    assert_eq!(
        vtable(text("V"), unit, LibraryPath::Extern).unwrap().item.fields,
        Fields::Named(vec![Field { public: true, name: text("vtable"), ty: text("*const V") }])
    );
    let tuple = StructItem { name: text("T"), attrs: vec![], fields: Fields::Unnamed };
    assert_eq!(vtable(text("V"), tuple, LibraryPath::Crate), Err(ExpandError::StructNotNamed));
    assert_eq!(LibraryPath::for_package(&text("mbx")), LibraryPath::Crate);
    assert_eq!(LibraryPath::for_package(&text("speed-boostair")), LibraryPath::Extern);
}

#[test]
fn entry_point_reports_errors_of_a_function_that_can_fail() {
    let plain = func("main", false, None, ReturnType::Default);
    let e = plugin_main(plain.clone());
    assert_eq!(e.function, plain);
    assert!(!e.reports_errors);
    assert!(plugin_main(func("main", false, None, ReturnType::Path)).reports_errors);
    let item = StructItem { name: text("Stream"), attrs: vec![], fields: Fields::Unit };
    let d = virtual_destructor(item.clone(), LibraryPath::Extern);
    assert_eq!(d.item, item);
    assert_eq!(d.library, LibraryPath::Extern);
}
