use mbx::con::{ConsoleObject, ConsoleObjectVtable, SimObject, SimObjectVtable};
use mbx::engine_core::{ResourceInstanceVtable, StreamVtable};
use mbx::game::{GameBaseVtable, Marble, MarbleVtable, ShapeBase, ShapeBaseVtable, GameBase};
use mbx::interop::vtable::ENTRY_SIZE;
use mbx::interop::{
    field_ptr, mcall, tge_addr, FnPtr, OriginalFn, Platform, Slot, SlotKind, StaticVar, TgeAddr,
    Value, VirtualDestructor, Vtable, VtableLayout,
};
use mbx::sim::{NetObject, NetObjectVtable, SceneObject, SceneObjectVtable};

#[test]
fn handle_keeps_its_address() {
    let func: FnPtr<fn()> = FnPtr::new(TgeAddr(0x1000));
    assert_eq!(func.address(), 0x1000);
    let copy = func;
    assert_eq!(copy.address(), func.address());
    let var: StaticVar<u32> = StaticVar::new(TgeAddr(0x6a4064));
    assert_eq!(var.address(), 0x6a4064);
    assert_eq!(var.clone().address(), 0x6a4064);
}

#[test]
fn address_is_picked_by_platform() {
    assert_eq!(tge_addr(Platform::Windows, 0x407211, 0x444E0), TgeAddr(0x407211));
    assert_eq!(tge_addr(Platform::MacOs, 0x407211, 0x444E0), TgeAddr(0x444E0));
    assert!(Platform::Windows.hidden_register());
    assert!(!Platform::MacOs.hidden_register());
    assert_eq!(field_ptr(0x2000, Marble::velocity_offset(Platform::Windows)), 0x2a00);
    assert_eq!(field_ptr(0x2000, Marble::velocity_offset(Platform::MacOs)), 0x29ec);
}

#[test]
fn cell_is_empty_until_set() {
    let mut cell: OriginalFn<usize> = OriginalFn::new();
    for _ in 0..3 {
        assert!(!cell.is_installed());
        assert_eq!(cell.try_get(), None);
    }
    cell.set(7);
    assert!(cell.is_installed());
    assert_eq!(cell.get(), 7);
    assert_eq!(cell.try_get(), Some(7));
}

#[test]
fn method_call_passes_null_after_the_object() {
    let call = mcall(Platform::Windows, 0x405f51, 0x9000, vec![Value::Int(3)]);
    assert_eq!(call.function, 0x405f51);
    assert_eq!(call.args, vec![Value::Address(0x9000), Value::Null, Value::Int(3)]);
    let call = mcall(Platform::MacOs, 0x2576b0, 0x9000, vec![Value::Int(3)]);
    assert_eq!(call.function, 0x2576b0);
    assert_eq!(call.args, vec![Value::Address(0x9000), Value::Int(3)]);
    let bare = mcall(Platform::Windows, 1, 2, vec![]);
    assert_eq!(bare.args, vec![Value::Address(2), Value::Null]);
}

#[test]
fn destructor_is_one_call_or_two() {
    let flagged: VirtualDestructor<ConsoleObject> = VirtualDestructor::flagged(0x500);
    let calls = flagged.invoke(0x9000);
    assert_eq!(calls.len(), 1);
    assert_eq!(calls[0].function, 0x500);
    assert_eq!(calls[0].args, vec![Value::Address(0x9000), Value::Null, Value::Bool(false)]);

    let split: VirtualDestructor<ConsoleObject> = VirtualDestructor::split(0x500, 0x600);
    let calls = split.clone().invoke(0x9000);
    assert_eq!(calls.len(), 2);
    assert_eq!(calls[0].function, 0x500);
    assert_eq!(calls[0].args, vec![Value::Address(0x9000)]);
    assert_eq!(calls[1].function, 0x600);
    assert_eq!(calls[1].args, vec![Value::Address(0x9000)]);
}

#[test]
fn derived_table_is_base_slots_then_own() {
    let base0 = Slot { name: "base0", kind: SlotKind::Method };
    let derived0 = Slot { name: "derived0", kind: SlotKind::Method };
    let derived1 = Slot { name: "derived1", kind: SlotKind::Method };
    let base = VtableLayout::new(vec![base0]);
    assert_eq!(base.len(), 1);
    let derived = base.extend(&vec![derived0, derived1]);
    assert_eq!(derived.len(), 3);
    assert_eq!(derived.slot(0), base0);
    assert_eq!(derived.slot(1), derived0);
    assert_eq!(derived.slot(2), derived1);
    assert_eq!(derived.get(2), Some(derived1));
    assert_eq!(derived.get(3), None);
    assert_eq!(base.len(), 1);
    assert_eq!(derived.find("derived0"), Some(1));
    assert_eq!(derived.find("base0"), Some(0));
    assert_eq!(derived.find("missing"), None);
}

#[test]
fn destructor_takes_two_entries_where_calls_are_plain() {
    let layout = ConsoleObjectVtable::layout();
    assert_eq!(layout.len(), 2);
    assert_eq!(layout.slot(0), Slot { name: "get_class_rep", kind: SlotKind::Method });
    assert_eq!(layout.slot(1), Slot { name: "ConsoleObject", kind: SlotKind::Destructor });
    let sim = SimObjectVtable::layout();
    assert_eq!(sim.entry_index(2, Platform::Windows), 2);
    assert_eq!(sim.entry_index(2, Platform::MacOs), 3);
    assert_eq!(sim.entry_index(0, Platform::MacOs), 0);
    assert_eq!(sim.entry_index(sim.len(), Platform::Windows), 20);
    assert_eq!(sim.entry_index(sim.len(), Platform::MacOs), 21);
    assert_eq!(sim.slot_address(0x1000, 2, Platform::Windows), Some(0x1000 + 2 * ENTRY_SIZE));
    assert_eq!(sim.slot_address(0x1000, 2, Platform::MacOs), Some(0x1000 + 3 * ENTRY_SIZE));
    assert_eq!(sim.slot_address(0x1000, 20, Platform::MacOs), None);
    assert_eq!(sim.slot_address(usize::MAX - 3, 2, Platform::Windows), None);
    assert_eq!(sim.slot_address(usize::MAX - 3, 0, Platform::Windows), Some(usize::MAX - 3));
}

#[test]
fn class_chain_keeps_every_base_table_in_front() {
    let console = ConsoleObjectVtable::layout();
    let sim = SimObjectVtable::layout();
    let net = NetObjectVtable::layout();
    let scene = SceneObjectVtable::layout();
    let game = GameBaseVtable::layout();
    let shape = ShapeBaseVtable::layout();
    let marble = MarbleVtable::layout();
    assert_eq!(sim.len(), 20);
    assert_eq!(net.len(), 24);
    assert_eq!(scene.len(), 57);
    assert_eq!(game.len(), 67);
    assert_eq!(shape.len(), 125);
    assert_eq!(marble, shape);
    let chain = [&console, &sim, &net, &scene, &game, &shape];
    for pair in chain.windows(2) {
        for i in 0..pair[0].len() {
            assert_eq!(pair[1].slot(i), pair[0].slot(i));
        }
    }
    assert_eq!(sim.slot(2).name, "process_arguments");
    assert_eq!(net.slot(20).name, "get_update_priority");
    assert_eq!(scene.slot(24).name, "disable_collision");
    assert_eq!(game.slot(57).name, "on_new_data_block");
    assert_eq!(shape.slot(67).name, "set_image");
    assert_eq!(shape.slot(124).name, "set_hidden");
    assert_eq!(shape.find("get_class_rep"), Some(0));
    let stream = StreamVtable::layout();
    assert_eq!(stream.len(), 9);
    assert_eq!(stream.slot(0), Slot { name: "Stream", kind: SlotKind::Destructor });
    assert_eq!(stream.slot(1).name, "read");
    assert_eq!(stream.slot(8).name, "write_string");
    assert_eq!(stream.entry_index(1, Platform::MacOs), 2);
    assert_eq!(ResourceInstanceVtable::layout().len(), 1);
}

#[test]
fn derived_object_begins_with_its_base() {
    let console = ConsoleObject { vtable: 0x7000 };
    let sim = SimObject {
        parent: console,
        name: 0,
        next_name_object: 0,
        next_manager_name_object: 0,
        next_id_object: 0,
        group: 0,
        flags: 1,
        notify_list: 0,
        id: 42,
        namespace: 0,
        type_mask: 0,
        field_dictionary: 0,
    };
    let mut marble = Marble {
        parent: ShapeBase {
            parent: GameBase { parent: SceneObject { parent: NetObject { parent: sim } } },
        },
    };
    assert_eq!(marble.vtable(), 0x7000);
    assert_eq!(marble.parent.vtable(), 0x7000);
    assert_eq!(sim.vtable(), console.vtable());
    assert_eq!(marble.id, 42);
    assert_eq!(marble.vtable, 0x7000);
    marble.id = 43;
    assert_eq!(marble.parent.parent.parent.parent.parent.id, 43);
}
