use crate::interop::vtable::{destructor, methods, Slot, Vtable, VtableLayout};
use core::ops::{Deref, DerefMut};
use vstd::prelude::*;

verus! {

/// The class at the base of everything that the console knows.
#[derive(Debug, Clone, Copy, PartialEq, Eq, Structural)]
pub struct ConsoleObject {
    pub vtable: usize,
}

/// The table of a console object.
#[derive(Debug, Clone, Copy, PartialEq, Eq)]
pub struct ConsoleObjectVtable;

impl ConsoleObjectVtable {
    /// The slots of the table.
    pub open spec fn slots() -> Seq<Slot> {
        methods(seq!["get_class_rep"]).push(destructor("ConsoleObject"))
    }

    /// Returns the slots of the table.
    pub fn layout() -> (layout: VtableLayout)
        ensures
            layout@ == Self::slots(),
    {
        let names = ["get_class_rep"];
        assert(names@ =~= seq!["get_class_rep"]);
        VtableLayout::empty().with_methods(names.as_slice()).with_destructor("ConsoleObject")
    }
}

impl Vtable for ConsoleObject {
    type Vtable = ConsoleObjectVtable;

    open spec fn table(&self) -> usize {
        self.vtable
    }

    fn vtable(&self) -> (address: usize) {
        self.vtable
    }
}

/// An object of the simulation. Links to other records are held as
/// addresses.
#[derive(Debug, Clone, Copy, PartialEq, Eq, Structural)]
pub struct SimObject {
    pub parent: ConsoleObject,
    pub name: usize,
    pub next_name_object: usize,
    pub next_manager_name_object: usize,
    pub next_id_object: usize,
    pub group: usize,
    pub flags: u32,
    pub notify_list: usize,
    pub id: u32,
    pub namespace: usize,
    pub type_mask: u32,
    pub field_dictionary: usize,
}

/// The names of the methods that a simulation object adds to the table of a
/// console object.
pub const SIM_OBJECT_METHODS: [&'static str; 18] = [
    "process_arguments",
    "on_add",
    "on_remove",
    "on_group_add",
    "on_group_remove",
    "on_name_change",
    "on_static_modified",
    "inspect_pre_apply",
    "inspect_post_apply",
    "on_video_kill",
    "on_video_resurrect",
    "on_delete_notify",
    "on_editor_enable",
    "on_editor_disable",
    "get_editor_class_name",
    "find_object",
    "write",
    "register_lights",
];

/// The table of a simulation object.
#[derive(Debug, Clone, Copy, PartialEq, Eq)]
pub struct SimObjectVtable;

impl SimObjectVtable {
    /// The slots of the table: those of a console object, then its own.
    pub open spec fn slots() -> Seq<Slot> {
        ConsoleObjectVtable::slots() + methods(SIM_OBJECT_METHODS@)
    }

    /// Returns the slots of the table.
    pub fn layout() -> (layout: VtableLayout)
        ensures
            layout@ == Self::slots(),
    {
        ConsoleObjectVtable::layout().with_methods(SIM_OBJECT_METHODS.as_slice())
    }
}

impl Deref for SimObject {
    type Target = ConsoleObject;

    fn deref(&self) -> (base: &ConsoleObject)
        ensures
            *base == self.parent,
    {
        &self.parent
    }
}

impl DerefMut for SimObject {
    fn deref_mut(&mut self) -> (base: &mut ConsoleObject)
        ensures
            *base == old(self).parent,
    {
        &mut self.parent
    }
}

impl Vtable for SimObject {
    type Vtable = SimObjectVtable;

    open spec fn table(&self) -> usize {
        self.parent.table()
    }

    fn vtable(&self) -> (address: usize) {
        self.parent.vtable()
    }
}

} // verus!
