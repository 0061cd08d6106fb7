use crate::con::object::{SimObject, SimObjectVtable};
use crate::interop::vtable::{methods, Slot, Vtable, VtableLayout};
use core::ops::{Deref, DerefMut};
use vstd::prelude::*;

verus! {

/// A simulation object that is kept in step over the network.
#[derive(Debug, Clone, Copy, PartialEq, Eq, Structural)]
pub struct NetObject {
    pub parent: SimObject,
}

/// The names of the methods that a network object adds.
pub const NET_OBJECT_METHODS: [&'static str; 4] = [
    "get_update_priority",
    "pack_update",
    "unpack_update",
    "on_camera_scope_query",
];

/// The table of a network object.
#[derive(Debug, Clone, Copy, PartialEq, Eq)]
pub struct NetObjectVtable;

impl NetObjectVtable {
    /// The slots of the table: those of a simulation object, then its own.
    pub open spec fn slots() -> Seq<Slot> {
        SimObjectVtable::slots() + methods(NET_OBJECT_METHODS@)
    }

    /// Returns the slots of the table.
    pub fn layout() -> (layout: VtableLayout)
        ensures
            layout@ == Self::slots(),
    {
        SimObjectVtable::layout().with_methods(NET_OBJECT_METHODS.as_slice())
    }
}

impl Deref for NetObject {
    type Target = SimObject;

    fn deref(&self) -> (base: &SimObject)
        ensures
            *base == self.parent,
    {
        &self.parent
    }
}

impl DerefMut for NetObject {
    fn deref_mut(&mut self) -> (base: &mut SimObject)
        ensures
            *base == old(self).parent,
    {
        &mut self.parent
    }
}

impl Vtable for NetObject {
    type Vtable = NetObjectVtable;

    open spec fn table(&self) -> usize {
        self.parent.table()
    }

    fn vtable(&self) -> (address: usize) {
        self.parent.vtable()
    }
}

/// A network object that has a place in the scene.
#[derive(Debug, Clone, Copy, PartialEq, Eq, Structural)]
pub struct SceneObject {
    pub parent: NetObject,
}

/// The names of the methods that a scene object adds.
pub const SCENE_OBJECT_METHODS: [&'static str; 33] = [
    "disable_collision",
    "enable_collision",
    "is_displacable",
    "get_momentum",
    "set_momentum",
    "get_mass",
    "displace_object",
    "set_transform",
    "set_scale",
    "set_render_transform",
    "build_convex",
    "build_poly_list",
    "build_collision_bsp",
    "cast_ray",
    "collide_box",
    "get_overlapping_zones",
    "get_point_zone",
    "render_shadow_volumes",
    "render_object",
    "prep_render_image",
    "scope_object",
    "get_material_property",
    "on_scene_add",
    "on_scene_remove",
    "transform_modelview",
    "transform_position",
    "compute_new_frustum",
    "open_portal",
    "close_portal",
    "get_ws_portal_plane",
    "install_lights",
    "uninstall_lights",
    "get_lighting_ambient_color",
];

/// The table of a scene object.
#[derive(Debug, Clone, Copy, PartialEq, Eq)]
pub struct SceneObjectVtable;

impl SceneObjectVtable {
    /// The slots of the table: those of a network object, then its own.
    pub open spec fn slots() -> Seq<Slot> {
        NetObjectVtable::slots() + methods(SCENE_OBJECT_METHODS@)
    }

    /// Returns the slots of the table.
    pub fn layout() -> (layout: VtableLayout)
        ensures
            layout@ == Self::slots(),
    {
        NetObjectVtable::layout().with_methods(SCENE_OBJECT_METHODS.as_slice())
    }
}

impl Deref for SceneObject {
    type Target = NetObject;

    fn deref(&self) -> (base: &NetObject)
        ensures
            *base == self.parent,
    {
        &self.parent
    }
}

impl DerefMut for SceneObject {
    fn deref_mut(&mut self) -> (base: &mut NetObject)
        ensures
            *base == old(self).parent,
    {
        &mut self.parent
    }
}

impl Vtable for SceneObject {
    type Vtable = SceneObjectVtable;

    open spec fn table(&self) -> usize {
        self.parent.table()
    }

    fn vtable(&self) -> (address: usize) {
        self.parent.vtable()
    }
}

} // verus!
