use crate::interop::vtable::{methods, Slot, Vtable, VtableLayout};
use crate::sim::object::{SceneObject, SceneObjectVtable};
use core::ops::{Deref, DerefMut};
use vstd::prelude::*;

verus! {

/// A scene object that takes part in the game.
#[derive(Debug, Clone, Copy, PartialEq, Eq, Structural)]
pub struct GameBase {
    pub parent: SceneObject,
}

/// The names of the methods that a game object adds.
pub const GAME_BASE_METHODS: [&'static str; 10] = [
    "on_new_data_block",
    "process_tick",
    "interpolate_tick",
    "advance_time",
    "advance_physics",
    "get_velocity",
    "get_force",
    "write_packet_data",
    "read_packet_data",
    "get_packet_data_checksum",
];

/// The table of a game object.
#[derive(Debug, Clone, Copy, PartialEq, Eq)]
pub struct GameBaseVtable;

impl GameBaseVtable {
    /// The slots of the table: those of a scene object, then its own.
    pub open spec fn slots() -> Seq<Slot> {
        SceneObjectVtable::slots() + methods(GAME_BASE_METHODS@)
    }

    /// Returns the slots of the table.
    pub fn layout() -> (layout: VtableLayout)
        ensures
            layout@ == Self::slots(),
    {
        SceneObjectVtable::layout().with_methods(GAME_BASE_METHODS.as_slice())
    }
}

impl Deref for GameBase {
    type Target = SceneObject;

    fn deref(&self) -> (base: &SceneObject)
        ensures
            *base == self.parent,
    {
        &self.parent
    }
}

impl DerefMut for GameBase {
    fn deref_mut(&mut self) -> (base: &mut SceneObject)
        ensures
            *base == old(self).parent,
    {
        &mut self.parent
    }
}

impl Vtable for GameBase {
    type Vtable = GameBaseVtable;

    open spec fn table(&self) -> usize {
        self.parent.table()
    }

    fn vtable(&self) -> (address: usize) {
        self.parent.vtable()
    }
}

/// A game object with a shape.
#[derive(Debug, Clone, Copy, PartialEq, Eq, Structural)]
pub struct ShapeBase {
    pub parent: GameBase,
}

/// The names of the methods that a shape object adds.
pub const SHAPE_BASE_METHODS: [&'static str; 58] = [
    "set_image",
    "on_image_recoil",
    "eject_shell_casing",
    "update_damage_level",
    "update_damage_state",
    "blow_up",
    "on_mount",
    "on_unmount",
    "on_impact_sceneobject_point3f",
    "on_impact_point3f",
    "control_pre_packet_send",
    "set_energy_level",
    "mount_object",
    "mount_image",
    "unmount_image",
    "get_muzzle_vector",
    "get_camera_parameters",
    "get_camera_transform",
    "get_eye_transform",
    "get_retraction_transform",
    "get_mount_transform",
    "get_muzzle_transform",
    "get_image_transform_uint_matrixf",
    "get_image_transform_uint_int_matrixf",
    "get_image_transform_uint_constchar_matrixf",
    "get_render_retraction_transform",
    "get_render_mount_transform",
    "get_render_muzzle_transform",
    "get_render_image_transform_uint_matrixf",
    "get_render_image_transform_uint_int_matrixf",
    "get_render_image_transform_uint_constchar_matrixf",
    "get_render_muzzle_vector",
    "get_render_muzzle_point",
    "get_render_eye_transform",
    "get_damage_flash",
    "set_damage_flash",
    "get_white_out",
    "set_white_out",
    "get_invincible_effect",
    "setup_invincible_effect",
    "update_invincible_effect",
    "set_velocity",
    "apply_impulse",
    "set_controlling_client",
    "set_controlling_object",
    "get_control_object",
    "set_control_object",
    "get_camera_fov",
    "get_default_camera_fov",
    "set_camera_fov",
    "is_valid_camera_fov",
    "render_mounted_image",
    "render_image",
    "calc_class_render_data",
    "on_collision",
    "get_surface_friction",
    "get_bounce_friction",
    "set_hidden",
];

/// The table of a shape object.
#[derive(Debug, Clone, Copy, PartialEq, Eq)]
pub struct ShapeBaseVtable;

impl ShapeBaseVtable {
    /// The slots of the table: those of a game object, then its own.
    pub open spec fn slots() -> Seq<Slot> {
        GameBaseVtable::slots() + methods(SHAPE_BASE_METHODS@)
    }

    /// Returns the slots of the table.
    pub fn layout() -> (layout: VtableLayout)
        ensures
            layout@ == Self::slots(),
    {
        GameBaseVtable::layout().with_methods(SHAPE_BASE_METHODS.as_slice())
    }
}

impl Deref for ShapeBase {
    type Target = GameBase;

    fn deref(&self) -> (base: &GameBase)
        ensures
            *base == self.parent,
    {
        &self.parent
    }
}

impl DerefMut for ShapeBase {
    fn deref_mut(&mut self) -> (base: &mut GameBase)
        ensures
            *base == old(self).parent,
    {
        &mut self.parent
    }
}

impl Vtable for ShapeBase {
    type Vtable = ShapeBaseVtable;

    open spec fn table(&self) -> usize {
        self.parent.table()
    }

    fn vtable(&self) -> (address: usize) {
        self.parent.vtable()
    }
}

} // verus!
