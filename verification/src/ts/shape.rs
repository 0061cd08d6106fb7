use crate::engine_core::resource::ResourceInstanceVtable;
use crate::interop::fn_ptr::TgeAddr;
use crate::interop::platform::{address_for, tge_addr, Platform};
use crate::interop::vtable::{Slot, VtableLayout};
use vstd::prelude::*;

verus! {

/// What speeds up collisions with the convex hull of one detail level: the
/// points of the hull, the normals of its faces, and for each point a row
/// that lists the points, edges and faces around it. A point or a normal is
/// three numbers of four bytes each, kept here as the bytes themselves.
#[derive(Debug, Clone, PartialEq, Eq)]
pub struct ConvexHullAccelerator {
    pub num_verts: i32,
    pub vertex_list: Vec<u8>,
    pub normal_list: Vec<u8>,
    pub emit_strings: Vec<Vec<u8>>,
}

pub struct ConvexHullAcceleratorView {
    pub num_verts: i32,
    pub vertex_list: Seq<u8>,
    pub normal_list: Seq<u8>,
    pub emit_strings: Seq<Seq<u8>>,
}

/// The rows of an accelerator, each as its bytes.
pub open spec fn rows_view(rows: Vec<Vec<u8>>) -> Seq<Seq<u8>> {
    Seq::new(rows@.len(), |i: int| rows@[i]@)
}

impl DeepView for ConvexHullAccelerator {
    type V = ConvexHullAcceleratorView;

    open spec fn deep_view(&self) -> ConvexHullAcceleratorView {
        ConvexHullAcceleratorView {
            num_verts: self.num_verts,
            vertex_list: self.vertex_list@,
            normal_list: self.normal_list@,
            emit_strings: rows_view(self.emit_strings),
        }
    }
}

#[derive(Debug, Copy, Clone, PartialEq, Eq, Structural)]
pub struct Decal {
    pub name_index: i32,
    pub num_meshes: i32,
    pub start_mesh_index: i32,
    pub object_index: i32,
    pub next_sibling: i32,
}

#[derive(Debug, Copy, Clone, PartialEq, Eq, Structural)]
pub struct DecalState {
    pub frame_index: i32,
}

#[derive(Debug, Copy, Clone, PartialEq, Eq, Structural)]
pub struct IflMaterial {
    pub name_index: i32,
    pub material_slot: i32,
    pub first_frame: i32,
    pub first_frame_off_time_index: i32,
    pub num_frames: i32,
}

#[derive(Debug, Copy, Clone, PartialEq, Eq, Structural)]
pub struct Node {
    pub name_index: i32,
    pub parent_index: i32,
    pub first_object: i32,
    pub first_child: i32,
    pub next_sibling: i32,
}

#[derive(Debug, Copy, Clone, PartialEq, Eq, Structural)]
pub struct Object {
    pub name_index: i32,
    pub num_meshes: i32,
    pub start_mesh_index: i32,
    pub node_index: i32,
    pub next_sibling: i32,
    pub first_decal: i32,
}

#[derive(Debug, Copy, Clone, PartialEq, Eq)]
pub struct Sequence {}

/// The table of a shape: that of a resource instance.
#[derive(Debug, Clone, Copy, PartialEq, Eq)]
pub struct TsShapeVtable;

impl TsShapeVtable {
    /// The slots of the table: those of a resource instance and no more.
    pub open spec fn slots() -> Seq<Slot> {
        ResourceInstanceVtable::slots()
    }

    /// Returns the slots of the table.
    pub fn layout() -> (layout: VtableLayout)
        ensures
            layout@ == Self::slots(),
    {
        ResourceInstanceVtable::layout()
    }
}

/// Where the method stands that computes the collision accelerator of one
/// detail level of a shape.
pub fn tge_compute_accelerator(platform: Platform) -> (address: TgeAddr)
    ensures
        address.0 == address_for(platform, 0x403553, 0x1cc530),
{
    tge_addr(platform, 0x403553, 0x1cc530)
}

} // verus!
