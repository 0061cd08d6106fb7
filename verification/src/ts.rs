//! Shapes: the engine's three-dimensional models.

pub mod shape;
pub mod tool_vec;
pub mod transform;

pub use shape::{
    tge_compute_accelerator, ConvexHullAccelerator, Decal, DecalState, IflMaterial, Node, Object,
    Sequence, TsShapeVtable,
};
pub use tool_vec::ToolVec;
pub use transform::Quat16;
