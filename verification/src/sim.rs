//! Objects of the simulation and of the scene.

pub mod object;

pub use object::{NetObject, NetObjectVtable, SceneObject, SceneObjectVtable};
