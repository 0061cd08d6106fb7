//! The engine's own containers, streams and resources.

pub mod resource;
pub mod stream;
pub mod vec;

pub use resource::{
    tge_register_extension, tge_resource_manager, ResManager, ResourceInstance,
    ResourceInstanceVtable, ResourceObject,
};
pub use stream::{SeekFrom, SeekPlan, Stream, StreamError, StreamStatus, StreamVtable};
pub use vec::{IntoIter, TgeVec};
