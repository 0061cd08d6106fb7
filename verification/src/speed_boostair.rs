//! Faster loading: compressed textures straight from their files, and
//! collision accelerators kept on disk between runs.

pub mod accel;
pub mod dds_loader;
pub mod dds_types;
pub mod io;
