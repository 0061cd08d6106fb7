//! Bitmaps and textures.

pub mod gbitmap;
pub mod texture;

pub use gbitmap::{
    tge_allocate_bitmap, tge_extrude_mip_levels, tge_gbitmap_ctor, BitmapFormat, GBitmap,
    GBitmapVtable,
};
pub use texture::{tge_create_gl_name, TextureObject};
