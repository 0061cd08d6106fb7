use crate::interop::fn_ptr::TgeAddr;
use crate::interop::platform::{address_for, tge_addr, Platform};
use vstd::prelude::*;

verus! {

/// What the texture manager keeps of one texture. Links to other records are
/// held as addresses.
#[derive(Debug, Clone, Copy, PartialEq, Eq, Structural)]
pub struct TextureObject {
    pub next: usize,
    pub prev: usize,
    pub hash_next: usize,
    pub gl_texture_name: u32,
    pub gl_texture_name_small: u32,
    pub texture_key: usize,
    pub bitmap: usize,
    pub texture_width: u32,
    pub texture_height: u32,
    pub bitmap_width: u32,
    pub bitmap_height: u32,
    pub downloaded_width: u32,
    pub downloaded_height: u32,
    pub texture_type: u32,
    pub filter_nearest: bool,
    pub clamp: bool,
    pub holding: bool,
    pub ref_count: i32,
}

/// Where the function stands that makes a texture of a bitmap.
pub fn tge_create_gl_name(platform: Platform) -> (address: TgeAddr)
    ensures
        address.0 == address_for(platform, 0x40265d, 0x66570),
{
    tge_addr(platform, 0x40265d, 0x66570)
}

} // verus!
