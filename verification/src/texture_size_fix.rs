//! Large textures: the engine is kept from computing the smaller levels of a
//! bitmap of five hundred and twelve pixels or more by itself, and the
//! graphics library computes them instead.

use crate::dgl::gbitmap::GBitmap;
use crate::dgl::texture::TextureObject;
use crate::gl::{GlCall, TextureFilter};
use crate::interop::fn_ptr::TgeAddr;
use crate::interop::platform::{address_for, tge_addr, Platform};
use vstd::prelude::*;

verus! {

/// The greatest height of an image that the patched loader takes.
pub const MAX_PNG_HEIGHT: i32 = 4096;

/// What the patched loader says of an image that is taller.
pub const PNG_TOO_TALL: &'static str = "Error, cannot load pngs taller than 4096 pixels!";

/// Whether the engine is to compute the smaller levels of a bitmap that it
/// allocates: only where it was asked to and the bitmap is less than five
/// hundred and twelve pixels wide and high.
pub open spec fn engine_extrudes(width: u32, height: u32, extrude_mip_levels: bool) -> bool {
    extrude_mip_levels && width < 512 && height < 512
}

/// Decides what the engine's own function is told about the smaller levels.
pub fn my_allocate_bitmap(width: u32, height: u32, extrude_mip_levels: bool) -> (extrude: bool)
    ensures
        extrude == engine_extrudes(width, height, extrude_mip_levels),
{
    extrude_mip_levels && width < 512 && height < 512
}

/// Whether the graphics library is to compute the smaller levels of a
/// texture: not for the first three types of texture, not for a bitmap of at
/// most five hundred and twelve pixels each way, and not for one that has
/// its smaller levels.
pub open spec fn needs_mipmaps(bitmap: GBitmap, texture_type: u32) -> bool {
    &&& !(texture_type == 0 || texture_type == 1 || texture_type == 2)
    &&& !(bitmap.width <= 512 && bitmap.height <= 512)
    &&& !(bitmap.num_mip_levels > 1)
}

/// The calls that have the graphics library compute the smaller levels of
/// the texture `name`.
pub open spec fn mipmap_calls(name: u32) -> Seq<GlCall> {
    seq![
        GlCall::BindTexture { name },
        GlCall::GenerateMipmap,
        GlCall::MinFilter { filter: TextureFilter::LinearMipmapLinear },
        GlCall::BindTexture { name: 0 },
    ]
}

/// The calls for the texture `name`, if it needs any.
pub open spec fn fix_calls(name: u32, bitmap: GBitmap, texture_type: u32) -> Seq<GlCall> {
    if needs_mipmaps(bitmap, texture_type) {
        mipmap_calls(name)
    } else {
        Seq::<GlCall>::empty()
    }
}

/// Decides the calls that give the texture `name` its smaller levels.
pub fn fix_texture(name: u32, bitmap: &GBitmap, texture_type: u32) -> (calls: Vec<GlCall>)
    ensures
        calls@ == fix_calls(name, *bitmap, texture_type),
{
    let mut calls: Vec<GlCall> = Vec::new();
    if texture_type == 0 || texture_type == 1 || texture_type == 2 {
        return calls;
    }
    if bitmap.width <= 512 && bitmap.height <= 512 {
        return calls;
    }
    if bitmap.num_mip_levels > 1 {
        return calls;
    }
    calls.push(GlCall::BindTexture { name });
    calls.push(GlCall::GenerateMipmap);
    calls.push(GlCall::MinFilter { filter: TextureFilter::LinearMipmapLinear });
    calls.push(GlCall::BindTexture { name: 0 });
    assert(calls@ =~= mipmap_calls(name));
    calls
}

/// The calls for the texture `name` where there is such a texture: zero
/// names none.
pub open spec fn fix_calls_if_named(name: u32, bitmap: GBitmap, texture_type: u32) -> Seq<GlCall> {
    if name != 0 {
        fix_calls(name, bitmap, texture_type)
    } else {
        Seq::<GlCall>::empty()
    }
}

/// What follows the engine's making of a texture: where the engine failed,
/// nothing, and the failure is handed on; else the calls for the texture and
/// then those for its small twin.
pub fn my_create_gl_name(made: bool, bitmap: &GBitmap, texture_type: u32, to: &TextureObject)
    -> (r: (bool, Vec<GlCall>))
    ensures
        r.0 == made,
        r.1@ == if made {
            fix_calls_if_named(to.gl_texture_name, *bitmap, texture_type) + fix_calls_if_named(
                to.gl_texture_name_small,
                *bitmap,
                texture_type,
            )
        } else {
            Seq::<GlCall>::empty()
        },
{
    let mut calls: Vec<GlCall> = Vec::new();
    if !made {
        return (false, calls);
    }
    if to.gl_texture_name != 0 {
        calls = fix_texture(to.gl_texture_name, bitmap, texture_type);
    }
    let ghost first = calls@;
    if to.gl_texture_name_small != 0 {
        let mut small = fix_texture(to.gl_texture_name_small, bitmap, texture_type);
        calls.append(&mut small);
    }
    assert(calls@ =~= first + fix_calls_if_named(to.gl_texture_name_small, *bitmap, texture_type));
    (true, calls)
}

/// The places in the engine's image loader that the plugin overwrites.
#[derive(Debug, Clone, Copy, PartialEq, Eq, Structural)]
pub enum Patch {
    /// The height with which the loader compares.
    HeightCompare,
    /// The address of the text that the loader shows for a taller image.
    ErrorMessage,
    /// The first use of the address of the row table.
    RowPointers1,
    /// The second use of the address of the row table.
    RowPointers2,
}

impl Patch {
    /// Where the place stands in the build for Windows and in that for
    /// macOS.
    pub open spec fn addresses(self) -> (usize, usize) {
        match self {
            Patch::HeightCompare => (0x451a56, 0x600de),
            Patch::ErrorMessage => (0x451a5d, 0x601e4),
            Patch::RowPointers1 => (0x451a86, 0x60103),
            Patch::RowPointers2 => (0x451a99, 0x60124),
        }
    }

    /// Returns where the place stands on `platform`.
    pub fn address(self, platform: Platform) -> (address: TgeAddr)
        ensures
            address.0 == address_for(platform, self.addresses().0, self.addresses().1),
    {
        match self {
            Patch::HeightCompare => tge_addr(platform, 0x451a56, 0x600de),
            Patch::ErrorMessage => tge_addr(platform, 0x451a5d, 0x601e4),
            Patch::RowPointers1 => tge_addr(platform, 0x451a86, 0x60103),
            Patch::RowPointers2 => tge_addr(platform, 0x451a99, 0x60124),
        }
    }
}

} // verus!
