use crate::engine_core::resource::ResourceInstance;
use crate::engine_core::resource::ResourceInstanceVtable;
use crate::interop::fn_ptr::TgeAddr;
use crate::interop::platform::{address_for, tge_addr, Platform};
use crate::interop::vtable::{Slot, Vtable, VtableLayout};
use vstd::prelude::*;

verus! {

/// How the pixels of a bitmap are stored. The last five are compressed
/// formats that the engine does not know by itself.
#[derive(Debug, Copy, Clone, PartialEq, Eq, Structural)]
pub enum BitmapFormat {
    Palettized,
    Intensity,
    Rgb,
    Rgba,
    Alpha,
    Rgb565,
    Rgb5551,
    Luminance,
    XDxt1,
    XDxt3,
    XDxt5,
    XBc5S,
    XBc5U,
}

impl BitmapFormat {
    /// The number by which the engine knows the format.
    pub open spec fn code(self) -> u32 {
        match self {
            BitmapFormat::Palettized => 0,
            BitmapFormat::Intensity => 1,
            BitmapFormat::Rgb => 2,
            BitmapFormat::Rgba => 3,
            BitmapFormat::Alpha => 4,
            BitmapFormat::Rgb565 => 5,
            BitmapFormat::Rgb5551 => 6,
            BitmapFormat::Luminance => 7,
            BitmapFormat::XDxt1 => 8,
            BitmapFormat::XDxt3 => 9,
            BitmapFormat::XDxt5 => 10,
            BitmapFormat::XBc5S => 11,
            BitmapFormat::XBc5U => 12,
        }
    }

    /// Returns the number by which the engine knows the format.
    pub fn raw(self) -> (code: u32)
        ensures
            code == self.code(),
    {
        match self {
            BitmapFormat::Palettized => 0,
            BitmapFormat::Intensity => 1,
            BitmapFormat::Rgb => 2,
            BitmapFormat::Rgba => 3,
            BitmapFormat::Alpha => 4,
            BitmapFormat::Rgb565 => 5,
            BitmapFormat::Rgb5551 => 6,
            BitmapFormat::Luminance => 7,
            BitmapFormat::XDxt1 => 8,
            BitmapFormat::XDxt3 => 9,
            BitmapFormat::XDxt5 => 10,
            BitmapFormat::XBc5S => 11,
            BitmapFormat::XBc5U => 12,
        }
    }

    /// The format that the engine knows by `code`: `None` exactly for a
    /// number that stands for no format.
    pub fn from_raw(code: u32) -> (format: Option<BitmapFormat>)
        ensures
            match format {
                Some(f) => f.code() == code,
                None => code > 12,
            },
    {
        match code {
            0 => Some(BitmapFormat::Palettized),
            1 => Some(BitmapFormat::Intensity),
            2 => Some(BitmapFormat::Rgb),
            3 => Some(BitmapFormat::Rgba),
            4 => Some(BitmapFormat::Alpha),
            5 => Some(BitmapFormat::Rgb565),
            6 => Some(BitmapFormat::Rgb5551),
            7 => Some(BitmapFormat::Luminance),
            8 => Some(BitmapFormat::XDxt1),
            9 => Some(BitmapFormat::XDxt3),
            10 => Some(BitmapFormat::XDxt5),
            11 => Some(BitmapFormat::XBc5S),
            12 => Some(BitmapFormat::XBc5U),
            _ => None,
        }
    }
}

/// The table of a bitmap: that of a resource instance.
#[derive(Debug, Clone, Copy, PartialEq, Eq)]
pub struct GBitmapVtable;

impl GBitmapVtable {
    /// The slots of the table: those of a resource instance and no more.
    pub open spec fn slots() -> Seq<Slot> {
        ResourceInstanceVtable::slots()
    }

    /// Returns the slots of the table.
    pub fn layout() -> (layout: VtableLayout)
        ensures
            layout@ == Self::slots(),
    {
        ResourceInstanceVtable::layout()
    }
}

/// Where the constructor of a bitmap stands.
pub fn tge_gbitmap_ctor(platform: Platform) -> (address: TgeAddr)
    ensures
        address.0 == address_for(platform, 0x403175, 0x5c3f0),
{
    tge_addr(platform, 0x403175, 0x5c3f0)
}

/// Where the method stands that gives a bitmap room for its pixels.
pub fn tge_allocate_bitmap(platform: Platform) -> (address: TgeAddr)
    ensures
        address.0 == address_for(platform, 0x408b57, 0x5ae00),
{
    tge_addr(platform, 0x408b57, 0x5ae00)
}

/// Where the method stands that computes the smaller levels of a bitmap.
pub fn tge_extrude_mip_levels(platform: Platform) -> (address: TgeAddr)
    ensures
        address.0 == address_for(platform, 0x4091dd, 0x5b730),
{
    tge_addr(platform, 0x4091dd, 0x5b730)
}

/// The most mip levels that a bitmap holds.
pub const MAX_MIP_LEVELS: usize = 10;

/// A bitmap with its mip levels, the largest first, one after the other in
/// `bits`.
#[derive(Debug, Clone, PartialEq, Eq)]
pub struct GBitmap {
    pub parent: ResourceInstance,
    pub format: BitmapFormat,
    pub bits: Vec<u8>,
    pub byte_size: u32,
    pub width: u32,
    pub height: u32,
    pub bytes_per_pixel: u32,
    pub num_mip_levels: u32,
    pub mip_level_offsets: [u32; 10],
    pub palette: usize,
}

impl Vtable for GBitmap {
    type Vtable = GBitmapVtable;

    open spec fn table(&self) -> usize {
        self.parent.table()
    }

    fn vtable(&self) -> (address: usize) {
        self.parent.vtable()
    }
}

/// The extent of mip level `level` of a bitmap whose largest level has the
/// extent `extent`: halved, rounding down, once per level.
pub open spec fn mip_extent(extent: u32, level: u32) -> u32 {
    extent >> level
}

impl GBitmap {
    /// The base of a bitmap that belongs to no table and to no resource yet.
    pub open spec fn empty_parent() -> ResourceInstance {
        ResourceInstance { vtable: 0, source_resource: 0 }
    }

    /// A bitmap without pixels: every size and offset is zero. It belongs to
    /// no table and to no resource yet.
    pub fn empty() -> (bitmap: GBitmap)
        ensures
            bitmap.parent == GBitmap::empty_parent(),
            bitmap.format == BitmapFormat::Palettized,
            bitmap.bits@ == Seq::<u8>::empty(),
            bitmap.byte_size == 0,
            bitmap.width == 0,
            bitmap.height == 0,
            bitmap.bytes_per_pixel == 0,
            bitmap.num_mip_levels == 0,
            forall|i: int| 0 <= i < 10 ==> bitmap.mip_level_offsets[i] == 0,
            bitmap.palette == 0,
    {
        GBitmap {
            parent: ResourceInstance { vtable: 0, source_resource: 0 },
            format: BitmapFormat::Palettized,
            bits: Vec::new(),
            byte_size: 0,
            width: 0,
            height: 0,
            bytes_per_pixel: 0,
            num_mip_levels: 0,
            mip_level_offsets: [0u32; 10],
            palette: 0,
        }
    }

    /// Returns the width of a mip level in pixels.
    pub fn mip_width(&self, level: u32) -> (w: u32)
        requires
            level < 32,
        ensures
            w == mip_extent(self.width, level),
    {
        self.width >> level
    }

    /// Returns the height of a mip level in pixels.
    pub fn mip_height(&self, level: u32) -> (h: u32)
        requires
            level < 32,
        ensures
            h == mip_extent(self.height, level),
    {
        self.height >> level
    }

    /// Returns the place in `bits` at which a mip level begins.
    pub fn mip_bits(&self, level: u32) -> (offset: usize)
        requires
            level < 10,
        ensures
            offset == self.mip_level_offsets[level as int],
    {
        self.mip_level_offsets[level as usize] as usize
    }
}

/// Halving an extent once per level is dividing it by two to the level, and
/// never makes it larger.
pub proof fn lemma_mip_extent_shrinks(extent: u32, level: u32)
    requires
        level < 32,
    ensures
        mip_extent(extent, level) <= extent,
        mip_extent(extent, 0) == extent,
        level < 31 ==> mip_extent(extent, (level + 1) as u32) == mip_extent(extent, level) / 2,
{
    assert(extent >> level <= extent) by (bit_vector)
        requires
            level < 32,
    ;
    assert(extent >> 0 == extent) by (bit_vector);
    if level < 31 {
        let next = (level + 1) as u32;
        assert(extent >> next == (extent >> level) / 2) by (bit_vector)
            requires
                level < 31,
                next == level + 1,
        ;
    }
}

} // verus!
