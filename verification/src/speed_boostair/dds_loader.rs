//! Reading a surface file into a bitmap.

use super::dds_types::{
    ddspf_a1r5g5b5, ddspf_a8, ddspf_a8r8g8b8, ddspf_ati2, ddspf_bc5_snorm, ddspf_bc5_unorm,
    ddspf_dxt1, ddspf_dxt3, ddspf_dxt5, ddspf_l8, ddspf_r5g6b5, ddspf_r8g8b8, pixel_format_at,
    Header, PixelFormat, DDS_FOURCC, DDS_HEADER_FLAGS_MIPMAP, DDS_HEADER_FLAGS_TEXTURE,
    DDS_HEADER_FLAGS_VOLUME, DDS_ALPHA, DDS_LUMINANCE, DDS_RGB, DDS_RGBA, HEADER_SIZE,
};
use super::io::le_u32;
use crate::dgl::gbitmap::{mip_extent, tge_extrude_mip_levels, BitmapFormat, GBitmap};
use crate::dgl::texture::tge_create_gl_name;
use crate::interop::fn_ptr::{FnPtr, TgeAddr};
use crate::interop::original_fn::OriginalFn;
use crate::interop::platform::{address_for, tge_addr, Platform};
use crate::plugin::{lemma_two_steps, InterceptState, Plugin};
use crate::gl::{CompressedFormat, GlCall, TextureFilter, TextureWrap};
use vstd::prelude::*;
use vstd::slice::{slice_subrange, slice_to_vec};

verus! {

/// Describes the layout of texture data.
#[derive(Debug, Clone, Copy, PartialEq, Eq, Structural)]
pub enum TextureLayout {
    /// The texture is divided into pixels which are N bytes large.
    Pixels(usize),
    /// The texture is divided into blocks of four by four pixels which are N
    /// bytes large.
    Blocks(usize),
}

/// The layout in which the engine stores a format.
pub open spec fn layout_of(format: BitmapFormat) -> TextureLayout {
    match format {
        BitmapFormat::Palettized => TextureLayout::Pixels(1),
        BitmapFormat::Intensity => TextureLayout::Pixels(1),
        BitmapFormat::Rgb => TextureLayout::Pixels(3),
        BitmapFormat::Rgba => TextureLayout::Pixels(4),
        BitmapFormat::Alpha => TextureLayout::Pixels(1),
        BitmapFormat::Rgb565 => TextureLayout::Pixels(2),
        BitmapFormat::Rgb5551 => TextureLayout::Pixels(2),
        BitmapFormat::Luminance => TextureLayout::Pixels(1),
        BitmapFormat::XDxt1 => TextureLayout::Blocks(8),
        BitmapFormat::XDxt3 => TextureLayout::Blocks(16),
        BitmapFormat::XDxt5 => TextureLayout::Blocks(16),
        BitmapFormat::XBc5S => TextureLayout::Blocks(16),
        BitmapFormat::XBc5U => TextureLayout::Blocks(16),
    }
}

impl TextureLayout {
    /// The size of a `width` by `height` texture in bytes: a pixel for every
    /// point, or a block for every four by four points or part of them.
    pub open spec fn size_of(self, width: int, height: int) -> int {
        match self {
            TextureLayout::Pixels(bpp) => width * height * bpp,
            TextureLayout::Blocks(block_size) => ((width + 3) / 4) * ((height + 3) / 4)
                * block_size,
        }
    }

    /// Whether the size of a `width` by `height` texture can be computed in
    /// machine words, step by step.
    pub open spec fn countable(self, width: int, height: int) -> bool {
        match self {
            TextureLayout::Pixels(bpp) => width * height <= usize::MAX && width * height * bpp
                <= usize::MAX,
            TextureLayout::Blocks(block_size) => width + 3 <= usize::MAX && height + 3
                <= usize::MAX && ((width + 3) / 4) * ((height + 3) / 4) <= usize::MAX && ((width
                + 3) / 4) * ((height + 3) / 4) * block_size <= usize::MAX,
        }
    }

    /// Returns the size of a `width` by `height` texture in bytes.
    pub fn data_size(&self, width: u32, height: u32) -> (size: usize)
        requires
            self.countable(width as int, height as int),
        ensures
            size == self.size_of(width as int, height as int),
    {
        match *self {
            TextureLayout::Pixels(bpp) => (width as usize) * (height as usize) * bpp,
            TextureLayout::Blocks(block_size) => {
                let width_blocks = (width as usize + 3) / 4;
                let height_blocks = (height as usize + 3) / 4;
                width_blocks * height_blocks * block_size
            },
        }
    }

    /// Returns the size of a `width` by `height` texture in bytes where it
    /// can be held in thirty-two bits: `None` exactly where it cannot.
    pub fn checked_data_size(&self, width: u32, height: u32) -> (size: Option<u32>)
        ensures
            match size {
                Some(s) => s == self.size_of(width as int, height as int),
                None => self.size_of(width as int, height as int) > u32::MAX,
            },
    {
        let (area, unit): (u64, usize) = match *self {
            TextureLayout::Pixels(bpp) => {
                assert(0 <= width * height <= 0xffff_ffff * 0xffff_ffff) by (nonlinear_arith)
                    requires
                        0 <= width <= 0xffff_ffff,
                        0 <= height <= 0xffff_ffff,
                ;
                ((width as u64) * (height as u64), bpp)
            },
            TextureLayout::Blocks(block_size) => {
                let width_blocks = (width as u64 + 3) / 4;
                let height_blocks = (height as u64 + 3) / 4;
                assert(0 <= width_blocks * height_blocks <= 0x4000_0000 * 0x4000_0000)
                    by (nonlinear_arith)
                    requires
                        0 <= width_blocks <= 0x4000_0000,
                        0 <= height_blocks <= 0x4000_0000,
                ;
                (width_blocks * height_blocks, block_size)
            },
        };
        assert(self.size_of(width as int, height as int) == area * unit);
        if area == 0 || unit == 0 {
            assert(area * unit == 0) by (nonlinear_arith)
                requires
                    area == 0 || unit == 0,
            ;
            return Some(0);
        }
        if area > 0xffff_ffff || unit > 0xffff_ffff {
            assert(area * unit > 0xffff_ffff) by (nonlinear_arith)
                requires
                    area >= 1,
                    unit >= 1,
                    area > 0xffff_ffff || unit > 0xffff_ffff,
            ;
            return None;
        }
        assert(area * unit <= 0xffff_ffff * 0xffff_ffff) by (nonlinear_arith)
            requires
                0 <= area <= 0xffff_ffff,
                0 <= unit <= 0xffff_ffff,
        ;
        let total: u64 = area * (unit as u64);
        if total > 0xffff_ffff {
            None
        } else {
            Some(total as u32)
        }
    }
}

impl From<BitmapFormat> for TextureLayout {
    fn from(format: BitmapFormat) -> (layout: Self) {
        match format {
            BitmapFormat::Palettized => TextureLayout::Pixels(1),
            BitmapFormat::Intensity => TextureLayout::Pixels(1),
            BitmapFormat::Rgb => TextureLayout::Pixels(3),
            BitmapFormat::Rgba => TextureLayout::Pixels(4),
            BitmapFormat::Alpha => TextureLayout::Pixels(1),
            BitmapFormat::Rgb565 => TextureLayout::Pixels(2),
            BitmapFormat::Rgb5551 => TextureLayout::Pixels(2),
            BitmapFormat::Luminance => TextureLayout::Pixels(1),
            BitmapFormat::XDxt1 => TextureLayout::Blocks(8),
            BitmapFormat::XDxt3 => TextureLayout::Blocks(16),
            BitmapFormat::XDxt5 => TextureLayout::Blocks(16),
            BitmapFormat::XBc5S => TextureLayout::Blocks(16),
            BitmapFormat::XBc5U => TextureLayout::Blocks(16),
        }
    }
}

impl vstd::std_specs::convert::FromSpecImpl<BitmapFormat> for TextureLayout {
    open spec fn obeys_from_spec() -> bool {
        true
    }

    open spec fn from_spec(format: BitmapFormat) -> Self {
        layout_of(format)
    }
}

/// The format of the engine that holds the pixels of a surface stored as
/// `format`, where there is one.
pub open spec fn bitmap_format_of(format: PixelFormat) -> Option<BitmapFormat> {
    if format == ddspf_r8g8b8() {
        Some(BitmapFormat::Rgb)
    } else if format == ddspf_a8r8g8b8() {
        Some(BitmapFormat::Rgba)
    } else if format == ddspf_a8() {
        Some(BitmapFormat::Alpha)
    } else if format == ddspf_r5g6b5() {
        Some(BitmapFormat::Rgb565)
    } else if format == ddspf_a1r5g5b5() {
        Some(BitmapFormat::Rgb5551)
    } else if format == ddspf_l8() {
        Some(BitmapFormat::Luminance)
    } else if format == ddspf_dxt1() {
        Some(BitmapFormat::XDxt1)
    } else if format == ddspf_dxt3() {
        Some(BitmapFormat::XDxt3)
    } else if format == ddspf_dxt5() {
        Some(BitmapFormat::XDxt5)
    } else if format == ddspf_bc5_snorm() {
        Some(BitmapFormat::XBc5S)
    } else if format == ddspf_bc5_unorm() || format == ddspf_ati2() {
        Some(BitmapFormat::XBc5U)
    } else {
        None
    }
}

/// What is said of a pixel format that the engine cannot hold.
pub open spec fn unsupported_format() -> Seq<char> {
    "unsupported texture format"@
}

/// Returns the `BitmapFormat` corresponding to a DDS pixel format.
pub fn dds_bitmap_format(format: &PixelFormat) -> (r: Result<BitmapFormat, &'static str>)
    ensures
        match r {
            Ok(f) => bitmap_format_of(*format) == Some(f),
            Err(e) => bitmap_format_of(*format) is None && e@ == unsupported_format(),
        },
{
    let f = *format;
    if f == PixelFormat::raw(DDS_RGB, 24, 0xff0000, 0x00ff00, 0x0000ff, 0x000000) {
        Ok(BitmapFormat::Rgb)
    } else if f == PixelFormat::raw(DDS_RGBA, 32, 0x00ff0000, 0x0000ff00, 0x000000ff, 0xff000000) {
        Ok(BitmapFormat::Rgba)
    } else if f == PixelFormat::raw(DDS_ALPHA, 8, 0x00, 0x00, 0x00, 0xff) {
        Ok(BitmapFormat::Alpha)
    } else if f == PixelFormat::raw(DDS_RGB, 16, 0xf800, 0x07e0, 0x001f, 0x0000) {
        Ok(BitmapFormat::Rgb565)
    } else if f == PixelFormat::raw(DDS_RGBA, 16, 0x7c00, 0x03e0, 0x001f, 0x8000) {
        Ok(BitmapFormat::Rgb5551)
    } else if f == PixelFormat::raw(DDS_LUMINANCE, 8, 0xff, 0x00, 0x00, 0x00) {
        Ok(BitmapFormat::Luminance)
    } else if f.size == 32 && f.flags == DDS_FOURCC && f.bits == 0 && f.r_mask == 0 && f.g_mask
        == 0 && f.b_mask == 0 && f.a_mask == 0 {
        if f.fourcc == 0x3154_5844 {
            Ok(BitmapFormat::XDxt1)
        } else if f.fourcc == 0x3354_5844 {
            Ok(BitmapFormat::XDxt3)
        } else if f.fourcc == 0x3554_5844 {
            Ok(BitmapFormat::XDxt5)
        } else if f.fourcc == 0x5335_4342 {
            Ok(BitmapFormat::XBc5S)
        } else if f.fourcc == 0x5535_4342 || f.fourcc == 0x3249_5441 {
            Ok(BitmapFormat::XBc5U)
        } else {
            Err("unsupported texture format")
        }
    } else {
        Err("unsupported texture format")
    }
}

/// The byte in place `i` once red and blue have changed places: in every
/// whole group of `channels` bytes the first byte and the third stand in
/// each other's place; every other byte, and every byte of a group that is
/// cut short by the end of `data`, keeps its place.
pub open spec fn swapped_byte(data: Seq<u8>, channels: int, i: int) -> u8 {
    if (i / channels + 1) * channels <= data.len() {
        if i % channels == 0 {
            data[i + 2]
        } else if i % channels == 2 {
            data[i - 2]
        } else {
            data[i]
        }
    } else {
        data[i]
    }
}

/// `data` with red and blue exchanged in pixels of `channels` bytes.
pub open spec fn swapped(data: Seq<u8>, channels: int) -> Seq<u8> {
    Seq::new(data.len(), |i: int| swapped_byte(data, channels, i))
}

/// The group and the place in its group of byte `at + place`, where `at` is
/// the start of group `group`.
proof fn lemma_place_in_group(channels: int, group: int, place: int)
    requires
        channels > 0,
        0 <= place < channels,
    ensures
        (group * channels + place) / channels == group,
        (group * channels + place) % channels == place,
{
    vstd::arithmetic::div_mod::lemma_fundamental_div_mod_converse(
        group * channels + place,
        channels,
        group,
        place,
    );
}

/// Swaps red and blue in pixels of `channels` bytes each.
pub fn swap_channels(data: &mut Vec<u8>, channels: usize)
    requires
        channels >= 3,
    ensures
        final(data)@ == swapped(old(data)@, channels as int),
{
    let ghost before = data@;
    let ghost mut done: int = 0;
    let mut at: usize = 0;
    while channels <= data.len() - at
        invariant
            channels >= 3,
            0 <= done,
            at == done * channels,
            at <= data.len(),
            data.len() == before.len(),
            forall|i: int| 0 <= i < at ==> data@[i] == swapped_byte(before, channels as int, i),
            forall|i: int| at <= i < before.len() ==> data@[i] == before[i],
        decreases data.len() - at,
    {
        let ghost so_far = data@;
        let first = data[at];
        let third = data[at + 2];
        data.set(at, third);
        data.set(at + 2, first);
        proof {
            assert((done + 1) * channels == at + channels) by (nonlinear_arith)
                requires
                    at == done * channels,
            ;
            assert forall|i: int| 0 <= i < at + channels implies data@[i] == swapped_byte(
                before,
                channels as int,
                i,
            ) by {
                if i >= at {
                    lemma_place_in_group(channels as int, done, i - at);
                } else {
                    assert(data@[i] == so_far[i]);
                }
            }
            done = done + 1;
        }
        at = at + channels;
    }
    proof {
        assert((done + 1) * channels == at + channels) by (nonlinear_arith)
            requires
                at == done * channels,
        ;
        assert forall|i: int| at <= i < before.len() implies before[i] == swapped_byte(
            before,
            channels as int,
            i,
        ) by {
            lemma_place_in_group(channels as int, done, i - at);
        }
        assert(data@ =~= swapped(before, channels as int));
    }
}

/// Exchanging red and blue twice gives every byte its place back.
pub proof fn lemma_swapped_twice(data: Seq<u8>, channels: int)
    requires
        channels >= 3,
    ensures
        swapped(swapped(data, channels), channels) == data,
{
    let once = swapped(data, channels);
    assert forall|i: int| 0 <= i < data.len() implies swapped_byte(once, channels, i)
        == data[i] by {
        let group = i / channels;
        let place = i % channels;
        vstd::arithmetic::div_mod::lemma_fundamental_div_mod(i, channels);
        assert(i == channels * group + place);
        assert(0 <= place < channels) by {
            vstd::arithmetic::div_mod::lemma_mod_bound(i, channels);
        }
        assert(group * channels == channels * group) by (nonlinear_arith);
        if (group + 1) * channels <= data.len() {
            assert((group + 1) * channels == group * channels + channels) by (nonlinear_arith);
            if place == 0 {
                lemma_place_in_group(channels, group, 2);
            } else if place == 2 {
                lemma_place_in_group(channels, group, 0);
            }
        }
    }
    assert(swapped(once, channels) =~= data);
}

/// The number of mip levels that a header announces: one, unless the header
/// says that it counts them, and then at least one and at most ten.
pub open spec fn mip_levels_of(flags: u32, mip_map_count: u32) -> u32 {
    if flags & DDS_HEADER_FLAGS_MIPMAP != 0 {
        if mip_map_count < 1 {
            1
        } else if mip_map_count > 10 {
            10
        } else {
            mip_map_count
        }
    } else {
        1
    }
}

/// The size in bytes of mip level `level` of a texture whose largest level is
/// `width` by `height`.
pub open spec fn level_size(layout: TextureLayout, width: u32, height: u32, level: int) -> int {
    layout.size_of(
        mip_extent(width, level as u32) as int,
        mip_extent(height, level as u32) as int,
    )
}

/// The place at which mip level `level` begins, the levels standing one
/// after the other without gaps; for the number of levels, the size of all.
pub open spec fn mip_offset(layout: TextureLayout, width: u32, height: u32, level: int) -> int
    decreases level,
{
    if level <= 0 {
        0
    } else {
        mip_offset(layout, width, height, level - 1) + level_size(
            layout,
            width,
            height,
            level - 1,
        )
    }
}

/// No level has a negative size, so the places of the levels never go back.
pub proof fn lemma_mip_offset_grows(layout: TextureLayout, width: u32, height: u32, level: int)
    requires
        0 <= level,
    ensures
        0 <= mip_offset(layout, width, height, level),
        level > 0 ==> mip_offset(layout, width, height, level - 1) <= mip_offset(
            layout,
            width,
            height,
            level,
        ),
    decreases level,
{
    if level > 0 {
        lemma_mip_offset_grows(layout, width, height, level - 1);
        let w = mip_extent(width, (level - 1) as u32) as int;
        let h = mip_extent(height, (level - 1) as u32) as int;
        match layout {
            TextureLayout::Pixels(bpp) => {
                assert(w * h * bpp >= 0) by (nonlinear_arith)
                    requires
                        w >= 0,
                        h >= 0,
                        bpp >= 0,
                ;
            },
            TextureLayout::Blocks(block_size) => {
                let wb = (w + 3) / 4;
                let hb = (h + 3) / 4;
                assert(wb * hb * block_size >= 0) by (nonlinear_arith)
                    requires
                        wb >= 0,
                        hb >= 0,
                        block_size >= 0,
                ;
            },
        }
    }
}

/// Why a surface file is refused.
#[derive(Debug, Clone, Copy, PartialEq, Eq, Structural)]
pub enum DdsError {
    /// The file ends before what it announces.
    UnexpectedEof,
    /// The file does not begin as a surface file does.
    BadMagic,
    /// The header does not have the size of a header.
    UnrecognizedHeaderSize,
    /// The header lacks the size or the format of the texture.
    MissingTextureInfo,
    /// The texture has depth, or is one face of a cube.
    NotFlat,
    /// The texture has no width or no height.
    InvalidSize,
    /// The engine cannot hold the pixel format.
    UnsupportedFormat,
    /// The pixels do not fit the thirty-two bits in which a bitmap counts
    /// its bytes.
    TooLarge,
}

impl DdsError {
    /// The text of the error.
    pub open spec fn text(self) -> Seq<char> {
        match self {
            DdsError::UnexpectedEof => "failed to fill whole buffer"@,
            DdsError::BadMagic => "bad magic"@,
            DdsError::UnrecognizedHeaderSize => "unrecognized header size"@,
            DdsError::MissingTextureInfo => "missing texture information"@,
            DdsError::NotFlat => "volumetric and cubemap textures are not supported"@,
            DdsError::InvalidSize => "invalid texture size"@,
            DdsError::UnsupportedFormat => unsupported_format(),
            DdsError::TooLarge => "texture data too large"@,
        }
    }

    /// The text of the error.
    pub fn message(self) -> (m: &'static str)
        ensures
            m@ == self.text(),
    {
        match self {
            DdsError::UnexpectedEof => "failed to fill whole buffer",
            DdsError::BadMagic => "bad magic",
            DdsError::UnrecognizedHeaderSize => "unrecognized header size",
            DdsError::MissingTextureInfo => "missing texture information",
            DdsError::NotFlat => "volumetric and cubemap textures are not supported",
            DdsError::InvalidSize => "invalid texture size",
            DdsError::UnsupportedFormat => "unsupported texture format",
            DdsError::TooLarge => "texture data too large",
        }
    }
}

/// Where the parts of a surface file stand.
pub open spec fn magic_of(data: Seq<u8>) -> Seq<u8> {
    data.subrange(0, 4)
}

pub open spec fn flags_of(data: Seq<u8>) -> u32 {
    le_u32(data, 8)
}

pub open spec fn height_of(data: Seq<u8>) -> u32 {
    le_u32(data, 12)
}

pub open spec fn width_of(data: Seq<u8>) -> u32 {
    le_u32(data, 16)
}

pub open spec fn levels_of(data: Seq<u8>) -> u32 {
    mip_levels_of(flags_of(data), le_u32(data, 28))
}

pub open spec fn format_of(data: Seq<u8>) -> Option<BitmapFormat> {
    bitmap_format_of(pixel_format_at(data, 76))
}

/// The size of all the pixels that the header of `data` announces.
pub open spec fn pixels_size(data: Seq<u8>) -> int {
    mip_offset(
        layout_of(format_of(data)->Some_0),
        width_of(data),
        height_of(data),
        levels_of(data) as int,
    )
}

/// The first reason for which the mark and the header of `data` are refused,
/// if there is one.
pub open spec fn header_error(data: Seq<u8>) -> Option<DdsError> {
    if data.len() < 4 {
        Some(DdsError::UnexpectedEof)
    } else if magic_of(data) != seq![0x44u8, 0x44u8, 0x53u8, 0x20u8] {
        Some(DdsError::BadMagic)
    } else if data.len() < 128 {
        Some(DdsError::UnexpectedEof)
    } else if le_u32(data, 4) != HEADER_SIZE {
        Some(DdsError::UnrecognizedHeaderSize)
    } else if flags_of(data) & DDS_HEADER_FLAGS_TEXTURE != DDS_HEADER_FLAGS_TEXTURE {
        Some(DdsError::MissingTextureInfo)
    } else if flags_of(data) & DDS_HEADER_FLAGS_VOLUME != 0 || le_u32(data, 112) != 0 {
        Some(DdsError::NotFlat)
    } else if width_of(data) == 0 || height_of(data) == 0 {
        Some(DdsError::InvalidSize)
    } else if format_of(data) is None {
        Some(DdsError::UnsupportedFormat)
    } else {
        None
    }
}

/// The first reason for which `data` is refused as a surface file, if there
/// is one. The file is the mark, the header, then the pixels of every level.
pub open spec fn dds_error(data: Seq<u8>) -> Option<DdsError> {
    if header_error(data) is Some {
        header_error(data)
    } else if pixels_size(data) > u32::MAX {
        Some(DdsError::TooLarge)
    } else if data.len() < 128 + pixels_size(data) {
        Some(DdsError::UnexpectedEof)
    } else {
        None
    }
}

/// The pixels as the engine wants them: a surface stores blue first where
/// the engine wants red first.
pub open spec fn engine_pixels(pixels: Seq<u8>, format: BitmapFormat) -> Seq<u8> {
    match format {
        BitmapFormat::Rgb => swapped(pixels, 3),
        BitmapFormat::Rgba => swapped(pixels, 4),
        _ => pixels,
    }
}

/// The bytes of a pixel, for an uncompressed layout; a compressed one has no
/// such number, and zero stands for it.
pub open spec fn bytes_per_pixel_of(layout: TextureLayout) -> int {
    match layout {
        TextureLayout::Pixels(bpp) => bpp as int,
        TextureLayout::Blocks(_) => 0,
    }
}

/// Reads a surface file into a bitmap.
///
/// The bitmap takes the width, the height and the format from the header,
/// and as many mip levels as the header announces, each beginning where the
/// one before it ends.
pub fn do_read_dds(data: &[u8]) -> (r: Result<GBitmap, DdsError>)
    ensures
        match r {
            Ok(bitmap) => {
                &&& dds_error(data@) is None
                &&& bitmap.parent == GBitmap::empty_parent()
                &&& bitmap.palette == 0
                &&& bitmap.width == width_of(data@)
                &&& bitmap.height == height_of(data@)
                &&& Some(bitmap.format) == format_of(data@)
                &&& bitmap.bytes_per_pixel == bytes_per_pixel_of(layout_of(bitmap.format))
                &&& bitmap.num_mip_levels == levels_of(data@)
                &&& forall|i: int|
                    0 <= i < 10 ==> bitmap.mip_level_offsets[i] == if i < levels_of(data@) {
                        mip_offset(layout_of(bitmap.format), bitmap.width, bitmap.height, i)
                    } else {
                        0
                    }
                &&& bitmap.byte_size == pixels_size(data@)
                &&& bitmap.bits@ == engine_pixels(
                    data@.subrange(128, 128 + pixels_size(data@)),
                    bitmap.format,
                )
            },
            Err(e) => dds_error(data@) == Some(e),
        },
{
    if data.len() < 4 {
        return Err(DdsError::UnexpectedEof);
    }
    if data[0] != 0x44 || data[1] != 0x44 || data[2] != 0x53 || data[3] != 0x20 {
        assert(magic_of(data@)[0] == data@[0] && magic_of(data@)[1] == data@[1] && magic_of(
            data@,
        )[2] == data@[2] && magic_of(data@)[3] == data@[3]);
        return Err(DdsError::BadMagic);
    }
    assert(magic_of(data@) =~= seq![0x44u8, 0x44u8, 0x53u8, 0x20u8]);
    if data.len() < 128 {
        return Err(DdsError::UnexpectedEof);
    }
    let header = Header::read(data, 4);
    if header.size != HEADER_SIZE {
        return Err(DdsError::UnrecognizedHeaderSize);
    } else if header.flags & DDS_HEADER_FLAGS_TEXTURE != DDS_HEADER_FLAGS_TEXTURE {
        return Err(DdsError::MissingTextureInfo);
    } else if header.flags & DDS_HEADER_FLAGS_VOLUME != 0 || header.caps2 != 0 {
        return Err(DdsError::NotFlat);
    } else if header.width == 0 || header.height == 0 {
        return Err(DdsError::InvalidSize);
    }
    let mut bitmap = GBitmap::empty();
    bitmap.width = header.width;
    bitmap.height = header.height;
    bitmap.format = match dds_bitmap_format(&header.format) {
        Ok(format) => format,
        Err(_) => {
            return Err(DdsError::UnsupportedFormat);
        },
    };
    let layout = TextureLayout::from(bitmap.format);
    bitmap.bytes_per_pixel = match layout {
        TextureLayout::Pixels(bpp) => bpp as u32,
        TextureLayout::Blocks(_) => 0,
    };
    let mut mip_levels: u32 = 1;
    if header.flags & DDS_HEADER_FLAGS_MIPMAP != 0 {
        mip_levels = if header.mip_map_count < 1 {
            1
        } else if header.mip_map_count > 10 {
            10
        } else {
            header.mip_map_count
        };
    }
    bitmap.num_mip_levels = mip_levels;
    let ghost width = header.width;
    let ghost height = header.height;
    let mut total_size: u64 = 0;
    let mut i: u32 = 0;
    while i < mip_levels
        invariant
            i <= mip_levels <= 10,
            mip_levels == levels_of(data@),
            layout == layout_of(bitmap.format),
            Some(bitmap.format) == format_of(data@),
            bitmap.width == width == width_of(data@),
            bitmap.height == height == height_of(data@),
            bitmap.parent == GBitmap::empty_parent(),
            bitmap.palette == 0,
            bitmap.num_mip_levels == mip_levels,
            bitmap.bytes_per_pixel == bytes_per_pixel_of(layout),
            bitmap.bits@ == Seq::<u8>::empty(),
            header_error(data@) is None,
            total_size == mip_offset(layout, width, height, i as int),
            total_size <= u32::MAX,
            forall|k: int|
                0 <= k < 10 ==> bitmap.mip_level_offsets[k] == if k < i {
                    mip_offset(layout, width, height, k)
                } else {
                    0
                },
        decreases mip_levels - i,
    {
        bitmap.mip_level_offsets[i as usize] = total_size as u32;
        let size = match layout.checked_data_size(bitmap.mip_width(i), bitmap.mip_height(i)) {
            Some(size) => size,
            None => {
                proof {
                    lemma_too_large(layout, width, height, i as int + 1, mip_levels as int);
                }
                return Err(DdsError::TooLarge);
            },
        };
        total_size = total_size + size as u64;
        if total_size > 0xffff_ffff {
            proof {
                lemma_too_large(layout, width, height, i as int + 1, mip_levels as int);
            }
            return Err(DdsError::TooLarge);
        }
        i += 1;
    }
    bitmap.byte_size = total_size as u32;
    if ((data.len() - 128) as u64) < total_size {
        return Err(DdsError::UnexpectedEof);
    }
    let mut pixels = slice_to_vec(slice_subrange(data, 128, 128 + total_size as usize));
    match bitmap.format {
        BitmapFormat::Rgb => swap_channels(&mut pixels, 3),
        BitmapFormat::Rgba => swap_channels(&mut pixels, 4),
        _ => (),
    }
    bitmap.bits = pixels;
    Ok(bitmap)
}

/// Once the levels up to `level` do not fit, neither do all of them.
pub proof fn lemma_too_large(
    layout: TextureLayout,
    width: u32,
    height: u32,
    level: int,
    levels: int,
)
    requires
        0 <= level <= levels,
        mip_offset(layout, width, height, level) > u32::MAX,
    ensures
        mip_offset(layout, width, height, levels) > u32::MAX,
    decreases levels - level,
{
    if level < levels {
        lemma_mip_offset_grows(layout, width, height, level + 1);
        lemma_too_large(layout, width, height, level + 1, levels);
    }
}


/// The format of the graphics library for a compressed format of the engine;
/// none for a format that the engine uploads by itself.
pub open spec fn compressed_format_of(format: BitmapFormat) -> Option<CompressedFormat> {
    match format {
        BitmapFormat::XDxt1 => Some(CompressedFormat::RgbS3tcDxt1),
        BitmapFormat::XDxt3 => Some(CompressedFormat::RgbaS3tcDxt3),
        BitmapFormat::XDxt5 => Some(CompressedFormat::RgbaS3tcDxt5),
        BitmapFormat::XBc5S => Some(CompressedFormat::SignedRgRgtc2),
        BitmapFormat::XBc5U => Some(CompressedFormat::RgRgtc2),
        _ => None,
    }
}

/// The upload of mip level `level` of `bitmap`, as the level `level -
/// first_mip` of the texture.
pub open spec fn level_upload(bitmap: GBitmap, first_mip: u32, level: int) -> GlCall {
    GlCall::CompressedTexImage2D {
        level: (level - first_mip) as u32,
        format: compressed_format_of(bitmap.format)->Some_0,
        width: mip_extent(bitmap.width, level as u32),
        height: mip_extent(bitmap.height, level as u32),
        size: level_size(layout_of(bitmap.format), bitmap.width, bitmap.height, level) as u32,
        offset: bitmap.mip_level_offsets[level] as usize,
    }
}

/// How a texture is sampled when it gets smaller and when it gets larger:
/// nearest where the texture asks for it, else between the levels where more
/// than one is uploaded.
pub open spec fn filters_of(filter_nearest: bool, uploaded_levels: int) -> (
    TextureFilter,
    TextureFilter,
) {
    if filter_nearest {
        (TextureFilter::Nearest, TextureFilter::Nearest)
    } else if uploaded_levels > 1 {
        (TextureFilter::LinearMipmapLinear, TextureFilter::Linear)
    } else {
        (TextureFilter::Linear, TextureFilter::Linear)
    }
}

/// The calls that upload a compressed bitmap from level `first_mip` on: a
/// fresh texture, every level from `first_mip` to the last, the two filters,
/// the two wrap modes.
pub open spec fn upload_calls(
    bitmap: GBitmap,
    clamp_to_edge: bool,
    first_mip: u32,
    filter_nearest: bool,
) -> Seq<GlCall> {
    let uploaded = bitmap.num_mip_levels - first_mip;
    let wrap = if clamp_to_edge {
        TextureWrap::ClampToEdge
    } else {
        TextureWrap::Repeat
    };
    seq![GlCall::GenAndBindTexture] + Seq::new(
        uploaded as nat,
        |k: int| level_upload(bitmap, first_mip, first_mip + k),
    ) + seq![
        GlCall::MinFilter { filter: filters_of(filter_nearest, uploaded).0 },
        GlCall::MagFilter { filter: filters_of(filter_nearest, uploaded).1 },
        GlCall::WrapS { wrap },
        GlCall::WrapT { wrap },
    ]
}

/// Whether the levels of `bitmap` from `first_mip` on can be uploaded: they
/// exist, and each is counted in thirty-two bits.
pub open spec fn uploadable(bitmap: GBitmap, first_mip: u32) -> bool {
    &&& first_mip <= bitmap.num_mip_levels <= 10
    &&& forall|level: int|
        first_mip <= level < bitmap.num_mip_levels ==> #[trigger] level_size(
            layout_of(bitmap.format),
            bitmap.width,
            bitmap.height,
            level,
        ) <= u32::MAX
}

/// Tells whether `my_create_gl_name` takes `bitmap` from level `first_mip`
/// on.
pub fn can_upload(bitmap: &GBitmap, first_mip: u32) -> (ok: bool)
    ensures
        ok == uploadable(*bitmap, first_mip),
{
    if first_mip > bitmap.num_mip_levels || bitmap.num_mip_levels > 10 {
        return false;
    }
    let layout = TextureLayout::from(bitmap.format);
    let mut i = first_mip;
    while i < bitmap.num_mip_levels
        invariant
            first_mip <= i <= bitmap.num_mip_levels <= 10,
            layout == layout_of(bitmap.format),
            forall|level: int|
                first_mip <= level < i ==> #[trigger] level_size(
                    layout,
                    bitmap.width,
                    bitmap.height,
                    level,
                ) <= u32::MAX,
        decreases bitmap.num_mip_levels - i,
    {
        if layout.checked_data_size(bitmap.mip_width(i), bitmap.mip_height(i)).is_none() {
            assert(level_size(layout, bitmap.width, bitmap.height, i as int) > u32::MAX);
            return false;
        }
        i += 1;
    }
    true
}

/// What is done to make a texture of `bitmap`: for a compressed bitmap, the
/// calls that upload it, after which the texture has the extent of level
/// `first_mip`; for any other, nothing, and the engine's own function is to
/// be called.
pub fn my_create_gl_name(
    bitmap: &GBitmap,
    clamp_to_edge: bool,
    first_mip: u32,
    filter_nearest: bool,
) -> (r: Option<(Vec<GlCall>, u32, u32)>)
    requires
        compressed_format_of(bitmap.format) is Some ==> uploadable(*bitmap, first_mip),
    ensures
        match r {
            Some((calls, width, height)) => {
                &&& compressed_format_of(bitmap.format) is Some
                &&& calls@ == upload_calls(*bitmap, clamp_to_edge, first_mip, filter_nearest)
                &&& width == mip_extent(bitmap.width, first_mip)
                &&& height == mip_extent(bitmap.height, first_mip)
            },
            None => compressed_format_of(bitmap.format) is None,
        },
{
    let gl_format = match bitmap.format {
        BitmapFormat::XDxt1 => CompressedFormat::RgbS3tcDxt1,
        BitmapFormat::XDxt3 => CompressedFormat::RgbaS3tcDxt3,
        BitmapFormat::XDxt5 => CompressedFormat::RgbaS3tcDxt5,
        BitmapFormat::XBc5S => CompressedFormat::SignedRgRgtc2,
        BitmapFormat::XBc5U => CompressedFormat::RgRgtc2,
        _ => {
            return None;
        },
    };
    let mut calls: Vec<GlCall> = Vec::new();
    calls.push(GlCall::GenAndBindTexture);
    let layout = TextureLayout::from(bitmap.format);
    let ghost uploads = Seq::new(
        (bitmap.num_mip_levels - first_mip) as nat,
        |k: int| level_upload(*bitmap, first_mip, first_mip + k),
    );
    let mut i = first_mip;
    while i < bitmap.num_mip_levels
        invariant
            first_mip <= i <= bitmap.num_mip_levels <= 10,
            uploadable(*bitmap, first_mip),
            layout == layout_of(bitmap.format),
            compressed_format_of(bitmap.format) == Some(gl_format),
            uploads == Seq::new(
                (bitmap.num_mip_levels - first_mip) as nat,
                |k: int| level_upload(*bitmap, first_mip, first_mip + k),
            ),
            calls@ == seq![GlCall::GenAndBindTexture] + uploads.take(i - first_mip),
        decreases bitmap.num_mip_levels - i,
    {
        let width = bitmap.mip_width(i);
        let height = bitmap.mip_height(i);
        assert(level_size(layout, bitmap.width, bitmap.height, i as int) <= u32::MAX);
        let size = match layout.checked_data_size(width, height) {
            Some(size) => size,
            None => 0,
        };
        let call = GlCall::CompressedTexImage2D {
            level: i - first_mip,
            format: gl_format,
            width,
            height,
            size,
            offset: bitmap.mip_bits(i),
        };
        assert(call == uploads[i - first_mip]);
        calls.push(call);
        assert(calls@ =~= seq![GlCall::GenAndBindTexture] + uploads.take(i - first_mip + 1));
        i += 1;
    }
    assert(uploads.take(bitmap.num_mip_levels - first_mip) =~= uploads);
    let (min_filter, mag_filter) = if filter_nearest {
        (TextureFilter::Nearest, TextureFilter::Nearest)
    } else if bitmap.num_mip_levels - first_mip > 1 {
        (TextureFilter::LinearMipmapLinear, TextureFilter::Linear)
    } else {
        (TextureFilter::Linear, TextureFilter::Linear)
    };
    calls.push(GlCall::MinFilter { filter: min_filter });
    calls.push(GlCall::MagFilter { filter: mag_filter });
    let wrap = if clamp_to_edge {
        TextureWrap::ClampToEdge
    } else {
        TextureWrap::Repeat
    };
    calls.push(GlCall::WrapS { wrap });
    calls.push(GlCall::WrapT { wrap });
    assert(calls@ =~= upload_calls(*bitmap, clamp_to_edge, first_mip, filter_nearest));
    Some((calls, bitmap.mip_width(first_mip), bitmap.mip_height(first_mip)))
}

/// Whether the engine is to compute the smaller levels of a bitmap: not for
/// a compressed bitmap, and not for one that already has them.
pub open spec fn extrudes(format: BitmapFormat, num_mip_levels: u32) -> bool {
    layout_of(format) is Pixels && num_mip_levels <= 1
}

/// Tells whether the engine's own function is to be called on `this`.
pub fn my_extrude_mip_levels(this: &GBitmap) -> (call_original: bool)
    ensures
        call_original == extrudes(this.format, this.num_mip_levels),
{
    if let TextureLayout::Blocks(_) = TextureLayout::from(this.format) {
        return false;
    }
    if this.num_mip_levels > 1 {
        return false;
    }
    true
}

/// The extension of the files that the loader reads.
pub const DDS_EXTENSION: &'static str = ".dds";

/// Where the engine keeps the two texts of file extensions that are
/// overwritten with `DDS_EXTENSION`.
pub fn extension_slots(platform: Platform) -> (slots: (TgeAddr, TgeAddr))
    ensures
        slots.0.0 == address_for(platform, 0x65d908, 0x2da900),
        slots.1.0 == address_for(platform, 0x65d924, 0x2da908),
{
    (tge_addr(platform, 0x65d908, 0x2da900), tge_addr(platform, 0x65d924, 0x2da908))
}

/// Where the engine's function that makes a texture stands on `platform`.
pub open spec fn create_gl_name_at(platform: Platform) -> usize {
    address_for(platform, 0x40265d, 0x66570)
}

/// Where the engine's method that computes smaller levels stands on
/// `platform`.
pub open spec fn extrude_mip_levels_at(platform: Platform) -> usize {
    address_for(platform, 0x4091dd, 0x5b730)
}

/// Initializes the DDS loader: the engine's function that makes a texture
/// and its method that computes smaller levels are redirected, in this
/// order. Where the first redirection fails the second is not asked for.
pub fn init<A, B, HA: Fn(usize, usize) -> Option<A>, HB: Fn(usize, usize) -> Option<B>>(
    plugin: &mut Plugin,
    platform: Platform,
    create_gl_name: usize,
    original_create_gl_name: &mut OriginalFn<A>,
    host_a: &HA,
    extrude_mip_levels: usize,
    original_extrude_mip_levels: &mut OriginalFn<B>,
    host_b: &HB,
) -> (r: Result<(), &'static str>)
    requires
        !old(original_create_gl_name).installed(),
        !old(original_extrude_mip_levels).installed(),
        host_a.requires((create_gl_name_at(platform), create_gl_name)),
        host_b.requires((extrude_mip_levels_at(platform), extrude_mip_levels)),
    ensures
        old(plugin).state_of(create_gl_name_at(platform)) != InterceptState::Uninstalled ==> {
            &&& r is Err
            &&& final(original_create_gl_name)@ is None
            &&& final(plugin).log() == old(plugin).log()
        },
        old(plugin).state_of(create_gl_name_at(platform)) == InterceptState::Uninstalled
            ==> host_a.ensures(
            (create_gl_name_at(platform), create_gl_name),
            final(original_create_gl_name)@,
        ),
        final(original_create_gl_name)@ is None ==> {
            &&& r is Err
            &&& final(original_extrude_mip_levels)@ is None
            &&& final(plugin).state_of(extrude_mip_levels_at(platform)) == old(plugin).state_of(
                extrude_mip_levels_at(platform),
            )
        },
        final(original_create_gl_name)@ is Some ==> {
            &&& final(plugin).state_of(create_gl_name_at(platform)) == InterceptState::Installed
            &&& old(plugin).state_of(extrude_mip_levels_at(platform))
                != InterceptState::Uninstalled ==> r is Err && final(original_extrude_mip_levels)@ is None
            &&& old(plugin).state_of(extrude_mip_levels_at(platform))
                == InterceptState::Uninstalled ==> host_b.ensures(
                (extrude_mip_levels_at(platform), extrude_mip_levels),
                final(original_extrude_mip_levels)@,
            ) && final(plugin).state_of(extrude_mip_levels_at(platform)) == if r is Ok {
                InterceptState::Installed
            } else {
                InterceptState::Failed
            }
        },
        r is Ok <==> final(original_create_gl_name)@ is Some && final(original_extrude_mip_levels)@ is Some,
        final(plugin).same_host(old(plugin)),
{
    let ghost start = plugin.log();
    proof {
        lemma_two_steps(
            start,
            create_gl_name_at(platform),
            InterceptState::Installing,
            InterceptState::Installed,
            extrude_mip_levels_at(platform),
        );
        lemma_two_steps(
            start,
            create_gl_name_at(platform),
            InterceptState::Installing,
            InterceptState::Failed,
            extrude_mip_levels_at(platform),
        );
    }
    let first: FnPtr<A> = FnPtr::new(tge_create_gl_name(platform));
    match plugin.intercept(first, create_gl_name, original_create_gl_name, host_a) {
        Ok(()) => {},
        Err(e) => {
            return Err(e);
        },
    }
    let second: FnPtr<B> = FnPtr::new(tge_extrude_mip_levels(platform));
    proof {
        lemma_two_steps(
            plugin.log(),
            extrude_mip_levels_at(platform),
            InterceptState::Installing,
            InterceptState::Installed,
            create_gl_name_at(platform),
        );
        lemma_two_steps(
            plugin.log(),
            extrude_mip_levels_at(platform),
            InterceptState::Installing,
            InterceptState::Failed,
            create_gl_name_at(platform),
        );
    }
    plugin.intercept(second, extrude_mip_levels, original_extrude_mip_levels, host_b)
}

} // verus!
