//! The header of a DirectDraw surface file.

use super::io::{le_u32, u32_at};
use vstd::prelude::*;

verus! {

/// The first four bytes of a surface file: `DDS` and a space.
pub const DDS_MAGIC: [u8; 4] = [0x44, 0x44, 0x53, 0x20];

pub const DDS_ALPHA: u32 = 0x2;

pub const DDS_FOURCC: u32 = 0x4;

pub const DDS_RGB: u32 = 0x40;

pub const DDS_RGBA: u32 = 0x41;

pub const DDS_LUMINANCE: u32 = 0x20000;

pub const DDS_HEADER_FLAGS_TEXTURE: u32 = 0x1007;

pub const DDS_HEADER_FLAGS_MIPMAP: u32 = 0x20000;

pub const DDS_HEADER_FLAGS_VOLUME: u32 = 0x800000;

/// The size of a pixel format in a file, in bytes.
pub const PIXEL_FORMAT_SIZE: u32 = 32;

/// The size of a header in a file, in bytes.
pub const HEADER_SIZE: u32 = 124;

/// How a surface stores its pixels.
#[derive(Debug, Copy, Clone, PartialEq, Eq, Structural)]
pub struct PixelFormat {
    pub size: u32,
    pub flags: u32,
    pub fourcc: u32,
    pub bits: u32,
    pub r_mask: u32,
    pub g_mask: u32,
    pub b_mask: u32,
    pub a_mask: u32,
}

/// The header of a surface file.
#[derive(Debug, Copy, Clone, PartialEq, Eq)]
pub struct Header {
    pub size: u32,
    pub flags: u32,
    pub height: u32,
    pub width: u32,
    pub pitch_or_linear_size: u32,
    pub depth: u32,
    pub mip_map_count: u32,
    pub reserved: [u32; 11],
    pub format: PixelFormat,
    pub caps: u32,
    pub caps2: u32,
    pub caps3: u32,
    pub caps4: u32,
    pub reserved2: u32,
}

/// The code that four characters make, the first in the lowest byte.
pub open spec fn fourcc_of(b: Seq<u8>) -> u32 {
    le_u32(b, 0)
}

/// An uncompressed format with the given masks.
pub open spec fn raw_format(flags: u32, bits: u32, rm: u32, gm: u32, bm: u32, am: u32)
    -> PixelFormat {
    PixelFormat {
        size: PIXEL_FORMAT_SIZE,
        flags,
        fourcc: 0,
        bits,
        r_mask: rm,
        g_mask: gm,
        b_mask: bm,
        a_mask: am,
    }
}

/// The format that a four-character code names.
pub open spec fn fourcc_format(code: u32) -> PixelFormat {
    PixelFormat {
        size: PIXEL_FORMAT_SIZE,
        flags: DDS_FOURCC,
        fourcc: code,
        bits: 0,
        r_mask: 0,
        g_mask: 0,
        b_mask: 0,
        a_mask: 0,
    }
}

/// The pixel format that stands at `at`.
pub open spec fn pixel_format_at(bytes: Seq<u8>, at: int) -> PixelFormat {
    PixelFormat {
        size: le_u32(bytes, at),
        flags: le_u32(bytes, at + 4),
        fourcc: le_u32(bytes, at + 8),
        bits: le_u32(bytes, at + 12),
        r_mask: le_u32(bytes, at + 16),
        g_mask: le_u32(bytes, at + 20),
        b_mask: le_u32(bytes, at + 24),
        a_mask: le_u32(bytes, at + 28),
    }
}

impl PixelFormat {
    /// An uncompressed format with the given masks.
    pub fn raw(flags: u32, bits: u32, rm: u32, gm: u32, bm: u32, am: u32) -> (format: Self)
        ensures
            format == raw_format(flags, bits, rm, gm, bm, am),
    {
        PixelFormat {
            size: PIXEL_FORMAT_SIZE,
            flags,
            fourcc: 0,
            bits,
            r_mask: rm,
            g_mask: gm,
            b_mask: bm,
            a_mask: am,
        }
    }

    /// The format that the four characters `b` name.
    pub fn fourcc(b: &[u8; 4]) -> (format: Self)
        ensures
            format == fourcc_format(fourcc_of(b@)),
    {
        let code = u32_at(b.as_slice(), 0);
        PixelFormat {
            size: PIXEL_FORMAT_SIZE,
            flags: DDS_FOURCC,
            fourcc: code,
            bits: 0,
            r_mask: 0,
            g_mask: 0,
            b_mask: 0,
            a_mask: 0,
        }
    }

    /// Reads the pixel format that stands at `at`.
    pub fn read(bytes: &[u8], at: usize) -> (format: Self)
        requires
            at + 32 <= bytes.len(),
        ensures
            format == pixel_format_at(bytes@, at as int),
    {
        PixelFormat {
            size: u32_at(bytes, at),
            flags: u32_at(bytes, at + 4),
            fourcc: u32_at(bytes, at + 8),
            bits: u32_at(bytes, at + 12),
            r_mask: u32_at(bytes, at + 16),
            g_mask: u32_at(bytes, at + 20),
            b_mask: u32_at(bytes, at + 24),
            a_mask: u32_at(bytes, at + 28),
        }
    }
}

impl Header {
    /// Reads the header that stands at `at`: thirty-one numbers, the pixel
    /// format from the nineteenth on.
    pub fn read(bytes: &[u8], at: usize) -> (header: Self)
        requires
            at + 124 <= bytes.len(),
        ensures
            header.size == le_u32(bytes@, at as int),
            header.flags == le_u32(bytes@, at + 4),
            header.height == le_u32(bytes@, at + 8),
            header.width == le_u32(bytes@, at + 12),
            header.pitch_or_linear_size == le_u32(bytes@, at + 16),
            header.depth == le_u32(bytes@, at + 20),
            header.mip_map_count == le_u32(bytes@, at + 24),
            forall|i: int| 0 <= i < 11 ==> header.reserved[i] == le_u32(bytes@, at + 28 + 4 * i),
            header.format == pixel_format_at(bytes@, at + 72),
            header.caps == le_u32(bytes@, at + 104),
            header.caps2 == le_u32(bytes@, at + 108),
            header.caps3 == le_u32(bytes@, at + 112),
            header.caps4 == le_u32(bytes@, at + 116),
            header.reserved2 == le_u32(bytes@, at + 120),
    {
        let mut reserved = [0u32; 11];
        let mut i: usize = 0;
        while i < 11
            invariant
                i <= 11,
                at + 124 <= bytes.len(),
                forall|k: int| 0 <= k < i ==> reserved[k] == le_u32(bytes@, at + 28 + 4 * k),
            decreases 11 - i,
        {
            reserved[i] = u32_at(bytes, at + 28 + 4 * i);
            i += 1;
        }
        Header {
            size: u32_at(bytes, at),
            flags: u32_at(bytes, at + 4),
            height: u32_at(bytes, at + 8),
            width: u32_at(bytes, at + 12),
            pitch_or_linear_size: u32_at(bytes, at + 16),
            depth: u32_at(bytes, at + 20),
            mip_map_count: u32_at(bytes, at + 24),
            reserved,
            format: PixelFormat::read(bytes, at + 72),
            caps: u32_at(bytes, at + 104),
            caps2: u32_at(bytes, at + 108),
            caps3: u32_at(bytes, at + 112),
            caps4: u32_at(bytes, at + 116),
            reserved2: u32_at(bytes, at + 120),
        }
    }
}

/// Eight bits of alpha.
pub open spec fn ddspf_a8() -> PixelFormat {
    raw_format(DDS_ALPHA, 8, 0x00, 0x00, 0x00, 0xff)
}

/// Eight bits of luminance.
pub open spec fn ddspf_l8() -> PixelFormat {
    raw_format(DDS_LUMINANCE, 8, 0xff, 0x00, 0x00, 0x00)
}

pub open spec fn ddspf_r5g6b5() -> PixelFormat {
    raw_format(DDS_RGB, 16, 0xf800, 0x07e0, 0x001f, 0x0000)
}

pub open spec fn ddspf_a1r5g5b5() -> PixelFormat {
    raw_format(DDS_RGBA, 16, 0x7c00, 0x03e0, 0x001f, 0x8000)
}

pub open spec fn ddspf_r8g8b8() -> PixelFormat {
    raw_format(DDS_RGB, 24, 0xff0000, 0x00ff00, 0x0000ff, 0x000000)
}

pub open spec fn ddspf_a8r8g8b8() -> PixelFormat {
    raw_format(DDS_RGBA, 32, 0x00ff0000, 0x0000ff00, 0x000000ff, 0xff000000)
}

/// `DXT1`.
pub open spec fn ddspf_dxt1() -> PixelFormat {
    fourcc_format(0x3154_5844)
}

/// `DXT3`.
pub open spec fn ddspf_dxt3() -> PixelFormat {
    fourcc_format(0x3354_5844)
}

/// `DXT5`.
pub open spec fn ddspf_dxt5() -> PixelFormat {
    fourcc_format(0x3554_5844)
}

/// `BC5U`.
pub open spec fn ddspf_bc5_unorm() -> PixelFormat {
    fourcc_format(0x5535_4342)
}

/// `BC5S`.
pub open spec fn ddspf_bc5_snorm() -> PixelFormat {
    fourcc_format(0x5335_4342)
}

/// `ATI2`.
pub open spec fn ddspf_ati2() -> PixelFormat {
    fourcc_format(0x3249_5441)
}

/// The codes above are those of the four characters that name them.
pub proof fn lemma_fourcc_codes()
    ensures
        fourcc_of(seq![0x44u8, 0x58u8, 0x54u8, 0x31u8]) == 0x3154_5844,
        fourcc_of(seq![0x44u8, 0x58u8, 0x54u8, 0x33u8]) == 0x3354_5844,
        fourcc_of(seq![0x44u8, 0x58u8, 0x54u8, 0x35u8]) == 0x3554_5844,
        fourcc_of(seq![0x42u8, 0x43u8, 0x35u8, 0x55u8]) == 0x5535_4342,
        fourcc_of(seq![0x42u8, 0x43u8, 0x35u8, 0x53u8]) == 0x5335_4342,
        fourcc_of(seq![0x41u8, 0x54u8, 0x49u8, 0x32u8]) == 0x3249_5441,
{
}

} // verus!
