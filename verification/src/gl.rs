//! The few calls into the graphics library that the plugins make, as values:
//! a plugin decides which calls are made and with what, and the caller makes
//! them in order.

use vstd::prelude::*;

verus! {

/// A compressed texture format of the graphics library.
#[derive(Debug, Clone, Copy, PartialEq, Eq, Structural)]
pub enum CompressedFormat {
    RgbS3tcDxt1,
    RgbaS3tcDxt3,
    RgbaS3tcDxt5,
    SignedRgRgtc2,
    RgRgtc2,
}

/// How a texture is sampled between its pixels and its levels.
#[derive(Debug, Clone, Copy, PartialEq, Eq, Structural)]
pub enum TextureFilter {
    Nearest,
    Linear,
    LinearMipmapLinear,
}

/// How a texture is sampled past its edge.
#[derive(Debug, Clone, Copy, PartialEq, Eq, Structural)]
pub enum TextureWrap {
    ClampToEdge,
    Repeat,
}

/// One call on the two-dimensional texture target.
#[derive(Debug, Clone, Copy, PartialEq, Eq, Structural)]
pub enum GlCall {
    /// Makes a fresh texture name, which the caller stores in the record of
    /// the texture and binds.
    GenAndBindTexture,
    /// Binds the texture `name`; zero binds none.
    BindTexture { name: u32 },
    /// Hands over one level of compressed pixels: `size` bytes that begin at
    /// `offset` in the bitmap.
    CompressedTexImage2D {
        level: u32,
        format: CompressedFormat,
        width: u32,
        height: u32,
        size: u32,
        offset: usize,
    },
    /// Lets the library compute the smaller levels.
    GenerateMipmap,
    MinFilter { filter: TextureFilter },
    MagFilter { filter: TextureFilter },
    WrapS { wrap: TextureWrap },
    WrapT { wrap: TextureWrap },
}

/// Whether the functions of the graphics library have been looked up.
#[derive(Debug, Clone, Copy, PartialEq, Eq, Structural)]
pub struct Loader {
    pub loaded: bool,
}

impl Loader {
    /// A loader that has looked up nothing.
    pub fn new() -> (loader: Self)
        ensures
            !loader.loaded,
    {
        Loader { loaded: false }
    }

    /// Called whenever the graphics context is ready: tells whether the
    /// functions are to be looked up now, which is so the first time only.
    pub fn init(&mut self) -> (load: bool)
        ensures
            load == !old(self).loaded,
            final(self).loaded,
    {
        let load = !self.loaded;
        self.loaded = true;
        load
    }
}

/// Where a function of the graphics library stands: where the context
/// itself knows it, or, where it answers with a null address, where the
/// library exports it.
pub open spec fn proc_address(from_context: usize, from_library: usize) -> usize {
    if from_context == 0 {
        from_library
    } else {
        from_context
    }
}

/// Picks the address of a function of the graphics library.
pub fn get_proc_address(from_context: usize, from_library: usize) -> (address: usize)
    ensures
        address == proc_address(from_context, from_library),
{
    if from_context == 0 {
        from_library
    } else {
        from_context
    }
}

} // verus!
