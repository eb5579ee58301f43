//! Ownership handles for GPU textures.
//!
//! A handle records what the pipeline knows of a texture: dimensions,
//! pixel format, whether it is a cubemap, and how many mip levels it
//! carries. A cubemap always has six logical faces, whatever its mip
//! count.

use vstd::prelude::*;

verus! {

/// The pixel formats the pipeline's passes produce or consume.
#[derive(Clone, Copy, Debug, PartialEq, Eq, Structural)]
pub enum PixelFormat {
    /// Four 8-bit channels, for the standard material maps.
    Rgba8,
    /// Three high-range channels, for environment radiance data.
    HdrColor,
    /// Two channels, for the split-sum lookup table (scale and bias).
    DualChannel,
}

/// The sampling filter a texture is read with.
#[derive(Clone, Copy, Debug, PartialEq, Eq, Structural)]
pub enum TextureFilter {
    /// Nearest-pixel sampling, the runtime's default.
    Point,
    /// Bilinear interpolation, applied to the standard material maps.
    Bilinear,
}

/// How many channels a pixel of the format holds.
pub open spec fn spec_channel_count(format: PixelFormat) -> nat {
    match format {
        PixelFormat::Rgba8 => 4,
        PixelFormat::HdrColor => 3,
        PixelFormat::DualChannel => 2,
    }
}

/// How many channels a pixel of the format holds.
pub fn channel_count(format: PixelFormat) -> (n: u32)
    ensures
        n == spec_channel_count(format),
{
    match format {
        PixelFormat::Rgba8 => 4,
        PixelFormat::HdrColor => 3,
        PixelFormat::DualChannel => 2,
    }
}

/// The length of a full mip chain for a square texture of side `size`:
/// one level per halving, down to a single pixel.
pub open spec fn spec_mip_chain_len(size: nat) -> nat
    decreases size,
{
    if size <= 1 {
        1
    } else {
        1 + spec_mip_chain_len(size / 2)
    }
}

/// A full mip chain is never longer than its base size.
pub proof fn lemma_mip_chain_len_le_size(size: nat)
    requires
        size >= 1,
    ensures
        1 <= spec_mip_chain_len(size) <= size,
    decreases size,
{
    if size > 1 {
        lemma_mip_chain_len_le_size(size / 2);
    }
}

/// The length of a full mip chain for a square texture of side `size`.
pub fn mip_chain_len(size: u32) -> (n: u32)
    requires
        size >= 1,
    ensures
        n == spec_mip_chain_len(size as nat),
{
    proof {
        lemma_mip_chain_len_le_size(size as nat);
    }
    let mut s: u32 = size;
    let mut n: u32 = 1;
    while s > 1
        invariant
            s >= 1,
            n >= 1,
            n - 1 + spec_mip_chain_len(s as nat) == spec_mip_chain_len(size as nat),
            spec_mip_chain_len(size as nat) <= size,
        decreases s,
    {
        proof {
            lemma_mip_chain_len_le_size((s / 2) as nat);
            assert(spec_mip_chain_len(s as nat) == 1 + spec_mip_chain_len((s / 2) as nat));
        }
        s = s / 2;
        n = n + 1;
    }
    n
}

/// The side length of mip level `level` of a texture of side `size`:
/// halved per level, never below one pixel.
pub open spec fn spec_mip_dimension(size: nat, level: nat) -> nat
    decreases level,
{
    if level == 0 {
        size
    } else {
        let above = spec_mip_dimension(size, (level - 1) as nat);
        if above / 2 >= 1 {
            above / 2
        } else {
            1
        }
    }
}

/// The side length of mip level `level` of a texture of side `size`.
pub fn mip_dimension(size: u32, level: u32) -> (n: u32)
    requires
        size >= 1,
    ensures
        n == spec_mip_dimension(size as nat, level as nat),
        n >= 1,
{
    let mut s: u32 = size;
    let mut l: u32 = 0;
    while l < level
        invariant
            l <= level,
            s >= 1,
            s == spec_mip_dimension(size as nat, l as nat),
        decreases level - l,
    {
        s = if s >= 2 {
            s / 2
        } else {
            1
        };
        l = l + 1;
    }
    s
}

/// A thin ownership handle for one GPU texture.
#[derive(Clone, Copy, Debug, PartialEq, Eq, Structural)]
pub struct TextureHandle {
    /// Width in pixels of the base level.
    pub width: u32,
    /// Height in pixels of the base level.
    pub height: u32,
    /// Pixel format of every level.
    pub format: PixelFormat,
    /// Whether the texture is a cubemap of six square faces.
    pub is_cubemap: bool,
    /// Number of mip levels; one when the texture carries no chain.
    pub mip_count: u32,
    /// The sampling filter the texture is read with.
    pub filter: TextureFilter,
}

impl TextureHandle {
    /// Dimensions are nonempty, a cubemap is square, and the mip count
    /// stays within a full chain.
    pub open spec fn wf(self) -> bool {
        &&& self.width >= 1
        &&& self.height >= 1
        &&& self.mip_count >= 1
        &&& self.is_cubemap ==> self.width == self.height
        &&& self.mip_count <= spec_mip_chain_len(
            if self.width >= self.height {
                self.width as nat
            } else {
                self.height as nat
            },
        )
    }

    /// A flat 2D texture without a mip chain.
    pub fn new_2d(width: u32, height: u32, format: PixelFormat) -> (r: Option<TextureHandle>)
        ensures
            (r is Some) == (width >= 1 && height >= 1),
            match r {
                Some(t) => t == (TextureHandle {
                    width,
                    height,
                    format,
                    is_cubemap: false,
                    mip_count: 1,
                    filter: TextureFilter::Point,
                }) && t.wf(),
                None => true,
            },
    {
        if width >= 1 && height >= 1 {
            proof {
                lemma_mip_chain_len_le_size(if width >= height {
                    width as nat
                } else {
                    height as nat
                });
            }
            Some(
                TextureHandle {
                    width,
                    height,
                    format,
                    is_cubemap: false,
                    mip_count: 1,
                    filter: TextureFilter::Point,
                },
            )
        } else {
            None
        }
    }

    /// A cubemap of six square `size` by `size` faces, carrying either a
    /// single level or a full mip chain.
    pub fn new_cubemap(size: u32, format: PixelFormat, full_chain: bool) -> (r: Option<
        TextureHandle,
    >)
        ensures
            (r is Some) == (size >= 1),
            match r {
                Some(t) => t == (TextureHandle {
                    width: size,
                    height: size,
                    format,
                    is_cubemap: true,
                    mip_count: if full_chain {
                        spec_mip_chain_len(size as nat) as u32
                    } else {
                        1u32
                    },
                    filter: TextureFilter::Point,
                }) && t.wf(),
                None => true,
            },
    {
        if size >= 1 {
            proof {
                lemma_mip_chain_len_le_size(size as nat);
            }
            let mip_count = if full_chain {
                mip_chain_len(size)
            } else {
                1
            };
            Some(
                TextureHandle {
                    width: size,
                    height: size,
                    format,
                    is_cubemap: true,
                    mip_count,
                    filter: TextureFilter::Point,
                },
            )
        } else {
            None
        }
    }

    /// Six faces for a cubemap, one surface otherwise.
    pub fn face_count(&self) -> (n: u32)
        ensures
            n == if self.is_cubemap {
                6int
            } else {
                1int
            },
    {
        if self.is_cubemap {
            6
        } else {
            1
        }
    }
}

} // verus!
