//! Pixel buffers and the channel-layout adapter.
//!
//! The inference engine's tiling path reliably supports only 1-, 3- and
//! 4-channel interleaved layouts, so before inference a single-channel
//! (luminance) image is materialized as 3-channel RGB and a two-channel
//! (luminance + alpha) image as 4-channel RGBA; 3- and 4-channel images
//! pass through unchanged. After the last pass the raw byte buffer is
//! reconstructed into a typed image according to the channel count used
//! throughout the pipeline — the promoted count, so a grayscale input
//! yields an RGB result.

use vstd::prelude::*;

use crate::errors::Waifu2xError;

verus! {

/// A rectangular grid of interleaved 8-bit samples: `w * h` pixels of `c`
/// samples each, row-major, in one contiguous buffer.
pub struct Image {
    pub w: u32,
    pub h: u32,
    pub c: u8,
    pub data: Vec<u8>,
}

impl Image {
    /// Well-formedness: a supported channel count and a buffer of exactly
    /// width * height * channels bytes.
    pub open spec fn wf(self) -> bool {
        &&& 1 <= self.c <= 4
        &&& self.data@.len() == self.w * self.h * self.c
    }
}

/// The channel count an input is materialized at before inference:
/// luminance becomes RGB, luminance + alpha becomes RGBA, everything else
/// keeps its count.
pub open spec fn spec_promoted_channels(c: int) -> int {
    if c == 1 {
        3
    } else if c == 2 {
        4
    } else {
        c
    }
}

/// A luminance buffer replicated into interleaved RGB: every output byte
/// is the luminance of its pixel.
pub open spec fn spec_gray_to_rgb(s: Seq<u8>) -> Seq<u8> {
    Seq::new(s.len() * 3, |j: int| s[j / 3])
}

/// A luminance + alpha buffer expanded into interleaved RGBA: the
/// luminance fills the three color samples and the alpha is kept.
pub open spec fn spec_gray_alpha_to_rgba(s: Seq<u8>) -> Seq<u8> {
    Seq::new(
        (s.len() / 2) * 4,
        |j: int|
            if j % 4 == 3 {
                s[2 * (j / 4) + 1]
            } else {
                s[2 * (j / 4)]
            },
    )
}

/// Materializes an image at the channel count the engine accepts: 1
/// channel becomes RGB, 2 become RGBA, 3 and 4 pass through unchanged.
pub fn promote(img: Image) -> (r: Image)
    requires
        img.wf(),
        img.w * img.h * 4 <= usize::MAX,
    ensures
        r.wf(),
        r.w == img.w,
        r.h == img.h,
        r.c == spec_promoted_channels(img.c as int),
        img.c == 1 ==> r.data@ == spec_gray_to_rgb(img.data@),
        img.c == 2 ==> r.data@ == spec_gray_alpha_to_rgba(img.data@),
        img.c >= 3 ==> r.data@ == img.data@,
{
    if img.c == 1 {
        let n: usize = img.data.len();
        proof {
            assert(n == img.w * img.h) by (nonlinear_arith)
                requires
                    n == img.w * img.h * img.c,
                    img.c == 1,
            ;
        }
        let mut out: Vec<u8> = Vec::new();
        let mut i: usize = 0;
        while i < n
            invariant
                n == img.data@.len(),
                n * 3 <= usize::MAX,
                i <= n,
                out@.len() == i * 3,
                forall|j: int| 0 <= j < i * 3 ==> out@[j] == img.data@[j / 3],
            decreases n - i,
        {
            let b = img.data[i];
            out.push(b);
            out.push(b);
            out.push(b);
            i = i + 1;
        }
        proof {
            assert(out@ =~= spec_gray_to_rgb(img.data@));
        }
        Image { w: img.w, h: img.h, c: 3, data: out }
    } else if img.c == 2 {
        proof {
            assert(img.data@.len() == (img.w * img.h) * 2) by (nonlinear_arith)
                requires
                    img.data@.len() == img.w * img.h * img.c,
                    img.c == 2,
            ;
        }
        let n: usize = img.data.len() / 2;
        let mut out: Vec<u8> = Vec::new();
        let mut i: usize = 0;
        while i < n
            invariant
                img.data@.len() == n * 2,
                n * 4 <= usize::MAX,
                i <= n,
                out@.len() == i * 4,
                forall|j: int|
                    0 <= j < i * 4 ==> out@[j] == (if j % 4 == 3 {
                        img.data@[2 * (j / 4) + 1]
                    } else {
                        img.data@[2 * (j / 4)]
                    }),
            decreases n - i,
        {
            let l = img.data[2 * i];
            let a = img.data[2 * i + 1];
            out.push(l);
            out.push(l);
            out.push(l);
            out.push(a);
            i = i + 1;
        }
        proof {
            assert(out@ =~= spec_gray_alpha_to_rgba(img.data@));
        }
        Image { w: img.w, h: img.h, c: 4, data: out }
    } else {
        img
    }
}

/// The caller-facing typed image a pixel buffer is reconstructed into.
pub enum TypedImage {
    Gray8(Image),
    GrayAlpha8(Image),
    Rgb8(Image),
    Rgba8(Image),
}

impl TypedImage {
    /// The channel count the variant stands for.
    pub open spec fn spec_channels(self) -> int {
        match self {
            TypedImage::Gray8(_) => 1,
            TypedImage::GrayAlpha8(_) => 2,
            TypedImage::Rgb8(_) => 3,
            TypedImage::Rgba8(_) => 4,
        }
    }

    /// The underlying pixel buffer.
    pub open spec fn spec_buffer(self) -> Image {
        match self {
            TypedImage::Gray8(b) => b,
            TypedImage::GrayAlpha8(b) => b,
            TypedImage::Rgb8(b) => b,
            TypedImage::Rgba8(b) => b,
        }
    }

    /// A typed image is well formed when its buffer is and the buffer's
    /// channel count matches the variant.
    pub open spec fn wf(self) -> bool {
        &&& self.spec_buffer().wf()
        &&& self.spec_buffer().c == self.spec_channels()
    }

    pub fn channels(&self) -> (c: u8)
        ensures
            c == self.spec_channels(),
    {
        match self {
            TypedImage::Gray8(_) => 1,
            TypedImage::GrayAlpha8(_) => 2,
            TypedImage::Rgb8(_) => 3,
            TypedImage::Rgba8(_) => 4,
        }
    }

    pub fn buffer(&self) -> (b: &Image)
        ensures
            *b == self.spec_buffer(),
    {
        match self {
            TypedImage::Gray8(b) => b,
            TypedImage::GrayAlpha8(b) => b,
            TypedImage::Rgb8(b) => b,
            TypedImage::Rgba8(b) => b,
        }
    }
}

/// Reconstructs the typed image from a raw byte buffer and the channel
/// count used through the pipeline: 4 yields RGBA, 3 RGB, 2 gray + alpha,
/// 1 gray; any other count is an internal-consistency error.
pub fn convert_image(width: u32, height: u32, channels: u8, bytes: Vec<u8>) -> (r: Result<
    TypedImage,
    Waifu2xError,
>)
    requires
        bytes@.len() == width * height * channels,
    ensures
        (r is Ok) <==> (1 <= channels <= 4),
        !(1 <= channels <= 4) ==> r == Result::<TypedImage, Waifu2xError>::Err(
            Waifu2xError::UnsupportedChannelCount,
        ),
        r is Ok ==> {
            let img = r.unwrap();
            &&& img.wf()
            &&& img.spec_channels() == channels
            &&& img.spec_buffer().w == width
            &&& img.spec_buffer().h == height
            &&& img.spec_buffer().data@ == bytes@
        },
{
    let buffer = Image { w: width, h: height, c: channels, data: bytes };
    match channels {
        4 => Ok(TypedImage::Rgba8(buffer)),
        3 => Ok(TypedImage::Rgb8(buffer)),
        2 => Ok(TypedImage::GrayAlpha8(buffer)),
        1 => Ok(TypedImage::Gray8(buffer)),
        _ => Err(Waifu2xError::UnsupportedChannelCount),
    }
}

/// For every supported input channel count the adapter-normalized count is
/// 3 or 4 — the engine never sees a 2-channel layout — and reconstruction
/// at that count therefore always succeeds with exactly that count.
pub proof fn lemma_promoted_channels_supported(c: int)
    requires
        1 <= c <= 4,
    ensures
        spec_promoted_channels(c) == 3 || spec_promoted_channels(c) == 4,
{
}

} // verus!
