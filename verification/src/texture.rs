//! The dither texture: a 255 by 255 image with the four thresholds of
//! `dither::bias` in every texel.

use vstd::prelude::*;
use image::ImageBuffer;
use image::Rgba;
use crate::dither::bayer_bias;
use crate::dither::bias;
use crate::dither::lemma_bias_mirrors;
use crate::dither::mirrored;

verus! {

/// An image of four-channel texels with integer samples, kept by
/// `image::ImageBuffer`.
#[verifier::external_body]
pub struct DitherImage {
    buffer: ImageBuffer<Rgba<u32>, Vec<u32>>,
}

/// Width and height of the dither texture, in texels.
pub const TEXTURE_SIZE: u32 = 255;

/// The samples that an image holds: row after row, texel after texel within
/// a row, four samples to a texel.
pub uninterp spec fn image_samples(img: DitherImage) -> Seq<u32>;

/// Width and height of an image, in this order.
pub uninterp spec fn image_dimensions(img: DitherImage) -> (u32, u32);

/// The four numerators of the texel at `(x, y)`: those of `bias` at the
/// coordinates cut down to their low eight bits.
pub open spec fn texel(x: u32, y: u32) -> Seq<u32> {
    bias((x % 256) as u8, (y % 256) as u8)
}

/// The four thresholds of the texel at `(x, y)`, as numerators over
/// `BAYER_SCALE`.
pub fn bayer_texel(x: u32, y: u32) -> (t: [u32; 4])
    ensures
        t@ == texel(x, y),
{
    assert(x as u8 == (x % 256) as u8) by (bit_vector);
    assert(y as u8 == (y % 256) as u8) by (bit_vector);
    bayer_bias(x as u8, y as u8)
}

/// The samples of the image of the given size whose texel at `(x, y)` is
/// `texel(x, y)`.
pub open spec fn texel_samples(width: u32, height: u32) -> Seq<u32> {
    Seq::new(
        (4 * width * height) as nat,
        |i: int| texel(((i / 4) % (width as int)) as u32, ((i / 4) / (width as int)) as u32)[i % 4],
    )
}

/// `image::ImageBuffer::from_fn` with `bayer_texel` as the function: the
/// image has the given size, and its texel at `(x, y)` holds what
/// `bayer_texel(x, y)` returns. The call panics where the samples do not fit
/// in a vector, so such sizes are left out.
#[verifier::external_body]
fn image_from_texels(width: u32, height: u32) -> (img: DitherImage)
    requires
        16 * width * height <= isize::MAX,
    ensures
        image_dimensions(img) == (width, height),
        image_samples(img) == texel_samples(width, height),
{
    DitherImage { buffer: ImageBuffer::from_fn(width, height, |x, y| Rgba::from(bayer_texel(x, y))) }
}

/// `image::ImageBuffer::dimensions`: the width and the height that the image
/// was made with.
#[verifier::external_body]
fn image_size(img: &DitherImage) -> (size: (u32, u32))
    ensures
        size == image_dimensions(*img),
{
    img.buffer.dimensions()
}

/// `image::ImageBuffer::into_raw`: the vector that holds the samples.
#[verifier::external_body]
fn image_into_raw(img: DitherImage) -> (samples: Vec<u32>)
    ensures
        samples@ == image_samples(img),
{
    img.buffer.into_raw()
}

impl DitherImage {
    /// Width and height, in texels.
    pub fn dimensions(&self) -> (size: (u32, u32))
        ensures
            size == image_dimensions(*self),
    {
        image_size(self)
    }

    /// The samples, row after row, four to a texel.
    pub fn into_raw(self) -> (samples: Vec<u32>)
        ensures
            samples@ == image_samples(self),
    {
        image_into_raw(self)
    }
}

/// The samples of the dither texture.
pub open spec fn dither_samples() -> Seq<u32> {
    texel_samples(TEXTURE_SIZE, TEXTURE_SIZE)
}

/// Synthesizes the dither texture.
pub fn bayer_texture() -> (img: DitherImage)
    ensures
        image_dimensions(img) == (TEXTURE_SIZE, TEXTURE_SIZE),
        image_samples(img) == dither_samples(),
{
    image_from_texels(TEXTURE_SIZE, TEXTURE_SIZE)
}

/// Where channel `c` of the texel at `(x, y)` stands among the samples of
/// the dither texture.
pub open spec fn sample_index(x: int, y: int, c: int) -> int {
    4 * (y * TEXTURE_SIZE + x) + c
}

/// The dither texture holds 255 * 255 * 4 samples, and channel `c` of its
/// texel at `(x, y)` is the threshold that `bias` gives there.
pub proof fn lemma_dither_sample(x: u8, y: u8, c: int)
    requires
        x < TEXTURE_SIZE,
        y < TEXTURE_SIZE,
        0 <= c < 4,
    ensures
        dither_samples().len() == 260100,
        0 <= sample_index(x as int, y as int, c) < dither_samples().len(),
        dither_samples()[sample_index(x as int, y as int, c)] == bias(x, y)[c],
{
    let i = sample_index(x as int, y as int, c);
    let texels = y * 255 + x;
    assert(i / 4 == texels);
    assert(i % 4 == c);
    assert(texels % 255 == x as int);
    assert(texels / 255 == y as int);
    assert(x as u32 % 256 == x as u32);
    assert(y as u32 % 256 == y as u32);
}

/// The mirror relation of the dither texture: channel 1 of a texel is
/// channel 0 of the texel at the mirrored `x`, channel 2 is channel 0 of the
/// one at the mirrored `y`, and channel 3 is channel 0 of the one with both
/// mirrored, wherever the mirrored coordinate lies inside the texture.
pub proof fn lemma_dither_mirrors(x: u8, y: u8)
    requires
        x < TEXTURE_SIZE,
        y < TEXTURE_SIZE,
    ensures
        mirrored(x) < TEXTURE_SIZE ==> dither_samples()[sample_index(x as int, y as int, 1)]
            == dither_samples()[sample_index(mirrored(x) as int, y as int, 0)],
        mirrored(y) < TEXTURE_SIZE ==> dither_samples()[sample_index(x as int, y as int, 2)]
            == dither_samples()[sample_index(x as int, mirrored(y) as int, 0)],
        mirrored(x) < TEXTURE_SIZE && mirrored(y) < TEXTURE_SIZE ==> dither_samples()[sample_index(
            x as int,
            y as int,
            3,
        )] == dither_samples()[sample_index(mirrored(x) as int, mirrored(y) as int, 0)],
{
    lemma_bias_mirrors(x, y);
    lemma_dither_sample(x, y, 1);
    lemma_dither_sample(x, y, 2);
    lemma_dither_sample(x, y, 3);
    if mirrored(x) < TEXTURE_SIZE {
        lemma_dither_sample(mirrored(x), y, 0);
    }
    if mirrored(y) < TEXTURE_SIZE {
        lemma_dither_sample(x, mirrored(y), 0);
    }
    if mirrored(x) < TEXTURE_SIZE && mirrored(y) < TEXTURE_SIZE {
        lemma_dither_sample(mirrored(x), mirrored(y), 0);
    }
}

} // verus!
