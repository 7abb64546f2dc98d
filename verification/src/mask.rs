//! The mask post-processor: turns the inference collaborator's raw
//! per-pixel values into a transparent-background PNG overlay.
//!
//! The collaborator's values and the user's threshold arrive as
//! floating-point numbers on the wire; the surrounding program maps
//! both through one order-preserving conversion to 64-bit integer
//! codes, normalising the two zero encodings to one code and sending
//! NaN values below (and a NaN threshold above) every number, so that
//! the integer comparison below decides as the IEEE `>=` comparison on
//! the originals.

use vstd::prelude::*;

verus! {

/// The raw probability mask the inference collaborator produced: one
/// value code per pixel, row by row.
pub struct RawMask {
    pub width: u32,
    pub height: u32,
    pub values: Vec<i64>,
}

impl RawMask {
    /// One value per pixel, and a pixel count whose RGBA buffer fits in
    /// memory.
    pub open spec fn wf(&self) -> bool {
        &&& self.values@.len() == self.width * self.height
        &&& 4 * (self.width as int) * (self.height as int) <= usize::MAX as int
    }
}

/// Binarization: a value at or above the threshold is foreground
/// (255), anything below is background (0).
pub open spec fn spec_binarize(v: i64, threshold: i64) -> u8 {
    if v >= threshold {
        255u8
    } else {
        0u8
    }
}

/// The alpha channel is punched out wherever the red channel lies
/// below the fixed opacity cutoff of 100.
pub open spec fn spec_alpha(red: u8) -> u8 {
    if red < 100 {
        0u8
    } else {
        255u8
    }
}

/// One RGBA pixel of the overlay: the binarized value replicated over
/// the three colour channels, with the alpha derived from the red one.
pub open spec fn spec_rgba_pixel(v: i64, threshold: i64) -> Seq<u8> {
    let b = spec_binarize(v, threshold);
    seq![b, b, b, spec_alpha(b)]
}

/// The flat RGBA buffer of the whole overlay.
pub open spec fn spec_rgba(values: Seq<i64>, threshold: i64) -> Seq<u8>
    decreases values.len(),
{
    if values.len() == 0 {
        Seq::empty()
    } else {
        spec_rgba(values.drop_last(), threshold) + spec_rgba_pixel(values.last(), threshold)
    }
}

/// The RGBA buffer holds four bytes per pixel.
pub proof fn lemma_spec_rgba_len(values: Seq<i64>, threshold: i64)
    ensures
        spec_rgba(values, threshold).len() == 4 * values.len(),
    decreases values.len(),
{
    if values.len() > 0 {
        lemma_spec_rgba_len(values.drop_last(), threshold);
    }
}

/// Builds the flat RGBA buffer of the overlay.
fn binarize_rgba(values: &Vec<i64>, threshold: i64) -> (r: Vec<u8>)
    requires
        4 * values@.len() <= usize::MAX,
    ensures
        r@ == spec_rgba(values@, threshold),
{
    let mut out: Vec<u8> = Vec::new();
    let n = values.len();
    let mut i: usize = 0;
    while i < n
        invariant
            i <= n,
            n == values@.len(),
            4 * n <= usize::MAX,
            out@ == spec_rgba(values@.take(i as int), threshold),
            out@.len() == 4 * i,
        decreases n - i,
    {
        let v = values[i];
        let b: u8 = if v >= threshold {
            255
        } else {
            0
        };
        let a: u8 = if b < 100 {
            0
        } else {
            255
        };
        out.push(b);
        out.push(b);
        out.push(b);
        out.push(a);
        proof {
            assert(values@.take(i as int + 1).drop_last() =~= values@.take(i as int));
            assert(values@.take(i as int + 1).last() == values@[i as int]);
            assert(out@ =~= spec_rgba(values@.take(i as int + 1), threshold));
        }
        i += 1;
    }
    proof {
        assert(values@.take(n as int) =~= values@);
    }
    out
}

/// The PNG encoding of an RGBA buffer with the given dimensions, for
/// the fixed encoder configuration this library uses.
pub uninterp spec fn png_of(rgba: Seq<u8>, width: int, height: int) -> Seq<u8>;

/// Whether the PNG encoder accepts an RGBA buffer with the given
/// dimensions (in practice it refuses only zero dimensions).
pub uninterp spec fn png_ok_of(rgba: Seq<u8>, width: int, height: int) -> bool;

/// Relies on the image crate's PNG encoder (`DynamicImage::write_to`
/// with `ImageFormat::Png`): for a fixed encoder configuration, whether
/// the encoder succeeds and, when it does, the bytes it writes are both
/// functions of the pixel buffer and the dimensions alone.
#[verifier::external_body]
fn encode_png_rgba(width: u32, height: u32, rgba: Vec<u8>) -> (r: Result<Vec<u8>, String>)
    requires
        rgba@.len() == 4 * width * height,
    ensures
        (r is Ok) == png_ok_of(rgba@, width as int, height as int),
        r is Ok ==> r.unwrap()@ == png_of(rgba@, width as int, height as int),
{
    let img: image::RgbaImage = match image::ImageBuffer::from_raw(width, height, rgba) {
        Some(img) => img,
        None => {
            return Err(format!("could not assemble the mask image"));
        },
    };
    let mut out = std::io::Cursor::new(Vec::new());
    match image::DynamicImage::ImageRgba8(img).write_to(&mut out, image::ImageFormat::Png) {
        Ok(()) => Ok(out.into_inner()),
        Err(e) => Err(format!("{e:?}")),
    }
}

/// The outcome of one segmentation run: the post-processed overlay,
/// encoded as PNG bytes.
pub struct SegmentResult {
    pub image: Vec<u8>,
}

/// Runs the whole post-processing pipeline on a raw mask: binarize by
/// the threshold, replicate over the colour channels, punch out the
/// background's alpha, and encode the overlay as PNG bytes.
pub fn postprocess_mask(mask: RawMask, threshold: i64) -> (r: Result<SegmentResult, String>)
    requires
        mask.wf(),
    ensures
        (r is Ok) == png_ok_of(
            spec_rgba(mask.values@, threshold),
            mask.width as int,
            mask.height as int,
        ),
        r matches Ok(res) ==> res.image@ == png_of(
            spec_rgba(mask.values@, threshold),
            mask.width as int,
            mask.height as int,
        ),
{
    proof {
        lemma_spec_rgba_len(mask.values@, threshold);
        assert(4 * (mask.width as int) * (mask.height as int) == 4 * ((mask.width as int) * (
        mask.height as int))) by (nonlinear_arith);
    }
    let rgba = binarize_rgba(&mask.values, threshold);
    match encode_png_rgba(mask.width, mask.height, rgba) {
        Ok(png) => Ok(SegmentResult { image: png }),
        Err(e) => Err(e),
    }
}

/// Post-processing is deterministic: two runs on the same mask and the
/// same threshold agree in full, on whether they succeed and, when they
/// do, on every output byte.
pub proof fn lemma_postprocess_deterministic(
    ok1: bool,
    out1: Seq<u8>,
    ok2: bool,
    out2: Seq<u8>,
    values: Seq<i64>,
    threshold: i64,
    width: int,
    height: int,
)
    requires
        ok1 == png_ok_of(spec_rgba(values, threshold), width, height),
        ok1 ==> out1 == png_of(spec_rgba(values, threshold), width, height),
        ok2 == png_ok_of(spec_rgba(values, threshold), width, height),
        ok2 ==> out2 == png_of(spec_rgba(values, threshold), width, height),
    ensures
        ok1 == ok2,
        ok1 ==> out1 == out2,
{
}

/// The threshold boundary lies in the foreground: a raw value exactly
/// equal to the threshold is classified foreground, not background.
pub proof fn lemma_threshold_boundary(v: i64, threshold: i64)
    requires
        v == threshold,
    ensures
        spec_binarize(v, threshold) == 255,
{
}

} // verus!
