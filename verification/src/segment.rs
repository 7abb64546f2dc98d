//! Data model of the segmentation protocol and the verified steps of
//! the trigger route's pipeline: decode the request's image, hand it to
//! the inference collaborator, post-process the returned mask, and wrap
//! the answer.
//!
//! The collaborator itself (model loading and the forward pass) lives
//! outside the library; its inputs and outputs pass through here as
//! plain values.

use vstd::prelude::*;
use vstd::utf8::encode_utf8;

use crate::codec::b64_encode_of;
use crate::codec::b64_valid;
use crate::codec::decode_base64;
use crate::codec::encode_base64;
use crate::http::HandlerOutcome;
use crate::http::HttpResponse;
use crate::http::OutcomeModel;
use crate::http::ResponseModel;
use crate::http::spec_text_plain;
use crate::mask::RawMask;
use crate::mask::png_of;
use crate::mask::png_ok_of;
use crate::mask::postprocess_mask;
use crate::mask::spec_rgba;

verus! {

/// Whether a point marks a region to include in, or exclude from, the mask.
#[derive(Debug, Copy, Clone, PartialEq, Eq, Structural)]
pub enum Category {
    Include,
    Exclude,
}

impl Category {
    /// The boolean the inference collaborator expects: `true` for include.
    pub fn as_bool(&self) -> (r: bool)
        ensures
            r == (*self is Include),
    {
        match self {
            Category::Include => true,
            Category::Exclude => false,
        }
    }
}

/// A point of interest in normalised image coordinates. The wire
/// carries `x` and `y` as floating-point numbers in `[0, 1]`; the
/// surrounding program stores their 64-bit patterns here unchanged, and
/// this library carries them through to the collaborator untouched.
#[derive(Debug, Copy, Clone, PartialEq, Eq, Structural)]
pub struct Point {
    pub x: u64,
    pub y: u64,
    pub category: Category,
}

/// One decoded trigger request: the points of interest, the image
/// still in its base64 wire form, and the threshold twice over - its
/// wire bit pattern, echoed back unchanged in the answer, and the
/// order-preserving integer code also used for the mask's values, which
/// the thresholding compares.
pub struct SegmentationRequest {
    pub points: Vec<Point>,
    pub image_b64: String,
    pub threshold_bits: u64,
    pub threshold_code: i64,
}

/// First step of the trigger pipeline: recover the image bytes from
/// their base64 wire form. Decoding succeeds exactly on the canonical
/// base64 strings, and whenever the field is the encoding of some byte
/// sequence, those bytes come back; a decode failure becomes the
/// handler's failure outcome, described by a message that opens with
/// `failure: `.
pub fn sam_begin(req: &SegmentationRequest) -> (r: Result<Vec<u8>, HandlerOutcome>)
    ensures
        (r is Ok) == b64_valid(req.image_b64@),
        forall|b: Seq<u8>| req.image_b64@ == b64_encode_of(b) ==> r is Ok && r->Ok_0@ == b,
        r is Err ==> (r->Err_0@ matches OutcomeModel::Failed(m) && m.subrange(0, 9)
            == "failure: "@),
{
    match decode_base64(req.image_b64.as_str()) {
        Ok(bytes) => Ok(bytes),
        Err(e) => Err(HandlerOutcome::Failed(e)),
    }
}

/// Last step of the trigger pipeline: post-process what the inference
/// collaborator returned and encode the overlay for the wire. A
/// collaborator failure is passed through as the handler's failure
/// outcome, with its description. On a returned mask the step succeeds
/// exactly when the PNG encoder accepts the overlay and the encoded
/// bytes are small enough for base64, and the result is then the base64
/// encoding of the post-processed PNG.
pub fn sam_finish(inference: Result<RawMask, String>, threshold: i64) -> (r: Result<
    String,
    HandlerOutcome,
>)
    requires
        inference matches Ok(m) ==> m.wf(),
    ensures
        inference matches Err(e) ==> r is Err && r->Err_0@ == OutcomeModel::Failed(e@),
        inference matches Ok(m) ==> {
            let rgba = spec_rgba(m.values@, threshold);
            let w = m.width as int;
            let h = m.height as int;
            &&& (r is Ok) == (png_ok_of(rgba, w, h) && 4 * png_of(rgba, w, h).len()
                <= usize::MAX)
            &&& (r matches Ok(s) ==> s@ == b64_encode_of(png_of(rgba, w, h)))
            &&& (r matches Err(o) ==> o@ is Failed)
        },
{
    match inference {
        Err(e) => Err(HandlerOutcome::Failed(e)),
        Ok(m) => match postprocess_mask(m, threshold) {
            Err(e) => Err(HandlerOutcome::Failed(e)),
            Ok(res) => {
                if res.image.len().checked_mul(4).is_some() {
                    Ok(encode_base64(&res.image))
                } else {
                    Err(HandlerOutcome::Failed(String::from_str("mask image too large")))
                }
            },
        },
    }
}

/// Wraps the serialized trigger answer: status 200 under the plain-text
/// content type, with the permissive CORS headers, as every response of
/// the API handler carries.
pub fn sam_respond(body_json: String) -> (o: HandlerOutcome)
    ensures
        o@ == OutcomeModel::Claimed(
            ResponseModel {
                status: 200,
                body: encode_utf8(body_json@),
                content_type: Some(spec_text_plain()),
                cors: true,
            },
        ),
{
    let r = HttpResponse {
        status: 200,
        body: body_json.as_str().as_bytes_vec(),
        content_type: Some(String::from_str("text/plain; charset=UTF-8")),
        cors: false,
    };
    HandlerOutcome::Claimed(r.allow_cors())
}

/// The trigger answer's payload: the request echoed with the image
/// field replaced by the encoded mask. Points and threshold pass
/// through unchanged.
pub fn segmentation_reply(req: SegmentationRequest, mask_b64: String) -> (r: SegmentationRequest)
    ensures
        r.points@ == req.points@,
        r.threshold_bits == req.threshold_bits,
        r.threshold_code == req.threshold_code,
        r.image_b64@ == mask_b64@,
{
    SegmentationRequest { image_b64: mask_b64, ..req }
}

/// The dimensions an image is resized to so that its longest side
/// becomes `longest`, keeping the aspect ratio with integer arithmetic
/// rounding down; returned as (height, width).
pub fn resize_longest_dims(height: u32, width: u32, longest: u32) -> (r: (u32, u32))
    requires
        height > 0,
        width > 0,
        height < width ==> longest * height <= u32::MAX,
        height >= width ==> longest * width <= u32::MAX,
    ensures
        height < width ==> r.0 == longest as int * height as int / (width as int) && r.1
            == longest,
        height >= width ==> r.0 == longest && r.1 == longest as int * width as int / (
        height as int),
{
    if height < width {
        (longest * height / width, longest)
    } else {
        (longest, longest * width / height)
    }
}

} // verus!
