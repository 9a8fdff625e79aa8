use vstd::prelude::*;

use webp_animation::ColorMode;

use crate::frame::{
    animation_of, raw_views, Animation, AnimationView, PixelLayout, RawFrame, RawFrameView,
};
use crate::normalize::normalize_frames;

verus! {

/// The decoder's error, carried as an opaque value.
#[verifier::external_type_specification]
#[verifier::external_body]
pub struct ExWebpError(webp_animation::Error);

/// The frames that the WebP animation decoder yields for a buffer, in order,
/// or `None` where it does not accept the buffer as an animated WebP image.
pub uninterp spec fn webp_frames(buffer: Seq<u8>) -> Option<Seq<RawFrameView>>;

/// Relies on `webp_animation::Decoder::new`, which fails on an empty buffer
/// and on one that libwebp does not accept, and on iterating the decoder,
/// which yields the decoded frames in order, each in the decoder's default
/// output layout, RGBA. The output is a function of the bytes alone.
#[verifier::external_body]
fn decode_frames(buffer: &[u8]) -> (r: Result<Vec<RawFrame>, webp_animation::Error>)
    ensures
        r is Ok <==> webp_frames(buffer@) is Some,
        r matches Ok(v) ==> webp_frames(buffer@) == Some(raw_views(v@)),
        r matches Ok(v) ==> forall|i: int| 0 <= i < v@.len() ==> (#[trigger] v@[i]).layout is Rgba,
        buffer@.len() == 0 ==> r is Err,
{
    let mut frames = Vec::new();
    for f in webp_animation::Decoder::new(buffer)? {
        let (width, height) = f.dimensions();
        let layout = match f.color_mode() {
            ColorMode::Rgb => PixelLayout::Rgb,
            ColorMode::Rgba => PixelLayout::Rgba,
            ColorMode::Bgra => PixelLayout::Bgra,
            ColorMode::Bgr => PixelLayout::Bgr,
        };
        let data = f.data().to_vec();
        frames.push(RawFrame { width, height, layout, data, timestamp: f.timestamp() });
    }
    Ok(frames)
}

/// Why a buffer could not be decoded.
#[derive(Clone, Copy, Debug, PartialEq, Eq, Structural)]
pub enum DecodeError {
    /// The buffer is not an animated WebP image that the decoder accepts.
    InvalidContainer,
    /// A frame came in a pixel layout that cannot be normalized.
    UnsupportedLayout,
}

/// The animation that a buffer decodes to, or `None` where the decoder
/// rejects it or one of its frames cannot be normalized.
pub open spec fn decoded_animation(buffer: Seq<u8>) -> Option<AnimationView> {
    match webp_frames(buffer) {
        Some(frames) => animation_of(frames),
        None => None,
    }
}

/// Decodes an animated WebP buffer and normalizes its frames, telling the two
/// kinds of failure apart.
pub fn try_decode_buffer(buffer: &[u8]) -> (r: Result<Animation, DecodeError>)
    ensures
        r matches Err(DecodeError::InvalidContainer) <==> webp_frames(buffer@) is None,
        r matches Err(DecodeError::UnsupportedLayout) <==> (webp_frames(buffer@) is Some
            && decoded_animation(buffer@) is None),
        r matches Ok(a) ==> decoded_animation(buffer@) == Some(a@),
        r is Ok <==> webp_frames(buffer@) is Some,
        buffer@.len() == 0 ==> r matches Err(DecodeError::InvalidContainer),
{
    match decode_frames(buffer) {
        Err(_) => Err(DecodeError::InvalidContainer),
        Ok(frames) => {
            proof {
                let raw = raw_views(frames@);
                assert forall|i: int| 0 <= i < raw.len() implies #[trigger] raw[i].layout
                    is Rgba by {
                    assert(frames@[i].layout is Rgba);
                }
            }
            match normalize_frames(frames.as_slice()) {
                Some(a) => Ok(a),
                None => Err(DecodeError::UnsupportedLayout),
            }
        },
    }
}

/// Decodes an animated WebP buffer into its normalized frames; `None` where
/// the buffer is not an animated WebP image that the decoder accepts.
pub fn decode_buffer(buffer: &[u8]) -> (r: Option<Animation>)
    ensures
        r is Some <==> webp_frames(buffer@) is Some,
        r matches Some(a) ==> decoded_animation(buffer@) == Some(a@),
        buffer@.len() == 0 ==> r is None,
{
    match try_decode_buffer(buffer) {
        Ok(a) => Some(a),
        Err(_) => None,
    }
}

/// Decoding depends on the bytes alone: two equal buffers decode to the same
/// frames, with the same rows and timestamps, and the same size.
pub proof fn lemma_decode_deterministic(a: Seq<u8>, b: Seq<u8>)
    requires
        a == b,
    ensures
        decoded_animation(a) == decoded_animation(b),
        decoded_animation(a) matches Some(x) ==> (decoded_animation(b) matches Some(y) && x.frames
            == y.frames && x.size == y.size),
{
}

} // verus!
