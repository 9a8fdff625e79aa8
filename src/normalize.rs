use vstd::prelude::*;

use crate::frame::{
    animation_of, frame_view, is_supported, normalized_rows, raw_views, rows_spec, Animation,
    Frame, PixelLayout, RawFrame, RawFrameView,
};

verus! {

/// Cuts `data` into groups of `stride` bytes and keeps the first three bytes
/// of each whole group.
fn pixel_rows(data: &[u8], stride: usize) -> (rows: Vec<Vec<u8>>)
    requires
        stride >= 3,
    ensures
        rows.deep_view() == rows_spec(data@, stride as nat),
{
    let n: usize = data.len() / stride;
    let mut rows: Vec<Vec<u8>> = Vec::new();
    let mut i: usize = 0;
    while i < n
        invariant
            stride >= 3,
            n == data@.len() / (stride as nat),
            i <= n,
            rows@.len() == i,
            forall|j: int| 0 <= j < i ==> (#[trigger] rows@[j])@ == rows_spec(data@, stride as nat)[j],
        decreases n - i,
    {
        proof {
            assert(stride * i + stride <= data@.len()) by (nonlinear_arith)
                requires
                    i < n,
                    n == data@.len() / (stride as nat),
                    stride >= 3,
            ;
            assert(data@.len() == data.len());
        }
        let base: usize = stride * i;
        let mut row: Vec<u8> = Vec::new();
        row.push(data[base]);
        row.push(data[base + 1]);
        row.push(data[base + 2]);
        proof {
            assert(row@ =~= rows_spec(data@, stride as nat)[i as int]);
        }
        rows.push(row);
        i = i + 1;
    }
    assert forall|j: int| 0 <= j < n implies rows.deep_view()[j] == rows_spec(data@, stride as nat)[j] by {
        assert(rows@[j].deep_view() =~= rows@[j]@);
    }
    assert(rows.deep_view() =~= rows_spec(data@, stride as nat));
    rows
}

/// One row of three bytes for each whole group of three bytes of `data`.
pub fn rgb_rows(data: &[u8]) -> (rows: Vec<Vec<u8>>)
    ensures
        rows.deep_view() == rows_spec(data@, 3),
        rows.deep_view().len() == data@.len() / 3,
        forall|i: int| 0 <= i < rows.deep_view().len() ==> (#[trigger] rows.deep_view()[i]).len() == 3,
{
    pixel_rows(data, 3)
}

/// One row of three bytes for each whole group of four bytes of `data`: the
/// fourth byte of every group is dropped.
pub fn rgba_rows(data: &[u8]) -> (rows: Vec<Vec<u8>>)
    ensures
        rows.deep_view() == rows_spec(data@, 4),
        rows.deep_view().len() == data@.len() / 4,
        forall|i: int| 0 <= i < rows.deep_view().len() ==> (#[trigger] rows.deep_view()[i]).len() == 3,
{
    pixel_rows(data, 4)
}

/// Normalizes one frame to rows of `[red, green, blue]`, paired with its
/// timestamp; `None` where its layout is not supported.
pub fn normalize_frame(frame: &RawFrame) -> (r: Option<Frame>)
    ensures
        r is None <==> normalized_rows(frame@) is None,
        r matches Some(f) ==> normalized_rows(frame@) == Some(f.0.deep_view()) && f.1
            == frame.timestamp,
{
    match frame.layout {
        PixelLayout::Rgb => Some((rgb_rows(frame.data.as_slice()), frame.timestamp)),
        PixelLayout::Rgba => Some((rgba_rows(frame.data.as_slice()), frame.timestamp)),
        _ => None,
    }
}

/// Assembles decoded frames, in order, into an animation whose size is the
/// one that the last frame reported. No partial result: `None` as soon as one
/// frame has a layout that is not supported.
pub fn normalize_frames(frames: &[RawFrame]) -> (r: Option<Animation>)
    ensures
        r is None <==> animation_of(raw_views(frames@)) is None,
        r matches Some(a) ==> animation_of(raw_views(frames@)) == Some(a@),
{
    let ghost raw = raw_views(frames@);
    let mut animation = Animation { frames: Vec::new(), size: (0, 0) };
    let mut i: usize = 0;
    while i < frames.len()
        invariant
            raw == raw_views(frames@),
            i <= frames@.len(),
            animation.frames@.len() == i,
            forall|j: int| 0 <= j < i ==> is_supported(#[trigger] raw[j].layout),
            forall|j: int|
                0 <= j < i ==> frame_view(#[trigger] animation.frames@[j]) == (
                normalized_rows(raw[j]).unwrap(),
                raw[j].timestamp,
            ),
            animation.size == if i == 0 {
                (0u32, 0u32)
            } else {
                (raw[i - 1].width, raw[i - 1].height)
            },
        decreases frames@.len() - i,
    {
        let frame = &frames[i];
        animation.size = (frame.width, frame.height);
        match normalize_frame(frame) {
            Some(f) => {
                animation.frames.push(f);
            },
            None => {
                assert(!is_supported(raw[i as int].layout));
                return None;
            },
        }
        i = i + 1;
    }
    proof {
        let spec_frames = animation_of(raw).unwrap().frames;
        assert(animation@.frames =~= spec_frames);
    }
    Some(animation)
}

/// Every frame in a supported layout is kept: the animation has one frame for
/// each decoded frame, in the same order, each holding that frame's rows and
/// timestamp.
pub proof fn lemma_frames_kept_in_order(frames: Seq<RawFrameView>)
    requires
        forall|i: int| 0 <= i < frames.len() ==> is_supported(#[trigger] frames[i].layout),
    ensures
        animation_of(frames) is Some,
        animation_of(frames).unwrap().frames.len() == frames.len(),
        forall|i: int|
            0 <= i < frames.len() ==> #[trigger] animation_of(frames).unwrap().frames[i] == (
            normalized_rows(frames[i]).unwrap(),
            frames[i].timestamp,
        ),
{
}

/// One frame in a layout that is not supported rejects the whole animation,
/// whatever the frames before it.
pub proof fn lemma_unsupported_frame_rejects(frames: Seq<RawFrameView>, k: int)
    requires
        0 <= k < frames.len(),
        !is_supported(frames[k].layout),
    ensures
        animation_of(frames) is None,
{
}

/// The size of an assembled animation is the one that its last frame
/// reported, whatever the earlier frames reported.
pub proof fn lemma_size_of_last_frame(frames: Seq<RawFrameView>)
    requires
        frames.len() > 0,
        animation_of(frames) is Some,
    ensures
        animation_of(frames).unwrap().size == (
            frames[frames.len() - 1].width,
            frames[frames.len() - 1].height,
        ),
{
}

} // verus!
