use vstd::prelude::*;

verus! {

/// Channel layout of a decoded frame's flat pixel buffer.
#[derive(Clone, Copy, Debug, PartialEq, Eq, Structural)]
pub enum PixelLayout {
    /// red, green, blue
    Rgb,
    /// red, green, blue, alpha
    Rgba,
    /// blue, green, red, alpha
    Bgra,
    /// blue, green, red
    Bgr,
}

/// A frame as the bitstream decoder hands it over: canvas dimensions, the
/// channel layout of `data`, the flat pixel buffer and the presentation
/// timestamp.
#[derive(Debug)]
pub struct RawFrame {
    pub width: u32,
    pub height: u32,
    pub layout: PixelLayout,
    pub data: Vec<u8>,
    pub timestamp: i32,
}

/// What a [`RawFrame`] holds, with its buffer as a sequence.
pub ghost struct RawFrameView {
    pub width: u32,
    pub height: u32,
    pub layout: PixelLayout,
    pub data: Seq<u8>,
    pub timestamp: i32,
}

impl View for RawFrame {
    type V = RawFrameView;

    open spec fn view(&self) -> RawFrameView {
        RawFrameView {
            width: self.width,
            height: self.height,
            layout: self.layout,
            data: self.data@,
            timestamp: self.timestamp,
        }
    }
}

/// A normalized frame: one row of `[red, green, blue]` per pixel, and the
/// frame's timestamp.
pub type Frame = (Vec<Vec<u8>>, i32);

/// What a [`Frame`] holds: its rows and its timestamp.
pub type FrameView = (Seq<Seq<u8>>, i32);

/// The rows of a frame as byte sequences, and its timestamp.
pub open spec fn frame_view(f: Frame) -> FrameView {
    (f.0.deep_view(), f.1)
}

/// A decoded animation: its frames in decoding order, and the canvas size
/// `(width, height)` that the last frame reported (`(0, 0)` without frames).
pub struct Animation {
    pub frames: Vec<Frame>,
    pub size: (u32, u32),
}

/// What an [`Animation`] holds: its frames' views and its size.
pub ghost struct AnimationView {
    pub frames: Seq<FrameView>,
    pub size: (u32, u32),
}

impl View for Animation {
    type V = AnimationView;

    open spec fn view(&self) -> AnimationView {
        AnimationView {
            frames: self.frames@.map_values(|f: Frame| frame_view(f)),
            size: self.size,
        }
    }
}

/// The rows of a flat buffer cut into groups of `stride` bytes: one row per
/// whole group, holding the group's first three bytes. A trailing partial
/// group yields no row.
pub open spec fn rows_spec(data: Seq<u8>, stride: nat) -> Seq<Seq<u8>>
    recommends
        stride >= 3,
{
    Seq::new(
        data.len() / stride,
        |i: int| data.subrange(stride * i, stride * i + 3),
    )
}

/// Whether frames of this layout can be normalized: the layouts in red,
/// green, blue order, with or without alpha.
pub open spec fn is_supported(layout: PixelLayout) -> bool {
    layout is Rgb || layout is Rgba
}

/// The rows that a frame normalizes to, or `None` where its layout is not
/// supported.
pub open spec fn normalized_rows(f: RawFrameView) -> Option<Seq<Seq<u8>>> {
    match f.layout {
        PixelLayout::Rgb => Some(rows_spec(f.data, 3)),
        PixelLayout::Rgba => Some(rows_spec(f.data, 4)),
        _ => None,
    }
}

/// The animation that a sequence of decoded frames assembles to: every frame
/// normalized, in order, with its timestamp, and the size that the last frame
/// reported. `None` as soon as one frame has a layout that is not supported.
pub open spec fn animation_of(frames: Seq<RawFrameView>) -> Option<AnimationView> {
    if forall|i: int| 0 <= i < frames.len() ==> is_supported(#[trigger] frames[i].layout) {
        Some(
            AnimationView {
                frames: Seq::new(
                    frames.len(),
                    |i: int| (normalized_rows(frames[i]).unwrap(), frames[i].timestamp),
                ),
                size: if frames.len() == 0 {
                    (0u32, 0u32)
                } else {
                    (frames.last().width, frames.last().height)
                },
            },
        )
    } else {
        None
    }
}

/// The views of a sequence of raw frames.
pub open spec fn raw_views(frames: Seq<RawFrame>) -> Seq<RawFrameView> {
    frames.map_values(|f: RawFrame| f@)
}

} // verus!
