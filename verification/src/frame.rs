//! Frames and the formats that shape them.

use vstd::prelude::*;

verus! {

/// Pixel layout tag carried by every captured frame.
#[derive(Clone, Copy, PartialEq, Eq, Structural, Debug)]
pub enum FrameFormat {
    Yuyv,
    Nv12,
    Mjpeg,
    Gray,
    Rawrgb,
}

/// Width and height of a frame in pixels.
#[derive(Clone, Copy, PartialEq, Eq, Structural, Debug)]
pub struct Resolution {
    pub width: u32,
    pub height: u32,
}

impl Resolution {
    pub fn new(width: u32, height: u32) -> (r: Resolution)
        ensures
            r.width == width,
            r.height == height,
    {
        Resolution { width, height }
    }
}

/// Negotiated capture configuration: resolution, pixel layout and frame rate.
#[derive(Clone, Copy, PartialEq, Eq, Structural, Debug)]
pub struct CameraFormat {
    pub resolution: Resolution,
    pub format: FrameFormat,
    pub frame_rate: u32,
}

impl CameraFormat {
    pub fn new(resolution: Resolution, format: FrameFormat, frame_rate: u32) -> (r: CameraFormat)
        ensures
            r.resolution == resolution,
            r.format == format,
            r.frame_rate == frame_rate,
    {
        CameraFormat { resolution, format, frame_rate }
    }
}

/// Mathematical value of a [`Frame`].
#[verifier::ext_equal]
pub struct FrameModel {
    pub resolution: Resolution,
    pub format: FrameFormat,
    pub data: Seq<u8>,
    pub sequence: u64,
}

/// One captured frame: an immutable value holding the resolution, the pixel
/// layout tag, the raw payload and a capture sequence hint.  A sequence of 0
/// marks the sentinel that the cache holds before any successful capture.
#[derive(Debug)]
pub struct Frame {
    pub resolution: Resolution,
    pub format: FrameFormat,
    pub data: Vec<u8>,
    pub sequence: u64,
}

impl View for Frame {
    type V = FrameModel;

    open spec fn view(&self) -> FrameModel {
        FrameModel {
            resolution: self.resolution,
            format: self.format,
            data: self.data@,
            sequence: self.sequence,
        }
    }
}

/// The placeholder value the last-frame cache holds before the first
/// successful capture for a given resolution and format.
pub open spec fn sentinel_model(resolution: Resolution, format: FrameFormat) -> FrameModel {
    FrameModel { resolution, format, data: Seq::empty(), sequence: 0 }
}

/// Whether a frame value is a cache placeholder rather than a captured frame.
pub open spec fn is_sentinel(f: FrameModel) -> bool {
    f.sequence == 0
}

impl Frame {
    /// Builds the cache placeholder for `resolution` and `format`.
    pub fn sentinel(resolution: Resolution, format: FrameFormat) -> (f: Frame)
        ensures
            f@ == sentinel_model(resolution, format),
    {
        let f = Frame { resolution, format, data: Vec::new(), sequence: 0 };
        proof {
            assert(f@.data =~= sentinel_model(resolution, format).data);
            assert(f@ =~= sentinel_model(resolution, format));
        }
        f
    }

    /// Independent copy carrying the same value.
    pub fn duplicate(&self) -> (r: Frame)
        ensures
            r@ == self@,
    {
        let r = Frame {
            resolution: self.resolution,
            format: self.format,
            data: vstd::slice::slice_to_vec(self.data.as_slice()),
            sequence: self.sequence,
        };
        proof {
            assert(r@ =~= self@);
        }
        r
    }
}

} // verus!
