//! The capability interface of a blocking capture device.

use vstd::prelude::*;

use crate::controls::{CameraControl, ControlId, ControlValue};
use crate::error::CameraError;
use crate::frame::{CameraFormat, Frame, FrameFormat, Resolution};

verus! {

/// Identity of a device: its index and its human-readable name.
pub struct DeviceInfo {
    pub index: u32,
    pub name: String,
}

/// Mathematical value of a [`DeviceInfo`].
#[verifier::ext_equal]
pub struct DeviceInfoModel {
    pub index: u32,
    pub name: Seq<char>,
}

impl View for DeviceInfo {
    type V = DeviceInfoModel;

    open spec fn view(&self) -> DeviceInfoModel {
        DeviceInfoModel { index: self.index, name: self.name@ }
    }
}

/// The platform capture API a device goes through.
#[derive(Clone, Copy, PartialEq, Eq, Structural, Debug)]
pub enum Backend {
    Auto,
    Video4Linux,
    AvFoundation,
    MediaFoundation,
    OpenCv,
    Browser,
}

/// Abstract state of a capture device: everything the control surface can
/// observe of it.
#[verifier::ext_equal]
pub struct DeviceModel {
    /// Index the device was opened under.
    pub index: u32,
    /// Capture API behind the device.
    pub backend: Backend,
    /// Human-readable device name.
    pub name: Seq<char>,
    /// The negotiated capture configuration.
    pub format: CameraFormat,
    /// Whether the device is currently producing frames.
    pub stream_open: bool,
    /// Controls the device advertises, in the order it lists them.
    pub supported: Seq<ControlId>,
    /// The control table: current state of each control the device has.
    pub controls: Map<ControlId, CameraControl>,
    /// Frame formats the device can produce.
    pub formats: Seq<FrameFormat>,
    /// For each frame format, the resolutions the device offers and the frame
    /// rates available at each.  A well-formed device lists each resolution
    /// at most once per format; the facade's query carries that distinctness
    /// through to its result.
    pub rates: Map<FrameFormat, Seq<(Resolution, Seq<u32>)>>,
}

/// A synchronous, blocking, fallible capture device.
///
/// This is the collaborator the facade drives: opening the hardware,
/// negotiating formats and pulling raw frames happen behind this interface
/// and are out of the facade's scope.  An implementation exposes its
/// observable state as [`DeviceModel`] through `model`, and each operation
/// says how it moves that state.  Capture and the stream and setter
/// operations may fail — when they decide to, the device state is unchanged
/// and the error is typed after the operation.
pub trait CaptureDevice: Sized {
    /// The observable state of the device.
    spec fn model(&self) -> DeviceModel;

    /// The index the device was opened under.
    fn index(&self) -> (r: u32)
        ensures
            r == self.model().index,
    ;

    /// Re-initializes the device under a new index; on failure the device is
    /// left as it was.
    fn set_index(&mut self, new_idx: u32) -> (r: Result<(), CameraError>)
        ensures
            match r {
                Ok(()) => final(self).model() == (DeviceModel {
                    index: new_idx,
                    stream_open: false,
                    ..old(self).model()
                }),
                Err(e) => final(self).model() == old(self).model() && (e matches
                    CameraError::SetPropertyError { property, .. } && property@ == "Index"@),
            },
    ;

    /// The capture API behind the device.
    fn backend(&self) -> (r: Backend)
        ensures
            r == self.model().backend,
    ;

    /// Re-initializes the device under a new capture API; on failure the
    /// device is left as it was.
    fn set_backend(&mut self, new_backend: Backend) -> (r: Result<(), CameraError>)
        ensures
            match r {
                Ok(()) => final(self).model() == (DeviceModel {
                    backend: new_backend,
                    stream_open: false,
                    ..old(self).model()
                }),
                Err(e) => final(self).model() == old(self).model() && (e matches
                    CameraError::SetPropertyError { property, .. } && property@ == "Backend"@),
            },
    ;

    /// The device's identity.
    fn info(&self) -> (r: DeviceInfo)
        ensures
            r@.index == self.model().index,
            r@.name == self.model().name,
    ;

    /// The negotiated capture configuration.
    fn camera_format(&self) -> (r: CameraFormat)
        ensures
            r == self.model().format,
    ;

    /// Renegotiates the whole capture configuration; on rejection the device
    /// is left as it was.
    fn set_camera_format(&mut self, new_fmt: CameraFormat) -> (r: Result<(), CameraError>)
        ensures
            match r {
                Ok(()) => final(self).model() == (DeviceModel { format: new_fmt, ..old(self).model() }),
                Err(e) => final(self).model() == old(self).model() && (e matches
                    CameraError::SetPropertyError { property, .. } && property@ == "CameraFormat"@),
            },
    ;

    /// Renegotiates the resolution alone; on rejection the device is left as
    /// it was.
    fn set_resolution(&mut self, new_res: Resolution) -> (r: Result<(), CameraError>)
        ensures
            match r {
                Ok(()) => final(self).model() == (DeviceModel {
                    format: CameraFormat { resolution: new_res, ..old(self).model().format },
                    ..old(self).model()
                }),
                Err(e) => final(self).model() == old(self).model() && (e matches
                    CameraError::SetPropertyError { property, .. } && property@ == "Resolution"@),
            },
    ;

    /// Renegotiates the frame rate alone; on rejection the device is left as
    /// it was.
    fn set_frame_rate(&mut self, new_fps: u32) -> (r: Result<(), CameraError>)
        ensures
            match r {
                Ok(()) => final(self).model() == (DeviceModel {
                    format: CameraFormat { frame_rate: new_fps, ..old(self).model().format },
                    ..old(self).model()
                }),
                Err(e) => final(self).model() == old(self).model() && (e matches
                    CameraError::SetPropertyError { property, .. } && property@ == "Framerate"@),
            },
    ;

    /// Renegotiates the pixel layout alone; on rejection the device is left
    /// as it was.
    fn set_frame_format(&mut self, fourcc: FrameFormat) -> (r: Result<(), CameraError>)
        ensures
            match r {
                Ok(()) => final(self).model() == (DeviceModel {
                    format: CameraFormat { format: fourcc, ..old(self).model().format },
                    ..old(self).model()
                }),
                Err(e) => final(self).model() == old(self).model() && (e matches
                    CameraError::SetPropertyError { property, .. } && property@ == "Frameformat"@),
            },
    ;

    /// Starts producing frames; idempotent when the stream is already open.
    fn open_stream(&mut self) -> (r: Result<(), CameraError>)
        ensures
            match r {
                Ok(()) => final(self).model() == (DeviceModel { stream_open: true, ..old(self).model() }),
                Err(e) => final(self).model() == old(self).model() && e matches
                    CameraError::OpenStreamError(_),
            },
    ;

    /// Stops producing frames; on failure the device is left as it was.
    fn close_stream(&mut self) -> (r: Result<(), CameraError>)
        ensures
            match r {
                Ok(()) => final(self).model() == (DeviceModel { stream_open: false, ..old(self).model() }),
                Err(e) => final(self).model() == old(self).model() && e matches
                    CameraError::StreamShutdownError(_),
            },
    ;

    /// Whether the device is currently producing frames.
    fn is_stream_open(&self) -> (r: bool)
        ensures
            r == self.model().stream_open,
    ;

    /// Blocks for one frame.  A produced frame is shaped by the negotiated
    /// configuration and carries a nonzero sequence hint; success is the
    /// device's to decide, and either way the observable device state is
    /// unchanged.
    fn capture_one_frame(&mut self) -> (r: Result<Frame, CameraError>)
        ensures
            final(self).model() == old(self).model(),
            match r {
                Ok(f) => f@.resolution == old(self).model().format.resolution && f@.format == old(
                    self,
                ).model().format.format && f@.sequence != 0,
                Err(e) => e matches CameraError::ReadFrameError(_),
            },
    ;

    /// The controls the device advertises; the query itself may fail.
    fn supported_camera_controls(&self) -> (r: Result<Vec<ControlId>, CameraError>)
        ensures
            match r {
                Ok(v) => v@ == self.model().supported,
                Err(e) => e matches CameraError::GetPropertyError { property, .. } && property@
                    == "Supported Camera Controls"@,
            },
    ;

    /// Looks one control up: its current state if the device has it, an error
    /// if not.
    fn camera_control(&self, control: ControlId) -> (r: Result<CameraControl, CameraError>)
        ensures
            match r {
                Ok(c) => self.model().controls.contains_key(control) && c
                    == self.model().controls[control],
                Err(e) => !self.model().controls.contains_key(control) && (e matches
                    CameraError::GetPropertyError { property, .. } && property@
                    == "Camera Control"@),
            },
    ;

    /// Writes one control's value.  On success the control existed and now
    /// carries `value`; on rejection (unknown control, value out of range)
    /// the device is left as it was.
    fn set_camera_control(&mut self, id: ControlId, value: ControlValue) -> (r: Result<
        (),
        CameraError,
    >)
        ensures
            match r {
                Ok(()) => old(self).model().controls.contains_key(id) && final(self).model() == (
                DeviceModel {
                    controls: old(self).model().controls.insert(
                        id,
                        CameraControl { value, ..old(self).model().controls[id] },
                    ),
                    ..old(self).model()
                }),
                Err(e) => final(self).model() == old(self).model() && (e matches
                    CameraError::SetPropertyError { property, .. } && property@ == "Camera Control"@),
            },
    ;

    /// The frame formats the device can produce; the query itself may fail
    /// and never changes the device.
    fn compatible_fourcc(&mut self) -> (r: Result<Vec<FrameFormat>, CameraError>)
        ensures
            final(self).model() == old(self).model(),
            match r {
                Ok(v) => v@ == old(self).model().formats,
                Err(e) => e matches CameraError::GetPropertyError { property, .. } && property@
                    == "Compatible FourCC"@,
            },
    ;

    /// The resolutions offered for `fourcc` with the frame rates available at
    /// each; the query itself may fail and never changes the device.
    fn compatible_list_by_resolution(&mut self, fourcc: FrameFormat) -> (r: Result<
        Vec<(Resolution, Vec<u32>)>,
        CameraError,
    >)
        ensures
            final(self).model() == old(self).model(),
            match r {
                Ok(v) => old(self).model().rates.contains_key(fourcc) && v@.map_values(
                    |p: (Resolution, Vec<u32>)| (p.0, p.1@),
                ) == old(self).model().rates[fourcc],
                Err(e) => e matches CameraError::GetPropertyError { property, .. } && property@
                    == "Compatible Resolutions"@,
            },
    ;
}

} // verus!
