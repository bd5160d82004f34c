//! An in-memory capture device for exercising the facade.
//!
//! `MockCamera` implements the full device capability interface with
//! deterministic state: frames carry an increasing sequence hint, the control
//! table holds a brightness and a contrast control, and failures of capture,
//! configuration and shutdown can be injected to drive the facade's error
//! paths.

use vstd::prelude::*;
use vstd::string::StringExecFns;

use crate::controls::{CameraControl, ControlId, ControlValue};
use crate::device::{Backend, CaptureDevice, DeviceInfo, DeviceModel};
use crate::error::CameraError;
use crate::frame::{CameraFormat, Frame, FrameFormat, Resolution};

verus! {

/// The brightness control a fresh mock device advertises.
pub open spec fn default_brightness() -> CameraControl {
    CameraControl {
        id: ControlId::Brightness,
        minimum: -64i64,
        maximum: 64i64,
        step: 1,
        value: ControlValue::Integer(0),
        default_value: 0,
        active: true,
    }
}

/// The contrast control a fresh mock device advertises.
pub open spec fn default_contrast() -> CameraControl {
    CameraControl {
        id: ControlId::Contrast,
        minimum: 0,
        maximum: 100,
        step: 1,
        value: ControlValue::Integer(50),
        default_value: 50,
        active: true,
    }
}

/// The frame formats every mock device offers.
pub open spec fn mock_formats() -> Seq<FrameFormat> {
    seq![FrameFormat::Yuyv, FrameFormat::Mjpeg, FrameFormat::Gray]
}

/// The resolution and frame-rate table every mock device offers, for any
/// frame format.
pub open spec fn mock_rate_table() -> Seq<(Resolution, Seq<u32>)> {
    seq![
        (Resolution { width: 640, height: 480 }, seq![30u32]),
        (Resolution { width: 320, height: 240 }, seq![30u32, 60u32]),
    ]
}

/// The observable state of a fresh mock device at `index` with `format`.
pub open spec fn mock_device_model(index: u32, format: CameraFormat) -> DeviceModel {
    DeviceModel {
        index,
        backend: Backend::Auto,
        name: "Mock Camera"@,
        format,
        stream_open: false,
        supported: seq![ControlId::Brightness, ControlId::Contrast],
        controls: map![
            ControlId::Brightness => default_brightness(),
            ControlId::Contrast => default_contrast(),
        ],
        formats: mock_formats(),
        rates: Map::new(|f: FrameFormat| true, |f: FrameFormat| mock_rate_table()),
    }
}

/// A deterministic in-memory capture device.
pub struct MockCamera {
    index: u32,
    backend: Backend,
    format: CameraFormat,
    stream_open: bool,
    brightness: CameraControl,
    contrast: CameraControl,
    next_seq: u64,
    fail_captures: u32,
    reject_config: bool,
    fail_shutdown: bool,
}

impl MockCamera {
    /// A fresh device at `index`, negotiated to `format`, stream closed.
    pub fn new(index: u32, format: CameraFormat) -> (cam: MockCamera)
        ensures
            cam.model() == mock_device_model(index, format),
    {
        let cam = MockCamera {
            index,
            backend: Backend::Auto,
            format,
            stream_open: false,
            brightness: CameraControl {
                id: ControlId::Brightness,
                minimum: -64i64,
                maximum: 64i64,
                step: 1,
                value: ControlValue::Integer(0),
                default_value: 0,
                active: true,
            },
            contrast: CameraControl {
                id: ControlId::Contrast,
                minimum: 0,
                maximum: 100,
                step: 1,
                value: ControlValue::Integer(50),
                default_value: 50,
                active: true,
            },
            next_seq: 1,
            fail_captures: 0,
            reject_config: false,
            fail_shutdown: false,
        };
        proof {
            assert(cam.model().rates =~= mock_device_model(index, format).rates);
            assert(cam.model() =~= mock_device_model(index, format));
        }
        cam
    }

    /// Makes the next `n` capture attempts fail with a read error; the
    /// observable device state is untouched.
    pub fn inject_capture_failures(&mut self, n: u32)
        ensures
            final(self).model() == old(self).model(),
    {
        self.fail_captures = n;
        proof {
            assert(final(self).model().rates =~= old(self).model().rates);
            assert(final(self).model() =~= old(self).model());
        }
    }

    /// Makes every configuration change and stream opening fail until turned
    /// off again; the observable device state is untouched.
    pub fn inject_config_rejection(&mut self, reject: bool)
        ensures
            final(self).model() == old(self).model(),
    {
        self.reject_config = reject;
        proof {
            assert(final(self).model().rates =~= old(self).model().rates);
            assert(final(self).model() =~= old(self).model());
        }
    }

    /// Makes stream shutdown fail until turned off again; the observable
    /// device state is untouched.
    pub fn inject_shutdown_failure(&mut self, fail: bool)
        ensures
            final(self).model() == old(self).model(),
    {
        self.fail_shutdown = fail;
        proof {
            assert(final(self).model().rates =~= old(self).model().rates);
            assert(final(self).model() =~= old(self).model());
        }
    }
}

impl CaptureDevice for MockCamera {
    closed spec fn model(&self) -> DeviceModel {
        DeviceModel {
            index: self.index,
            backend: self.backend,
            name: "Mock Camera"@,
            format: self.format,
            stream_open: self.stream_open,
            supported: seq![ControlId::Brightness, ControlId::Contrast],
            controls: map![
                ControlId::Brightness => self.brightness,
                ControlId::Contrast => self.contrast,
            ],
            formats: mock_formats(),
            rates: Map::new(|f: FrameFormat| true, |f: FrameFormat| mock_rate_table()),
        }
    }

    fn index(&self) -> (r: u32) {
        self.index
    }

    fn set_index(&mut self, new_idx: u32) -> (r: Result<(), CameraError>) {
        if self.reject_config {
            return Err(CameraError::SetPropertyError {
                property: String::from_str("Index"),
                value: String::from_str("requested index"),
                error: String::from_str("configuration rejected"),
            });
        }
        self.index = new_idx;
        self.stream_open = false;
        proof {
            assert(final(self).model().rates =~= old(self).model().rates);
            assert(final(self).model() =~= (DeviceModel {
                index: new_idx,
                stream_open: false,
                ..old(self).model()
            }));
        }
        Ok(())
    }

    fn backend(&self) -> (r: Backend) {
        self.backend
    }

    fn set_backend(&mut self, new_backend: Backend) -> (r: Result<(), CameraError>) {
        if self.reject_config {
            return Err(CameraError::SetPropertyError {
                property: String::from_str("Backend"),
                value: String::from_str("requested backend"),
                error: String::from_str("configuration rejected"),
            });
        }
        self.backend = new_backend;
        self.stream_open = false;
        proof {
            assert(final(self).model().rates =~= old(self).model().rates);
            assert(final(self).model() =~= (DeviceModel {
                backend: new_backend,
                stream_open: false,
                ..old(self).model()
            }));
        }
        Ok(())
    }

    fn info(&self) -> (r: DeviceInfo) {
        DeviceInfo { index: self.index, name: String::from_str("Mock Camera") }
    }

    fn camera_format(&self) -> (r: CameraFormat) {
        self.format
    }

    fn set_camera_format(&mut self, new_fmt: CameraFormat) -> (r: Result<(), CameraError>) {
        if self.reject_config {
            return Err(CameraError::SetPropertyError {
                property: String::from_str("CameraFormat"),
                value: String::from_str("requested format"),
                error: String::from_str("configuration rejected"),
            });
        }
        self.format = new_fmt;
        proof {
            assert(final(self).model().rates =~= old(self).model().rates);
            assert(final(self).model() =~= (DeviceModel { format: new_fmt, ..old(self).model() }));
        }
        Ok(())
    }

    fn set_resolution(&mut self, new_res: Resolution) -> (r: Result<(), CameraError>) {
        if self.reject_config {
            return Err(CameraError::SetPropertyError {
                property: String::from_str("Resolution"),
                value: String::from_str("requested resolution"),
                error: String::from_str("configuration rejected"),
            });
        }
        self.format = CameraFormat { resolution: new_res, ..self.format };
        proof {
            assert(final(self).model().rates =~= old(self).model().rates);
            assert(final(self).model() =~= (DeviceModel {
                format: CameraFormat { resolution: new_res, ..old(self).model().format },
                ..old(self).model()
            }));
        }
        Ok(())
    }

    fn set_frame_rate(&mut self, new_fps: u32) -> (r: Result<(), CameraError>) {
        if self.reject_config {
            return Err(CameraError::SetPropertyError {
                property: String::from_str("Framerate"),
                value: String::from_str("requested frame rate"),
                error: String::from_str("configuration rejected"),
            });
        }
        self.format = CameraFormat { frame_rate: new_fps, ..self.format };
        proof {
            assert(final(self).model().rates =~= old(self).model().rates);
            assert(final(self).model() =~= (DeviceModel {
                format: CameraFormat { frame_rate: new_fps, ..old(self).model().format },
                ..old(self).model()
            }));
        }
        Ok(())
    }

    fn set_frame_format(&mut self, fourcc: FrameFormat) -> (r: Result<(), CameraError>) {
        if self.reject_config {
            return Err(CameraError::SetPropertyError {
                property: String::from_str("Frameformat"),
                value: String::from_str("requested frame format"),
                error: String::from_str("configuration rejected"),
            });
        }
        self.format = CameraFormat { format: fourcc, ..self.format };
        proof {
            assert(final(self).model().rates =~= old(self).model().rates);
            assert(final(self).model() =~= (DeviceModel {
                format: CameraFormat { format: fourcc, ..old(self).model().format },
                ..old(self).model()
            }));
        }
        Ok(())
    }

    fn open_stream(&mut self) -> (r: Result<(), CameraError>) {
        if self.reject_config {
            return Err(CameraError::OpenStreamError(String::from_str("device is busy")));
        }
        self.stream_open = true;
        proof {
            assert(final(self).model().rates =~= old(self).model().rates);
            assert(final(self).model() =~= (DeviceModel {
                stream_open: true,
                ..old(self).model()
            }));
        }
        Ok(())
    }

    fn close_stream(&mut self) -> (r: Result<(), CameraError>) {
        if self.fail_shutdown {
            return Err(CameraError::StreamShutdownError(String::from_str("device hung up")));
        }
        self.stream_open = false;
        proof {
            assert(final(self).model().rates =~= old(self).model().rates);
            assert(final(self).model() =~= (DeviceModel {
                stream_open: false,
                ..old(self).model()
            }));
        }
        Ok(())
    }

    fn is_stream_open(&self) -> (r: bool) {
        self.stream_open
    }

    fn capture_one_frame(&mut self) -> (r: Result<Frame, CameraError>) {
        proof {
            assert(final(self).model().rates =~= old(self).model().rates);
        }
        if self.fail_captures > 0 {
            self.fail_captures = self.fail_captures - 1;
            proof {
                assert(final(self).model() =~= old(self).model());
            }
            return Err(CameraError::ReadFrameError(String::from_str("injected capture failure")));
        }
        if !self.stream_open {
            return Err(CameraError::ReadFrameError(String::from_str("stream is not open")));
        }
        let seq_no: u64 = if self.next_seq == 0 {
            1
        } else {
            self.next_seq
        };
        if seq_no < u64::MAX {
            self.next_seq = seq_no + 1;
        }
        let mut data: Vec<u8> = Vec::new();
        data.push((seq_no % 251) as u8);
        proof {
            assert(final(self).model() =~= old(self).model());
        }
        Ok(
            Frame {
                resolution: self.format.resolution,
                format: self.format.format,
                data,
                sequence: seq_no,
            },
        )
    }

    fn supported_camera_controls(&self) -> (r: Result<Vec<ControlId>, CameraError>) {
        let v = vec![ControlId::Brightness, ControlId::Contrast];
        proof {
            assert(v@ =~= self.model().supported);
        }
        Ok(v)
    }

    fn camera_control(&self, control: ControlId) -> (r: Result<CameraControl, CameraError>) {
        match control {
            ControlId::Brightness => Ok(self.brightness.duplicate()),
            ControlId::Contrast => Ok(self.contrast.duplicate()),
            _ => Err(
                CameraError::GetPropertyError {
                    property: String::from_str("Camera Control"),
                    error: String::from_str("unsupported control"),
                },
            ),
        }
    }

    fn set_camera_control(&mut self, id: ControlId, value: ControlValue) -> (r: Result<
        (),
        CameraError,
    >) {
        if self.reject_config {
            return Err(CameraError::SetPropertyError {
                property: String::from_str("Camera Control"),
                value: String::from_str("requested control value"),
                error: String::from_str("configuration rejected"),
            });
        }
        match id {
            ControlId::Brightness => {
                self.brightness = CameraControl { value, ..self.brightness.duplicate() };
                proof {
                    assert(final(self).model().rates =~= old(self).model().rates);
                    assert(final(self).model().controls =~= old(self).model().controls.insert(
                        id,
                        CameraControl { value, ..old(self).model().controls[id] },
                    ));
                    assert(final(self).model() =~= (DeviceModel {
                        controls: old(self).model().controls.insert(
                            id,
                            CameraControl { value, ..old(self).model().controls[id] },
                        ),
                        ..old(self).model()
                    }));
                }
                Ok(())
            },
            ControlId::Contrast => {
                self.contrast = CameraControl { value, ..self.contrast.duplicate() };
                proof {
                    assert(final(self).model().rates =~= old(self).model().rates);
                    assert(final(self).model().controls =~= old(self).model().controls.insert(
                        id,
                        CameraControl { value, ..old(self).model().controls[id] },
                    ));
                    assert(final(self).model() =~= (DeviceModel {
                        controls: old(self).model().controls.insert(
                            id,
                            CameraControl { value, ..old(self).model().controls[id] },
                        ),
                        ..old(self).model()
                    }));
                }
                Ok(())
            },
            _ => Err(
                CameraError::SetPropertyError {
                    property: String::from_str("Camera Control"),
                    value: String::from_str("requested control value"),
                    error: String::from_str("unsupported control"),
                },
            ),
        }
    }

    fn compatible_fourcc(&mut self) -> (r: Result<Vec<FrameFormat>, CameraError>) {
        let v = vec![FrameFormat::Yuyv, FrameFormat::Mjpeg, FrameFormat::Gray];
        proof {
            assert(final(self).model().rates =~= old(self).model().rates);
            assert(final(self).model() =~= old(self).model());
            assert(v@ =~= mock_formats());
        }
        Ok(v)
    }

    fn compatible_list_by_resolution(&mut self, fourcc: FrameFormat) -> (r: Result<
        Vec<(Resolution, Vec<u32>)>,
        CameraError,
    >) {
        let v: Vec<(Resolution, Vec<u32>)> = vec![
            (Resolution { width: 640, height: 480 }, vec![30u32]),
            (Resolution { width: 320, height: 240 }, vec![30u32, 60u32]),
        ];
        proof {
            assert(final(self).model().rates =~= old(self).model().rates);
            assert(final(self).model() =~= old(self).model());
            let mapped = v@.map_values(|p: (Resolution, Vec<u32>)| (p.0, p.1@));
            assert(mapped[0].1 =~= mock_rate_table()[0].1);
            assert(mapped[1].1 =~= mock_rate_table()[1].1);
            assert(mapped =~= mock_rate_table());
        }
        Ok(v)
    }
}

} // verus!
