use threadcam::controls::{CameraControl, ControlId, ControlValue};
use threadcam::device::Backend;
use threadcam::error::CameraError;
use threadcam::frame::{CameraFormat, FrameFormat, Resolution};
use threadcam::mock::MockCamera;
use threadcam::sink::RecordingSink;
use threadcam::threaded::CallbackCamera;

fn vga_mjpeg() -> CameraFormat {
    CameraFormat::new(Resolution::new(640, 480), FrameFormat::Mjpeg, 30)
}

fn new_camera() -> CallbackCamera<MockCamera, RecordingSink> {
    CallbackCamera::new(MockCamera::new(2, vga_mjpeg()), RecordingSink::new())
}

#[test]
fn passthrough_getters_report_device_state() {
    let cam = new_camera();
    assert_eq!(cam.index(), 2);
    assert_eq!(cam.backend(), Backend::Auto);
    assert_eq!(cam.info().name, "Mock Camera");
    assert_eq!(cam.info().index, 2);
    assert_eq!(cam.camera_format().unwrap(), vga_mjpeg());
    assert_eq!(cam.resolution().unwrap(), Resolution::new(640, 480));
    assert_eq!(cam.frame_rate().unwrap(), 30);
    assert_eq!(cam.frame_format().unwrap(), FrameFormat::Mjpeg);
    assert!(!cam.is_stream_open());
}

#[test]
fn set_backend_reinitializes_device() {
    let mut cam = new_camera();
    cam.open_stream().unwrap();
    cam.set_backend(Backend::Video4Linux).unwrap();
    assert_eq!(cam.backend(), Backend::Video4Linux);
    assert!(!cam.is_stream_open());
}

#[test]
fn set_frame_format_changes_only_pixel_layout() {
    let mut cam = new_camera();
    cam.set_frame_format(FrameFormat::Gray).unwrap();
    assert_eq!(cam.frame_format().unwrap(), FrameFormat::Gray);
    assert_eq!(cam.resolution().unwrap(), Resolution::new(640, 480));
    assert_eq!(cam.frame_rate().unwrap(), 30);
}

#[test]
fn supported_controls_and_lookup() {
    let cam = new_camera();
    let ids = cam.supported_camera_controls().unwrap();
    assert_eq!(ids, vec![ControlId::Brightness, ControlId::Contrast]);
    let b = cam.camera_control(ControlId::Brightness).unwrap();
    assert_eq!(b.id, ControlId::Brightness);
    assert_eq!(b.value, ControlValue::Integer(0));
    assert_eq!(b.minimum, -64);
    assert_eq!(b.maximum, 64);
    let c = cam.camera_control(ControlId::Contrast).unwrap();
    assert_eq!(c.value, ControlValue::Integer(50));
}

#[test]
fn camera_control_unsupported_is_get_property_error() {
    let cam = new_camera();
    match cam.camera_control(ControlId::Zoom) {
        Err(CameraError::GetPropertyError { .. }) => {}
        other => panic!("expected a property read error, got {:?}", other),
    }
}

#[test]
fn camera_controls_lists_every_answered_control() {
    let cam = new_camera();
    let controls: Vec<CameraControl> = cam.camera_controls().unwrap();
    assert_eq!(controls.len(), 2);
    assert_eq!(controls[0].id, ControlId::Brightness);
    assert_eq!(controls[1].id, ControlId::Contrast);
}

#[test]
fn camera_controls_string_pairs_names_with_controls() {
    let cam = new_camera();
    let named = cam.camera_controls_string().unwrap();
    assert_eq!(named.len(), 2);
    assert_eq!(named[0].0, "Brightness");
    assert_eq!(named[0].1.id, ControlId::Brightness);
    assert_eq!(named[1].0, "Contrast");
    assert_eq!(named[1].1.id, ControlId::Contrast);
}

#[test]
fn camera_controls_keyed_pairs_ids_with_controls() {
    let cam = new_camera();
    let keyed = cam.camera_controls_known_camera_controls().unwrap();
    assert_eq!(keyed.len(), 2);
    assert_eq!(keyed[0].0, ControlId::Brightness);
    assert_eq!(keyed[1].0, ControlId::Contrast);
    assert_eq!(keyed[1].1.value, ControlValue::Integer(50));
}

#[test]
fn set_camera_control_updates_value() {
    let mut cam = new_camera();
    cam.set_camera_control(ControlId::Brightness, ControlValue::Integer(10)).unwrap();
    let b = cam.camera_control(ControlId::Brightness).unwrap();
    assert_eq!(b.value, ControlValue::Integer(10));
    // range metadata is untouched
    assert_eq!(b.minimum, -64);
    assert_eq!(b.maximum, 64);
    // the other control is untouched
    let c = cam.camera_control(ControlId::Contrast).unwrap();
    assert_eq!(c.value, ControlValue::Integer(50));
}

#[test]
fn set_camera_control_unsupported_is_set_property_error() {
    let mut cam = new_camera();
    match cam.set_camera_control(ControlId::Focus, ControlValue::Integer(1)) {
        Err(CameraError::SetPropertyError { .. }) => {}
        other => panic!("expected a property write error, got {:?}", other),
    }
}

#[test]
fn compatible_queries_report_device_tables() {
    let mut cam = new_camera();
    let formats = cam.compatible_fourcc().unwrap();
    assert_eq!(formats, vec![FrameFormat::Yuyv, FrameFormat::Mjpeg, FrameFormat::Gray]);
    let table = cam.compatible_list_by_resolution(FrameFormat::Yuyv).unwrap();
    assert_eq!(table.len(), 2);
    assert_eq!(table[0].0, Resolution::new(640, 480));
    assert_eq!(table[0].1, vec![30]);
    assert_eq!(table[1].0, Resolution::new(320, 240));
    assert_eq!(table[1].1, vec![30, 60]);
}

#[test]
fn poll_frame_on_closed_stream_is_read_frame_error() {
    let mut cam = new_camera();
    match cam.poll_frame() {
        Err(CameraError::ReadFrameError(_)) => {}
        other => panic!("expected a read error, got {:?}", other),
    }
    // the failed poll leaves the cache alone
    assert_eq!(cam.last_frame().sequence, 0);
}

#[test]
fn open_stream_rejection_is_open_stream_error() {
    let mut dev = MockCamera::new(2, vga_mjpeg());
    dev.inject_config_rejection(true);
    let mut cam = CallbackCamera::new(dev, RecordingSink::new());
    match cam.open_stream() {
        Err(CameraError::OpenStreamError(_)) => {}
        other => panic!("expected an open-stream error, got {:?}", other),
    }
    assert!(!cam.is_stream_open());
}

#[test]
fn rejected_resolution_change_still_resets_cache() {
    let mut cam = new_camera();
    cam.open_stream().unwrap();
    assert!(cam.worker_iteration().delivered);
    let mut dev = MockCamera::new(2, vga_mjpeg());
    dev.inject_config_rejection(true);
    let mut cam2 = CallbackCamera::new(dev, RecordingSink::new());
    match cam2.set_resolution(Resolution::new(320, 240)) {
        Err(CameraError::SetPropertyError { .. }) => {}
        other => panic!("expected a property write error, got {:?}", other),
    }
    // the cache never reports a frame shaped for a format that is no longer
    // being requested: it was reset before the device answered
    let f = cam2.last_frame();
    assert_eq!(f.resolution, Resolution::new(320, 240));
    assert_eq!(f.sequence, 0);
    // the device itself kept its old format
    assert_eq!(cam2.resolution().unwrap(), Resolution::new(640, 480));
}

#[test]
fn device_init_error_carries_cause() {
    // construction failure of a real device is surfaced as this variant
    let e = CameraError::DeviceInitError(String::from("permission denied"));
    match &e {
        CameraError::DeviceInitError(cause) => assert_eq!(cause, "permission denied"),
        other => panic!("unexpected variant {:?}", other),
    }
    assert_eq!(e.clone(), e);
}

#[test]
fn backend_specific_controls_have_discriminated_names() {
    assert_eq!(ControlId::Brightness.name(), "Brightness");
    assert_eq!(ControlId::Other(0).name(), "Other(0)");
    assert_eq!(ControlId::Other(7).name(), "Other(7)");
    assert_eq!(ControlId::Other(1234).name(), "Other(1234)");
    assert_eq!(
        ControlId::Other(u64::MAX).name(),
        format!("Other({})", u64::MAX)
    );
    // two distinct backend-specific controls never share a display name
    assert_ne!(ControlId::Other(1).name(), ControlId::Other(2).name());
}
