use threadcam::frame::{CameraFormat, FrameFormat, Resolution};
use threadcam::mock::MockCamera;
use threadcam::sink::RecordingSink;
use threadcam::threaded::CallbackCamera;

fn vga_yuyv() -> CameraFormat {
    CameraFormat::new(Resolution::new(640, 480), FrameFormat::Yuyv, 30)
}

fn new_camera() -> CallbackCamera<MockCamera, RecordingSink> {
    CallbackCamera::new(MockCamera::new(0, vga_yuyv()), RecordingSink::new())
}

#[test]
fn initial_cache_is_zero_sized_sentinel() {
    let cam = new_camera();
    let f = cam.last_frame();
    assert_eq!(f.resolution, Resolution::new(0, 0));
    assert_eq!(f.format, FrameFormat::Gray);
    assert_eq!(f.sequence, 0);
    assert!(f.data.is_empty());
}

#[test]
fn worker_delivers_n_frames_to_callback() {
    let mut cam = new_camera();
    cam.open_stream().unwrap();
    let n = 5;
    for _ in 0..n {
        let report = cam.worker_iteration();
        assert!(report.delivered);
        assert!(!report.stop);
    }
    let last = cam.last_frame();
    assert_eq!(last.resolution, Resolution::new(640, 480));
    assert_eq!(last.format, FrameFormat::Yuyv);
    assert_ne!(last.sequence, 0);
    let prev = cam.set_callback(RecordingSink::new());
    assert_eq!(prev.count(), n);
    for i in 0..n {
        let f = prev.frame_at(i);
        assert_eq!(f.resolution, Resolution::new(640, 480));
        assert_ne!(f.sequence, 0);
    }
}

#[test]
fn replaced_callback_receives_nothing_further() {
    let mut cam = new_camera();
    cam.open_stream().unwrap();
    assert!(cam.worker_iteration().delivered);
    assert!(cam.worker_iteration().delivered);
    let first = cam.set_callback(RecordingSink::new());
    assert_eq!(first.count(), 2);
    assert!(cam.worker_iteration().delivered);
    assert!(cam.worker_iteration().delivered);
    assert!(cam.worker_iteration().delivered);
    let second = cam.set_callback(RecordingSink::new());
    // the first callback's tally is frozen at replacement time; the three
    // later deliveries all went to its successor
    assert_eq!(first.count(), 2);
    assert_eq!(second.count(), 3);
}

#[test]
fn worker_survives_capture_failure() {
    let mut cam = CallbackCamera::new(MockCamera::new(0, vga_yuyv()), RecordingSink::new());
    cam.open_stream().unwrap();
    assert!(cam.worker_iteration().delivered);
    let before = cam.last_frame();

    // one injected failure: the iteration is skipped, the cache is untouched
    let mut dev = MockCamera::new(0, vga_yuyv());
    dev.inject_capture_failures(1);
    let mut cam2 = CallbackCamera::new(dev, RecordingSink::new());
    cam2.open_stream().unwrap();
    let r1 = cam2.worker_iteration();
    assert!(!r1.delivered);
    assert!(!r1.stop);
    assert_eq!(cam2.last_frame().sequence, 0);
    // the next iteration succeeds
    let r2 = cam2.worker_iteration();
    assert!(r2.delivered);
    assert_ne!(cam2.last_frame().sequence, 0);

    assert_eq!(before.resolution, Resolution::new(640, 480));
}

#[test]
fn stop_stream_halts_worker_after_at_most_one_iteration() {
    let mut cam = new_camera();
    cam.open_stream().unwrap();
    assert!(cam.worker_iteration().delivered);
    cam.stop_stream().unwrap();
    assert!(!cam.is_stream_open());
    // the signal is observed at the next loop boundary
    let report = cam.worker_iteration();
    assert!(report.stop);
    assert!(cam.worker_iteration().stop);
}

#[test]
fn stop_stream_sets_signal_even_when_shutdown_fails() {
    let mut dev = MockCamera::new(0, vga_yuyv());
    dev.inject_shutdown_failure(true);
    let mut cam = CallbackCamera::new(dev, RecordingSink::new());
    cam.open_stream().unwrap();
    let err = cam.stop_stream();
    assert!(err.is_err());
    // the worker still exits: the termination signal is independent of the
    // device's shutdown outcome
    assert!(cam.worker_iteration().stop);
}

#[test]
fn format_change_resets_cache_to_new_sentinel() {
    let mut cam = new_camera();
    cam.open_stream().unwrap();
    assert!(cam.worker_iteration().delivered);
    assert_eq!(cam.last_frame().resolution, Resolution::new(640, 480));

    let qvga = CameraFormat::new(Resolution::new(320, 240), FrameFormat::Yuyv, 30);
    cam.set_camera_format(qvga).unwrap();
    // before any new capture the cache is the sentinel for the new format,
    // not a stale full-size frame
    let f = cam.last_frame();
    assert_eq!(f.resolution, Resolution::new(320, 240));
    assert_eq!(f.sequence, 0);
    assert!(f.data.is_empty());

    assert!(cam.worker_iteration().delivered);
    let g = cam.last_frame();
    assert_eq!(g.resolution, Resolution::new(320, 240));
    assert_ne!(g.sequence, 0);
}

#[test]
fn resolution_change_resets_cache_to_new_sentinel() {
    let mut cam = new_camera();
    cam.open_stream().unwrap();
    assert!(cam.worker_iteration().delivered);
    cam.set_resolution(Resolution::new(320, 240)).unwrap();
    let f = cam.last_frame();
    assert_eq!(f.resolution, Resolution::new(320, 240));
    assert_eq!(f.format, FrameFormat::Yuyv);
    assert_eq!(f.sequence, 0);
    assert_eq!(cam.resolution().unwrap(), Resolution::new(320, 240));
}

#[test]
fn frame_rate_change_keeps_cache() {
    let mut cam = new_camera();
    cam.open_stream().unwrap();
    assert!(cam.worker_iteration().delivered);
    let before = cam.last_frame();
    cam.set_frame_rate(60).unwrap();
    let after = cam.last_frame();
    assert_eq!(after.sequence, before.sequence);
    assert_eq!(cam.frame_rate().unwrap(), 60);
}

#[test]
fn poll_frame_updates_cache_without_invoking_callback() {
    let mut cam = new_camera();
    cam.open_stream().unwrap();
    let f1 = cam.poll_frame().unwrap();
    let f2 = cam.poll_frame().unwrap();
    assert_ne!(f1.sequence, 0);
    assert_ne!(f2.sequence, 0);
    assert_ne!(f1.sequence, f2.sequence);
    assert_eq!(cam.last_frame().sequence, f2.sequence);
    // no delivery went to the callback: polling is a pull, not a callback path
    let sink = cam.set_callback(RecordingSink::new());
    assert_eq!(sink.count(), 0);
}

#[test]
fn interleaved_pollers_and_worker_share_device_cleanly() {
    // two polling contexts and the worker take turns on the serialized
    // device; every successful access yields a coherent frame and the cache
    // always equals the last success
    let mut cam = new_camera();
    cam.open_stream().unwrap();
    let mut last_seq = 0u64;
    let mut successes = 0u32;
    for round in 0..6 {
        if round % 2 == 0 {
            let f = cam.poll_frame().unwrap();
            assert_eq!(f.resolution, Resolution::new(640, 480));
            assert_ne!(f.sequence, 0);
            last_seq = f.sequence;
            successes += 1;
        } else {
            let report = cam.worker_iteration();
            assert!(report.delivered);
            last_seq = cam.last_frame().sequence;
            successes += 1;
        }
        assert_eq!(cam.last_frame().sequence, last_seq);
    }
    assert_eq!(successes, 6);
}

#[test]
fn worker_reports_failure_while_stream_closed() {
    let mut cam = new_camera();
    // no open_stream: captures fail, the loop survives, nothing is cached
    let report = cam.worker_iteration();
    assert!(!report.delivered);
    assert!(!report.stop);
    assert_eq!(cam.last_frame().sequence, 0);
    cam.open_stream().unwrap();
    assert!(cam.worker_iteration().delivered);
}

#[test]
fn set_index_reinitializes_device_and_keeps_cache() {
    let mut cam = new_camera();
    cam.open_stream().unwrap();
    assert!(cam.worker_iteration().delivered);
    let cached = cam.last_frame();
    cam.set_index(3).unwrap();
    assert_eq!(cam.index(), 3);
    assert!(!cam.is_stream_open());
    assert_eq!(cam.last_frame().sequence, cached.sequence);
}
