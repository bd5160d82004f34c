//! The callback-camera facade and its background-worker step.
//!
//! The facade owns the serialized device, the last-frame cache, the callback
//! slot and the one-way termination signal.  Control-surface calls and worker
//! iterations are each one atomic step on this state; an embedding that runs
//! the worker on its own thread serializes the steps with a mutual-exclusion
//! primitive, which is exactly the interleaving this model describes.

use vstd::pervasive::VecAdditionalExecFns;
use vstd::prelude::*;

use crate::controls::{control_name_spec, CameraControl, ControlId, ControlValue};
use crate::device::{Backend, CaptureDevice, DeviceInfo, DeviceModel};
use crate::error::CameraError;
use crate::frame::{
    is_sentinel, sentinel_model, CameraFormat, Frame, FrameFormat, FrameModel, Resolution,
};
use crate::sink::FrameSink;

verus! {

/// Record of one frame handed to the installed callback, tagged with the
/// generation of the callback that received it.
pub struct Delivery {
    pub gen: nat,
    pub frame: FrameModel,
}

/// Abstract state of the facade: the device's observable state, the callback
/// generation, the last-frame cache, the termination signal, and the history
/// of successful captures and of callback deliveries.
#[verifier::ext_equal]
pub struct StateModel {
    /// Observable state of the shared device.
    pub device: DeviceModel,
    /// Generation of the installed callback; bumped by every replacement.
    pub cb_gen: nat,
    /// Value of the last-frame cache.
    pub cache: FrameModel,
    /// The one-way termination signal.
    pub die: bool,
    /// Every frame a capture call has successfully produced, in order.
    pub captures: Seq<FrameModel>,
    /// Every frame handed to a callback, tagged with its generation.
    pub deliveries: Seq<Delivery>,
    /// Frames received so far by the currently installed callback.
    pub sink: Seq<FrameModel>,
}

/// What one capture attempt came to.
pub enum CaptureOutcome {
    Captured(FrameModel),
    Failed,
}

/// A frame is shaped by a capture configuration and is no sentinel.
pub open spec fn frame_fits(f: FrameModel, fmt: CameraFormat) -> bool {
    &&& f.resolution == fmt.resolution
    &&& f.format == fmt.format
    &&& f.sequence != 0
}

/// The facade's state right after construction: sentinel cache, unset
/// signal, generation 0, empty histories.
pub open spec fn initial_state(device: DeviceModel, sink: Seq<FrameModel>) -> StateModel {
    StateModel {
        device,
        cb_gen: 0,
        cache: sentinel_model(Resolution { width: 0, height: 0 }, FrameFormat::Gray),
        die: false,
        captures: Seq::empty(),
        deliveries: Seq::empty(),
        sink,
    }
}

/// One worker iteration: on a successful capture the cache takes the frame,
/// the capture and delivery histories grow, and the installed callback
/// receives the frame; a failed capture changes nothing.  The signal, the
/// generation and the device state are untouched either way.
pub open spec fn spec_worker_step(s: StateModel, o: CaptureOutcome) -> StateModel {
    match o {
        CaptureOutcome::Captured(f) => StateModel {
            cache: f,
            captures: s.captures.push(f),
            deliveries: s.deliveries.push(Delivery { gen: s.cb_gen, frame: f }),
            sink: s.sink.push(f),
            ..s
        },
        CaptureOutcome::Failed => s,
    }
}

/// Whether a worker iteration from `s` reports that the loop should exit:
/// the signal is observed once per iteration, after the capture attempt.
pub open spec fn spec_worker_reports_stop(s: StateModel) -> bool {
    s.die
}

/// Replacing the callback bumps the generation and swaps the sink history;
/// nothing else moves, and no delivery is recorded.
pub open spec fn spec_set_callback(s: StateModel, new_sink: Seq<FrameModel>) -> StateModel {
    StateModel { cb_gen: s.cb_gen + 1, sink: new_sink, ..s }
}

/// Stopping the stream sets the termination signal whether or not the device
/// managed to close; `closed` tells which.
pub open spec fn spec_stop_stream(s: StateModel, closed: bool) -> StateModel {
    StateModel {
        die: true,
        device: if closed {
            DeviceModel { stream_open: false, ..s.device }
        } else {
            s.device
        },
        ..s
    }
}

/// The worker run from `s` through the capture outcomes `outs`, in order.
pub open spec fn run_worker(s: StateModel, outs: Seq<CaptureOutcome>) -> StateModel
    decreases outs.len(),
{
    if outs.len() == 0 {
        s
    } else {
        spec_worker_step(run_worker(s, outs.drop_last()), outs.last())
    }
}

/// The cache never holds a torn value: it is either a sentinel or a frame
/// some capture call actually produced.
pub open spec fn state_wf(s: StateModel) -> bool {
    is_sentinel(s.cache) || s.captures.contains(s.cache)
}

/// The controls the device answers for among `ids`, in order.
pub open spec fn controls_of(d: DeviceModel, ids: Seq<ControlId>) -> Seq<CameraControl>
    decreases ids.len(),
{
    if ids.len() == 0 {
        Seq::empty()
    } else {
        let rest = controls_of(d, ids.drop_last());
        if d.controls.contains_key(ids.last()) {
            rest.push(d.controls[ids.last()])
        } else {
            rest
        }
    }
}

/// `s` with the entry keyed `k` replaced by `(k, c)`, or `(k, c)` appended
/// when no entry carries `k`: the insertion a name-keyed map performs, with
/// first-appearance order kept.
pub open spec fn upsert_named(
    s: Seq<(Seq<char>, CameraControl)>,
    k: Seq<char>,
    c: CameraControl,
) -> Seq<(Seq<char>, CameraControl)>
    decreases s.len(),
{
    if s.len() == 0 {
        seq![(k, c)]
    } else if s[0].0 == k {
        seq![(k, c)] + s.drop_first()
    } else {
        seq![s[0]] + upsert_named(s.drop_first(), k, c)
    }
}

/// Whether `s` carries an entry keyed `k`.
pub open spec fn has_name(s: Seq<(Seq<char>, CameraControl)>, k: Seq<char>) -> bool {
    exists|i: int| 0 <= i < s.len() && s[i].0 == k
}

/// No two entries of `s` share a key.
pub open spec fn distinct_names(s: Seq<(Seq<char>, CameraControl)>) -> bool {
    forall|i: int, j: int| 0 <= i < j < s.len() ==> s[i].0 != s[j].0
}

/// The name-keyed control table over `ids`: controls the device answers for,
/// keyed by display name, a later control with the same name replacing the
/// earlier entry, as a map insert would.
pub open spec fn string_keyed_controls(d: DeviceModel, ids: Seq<ControlId>) -> Seq<
    (Seq<char>, CameraControl),
>
    decreases ids.len(),
{
    if ids.len() == 0 {
        Seq::empty()
    } else {
        let rest = string_keyed_controls(d, ids.drop_last());
        if d.controls.contains_key(ids.last()) {
            upsert_named(rest, control_name_spec(ids.last()), d.controls[ids.last()])
        } else {
            rest
        }
    }
}

/// Upserting keeps keys unique and adds exactly the upserted key.
pub proof fn lemma_upsert_named_distinct(
    s: Seq<(Seq<char>, CameraControl)>,
    k: Seq<char>,
    c: CameraControl,
)
    requires
        distinct_names(s),
    ensures
        distinct_names(upsert_named(s, k, c)),
        forall|m: Seq<char>| has_name(upsert_named(s, k, c), m) <==> (has_name(s, m) || m == k),
    decreases s.len(),
{
    let r = upsert_named(s, k, c);
    let tail = s.drop_first();
    if s.len() > 0 {
        assert(forall|i: int| 0 <= i < tail.len() ==> tail[i] == s[i + 1]);
    }
    if s.len() == 0 {
        assert(r[0].0 == k);
        assert(has_name(r, k));
        assert forall|m: Seq<char>| has_name(r, m) implies m == k by {
            let i = choose|i: int| 0 <= i < r.len() && r[i].0 == m;
            assert(i == 0);
        }
    } else if s[0].0 == k {
        assert(r =~= seq![(k, c)] + tail);
        assert(r[0].0 == k);
        assert(has_name(r, k));
        assert forall|m: Seq<char>| has_name(r, m) implies (has_name(s, m) || m == k) by {
            let i = choose|i: int| 0 <= i < r.len() && r[i].0 == m;
            if i > 0 {
                assert(s[i].0 == m);
            }
        }
        assert forall|m: Seq<char>| has_name(s, m) implies has_name(r, m) by {
            let i = choose|i: int| 0 <= i < s.len() && s[i].0 == m;
            if i == 0 {
                assert(r[0].0 == m);
            } else {
                assert(r[i].0 == m);
            }
        }
    } else {
        assert(distinct_names(tail));
        lemma_upsert_named_distinct(tail, k, c);
        let t = upsert_named(tail, k, c);
        assert(forall|m: Seq<char>|
            has_name(upsert_named(tail, k, c), m) <==> (has_name(tail, m) || m == k));
        assert(r =~= seq![s[0]] + t);
        assert(forall|i: int| 0 <= i < t.len() ==> r[i + 1] == t[i]);
        // the head's key occurs nowhere in the tail, so nowhere past it in r
        assert forall|i: int| 1 <= i < r.len() implies r[i].0 != s[0].0 by {
            assert(r[i] == t[i - 1]);
            if t[i - 1].0 == s[0].0 {
                assert(has_name(upsert_named(tail, k, c), s[0].0));
                assert(has_name(tail, s[0].0) || s[0].0 == k);
                assert(has_name(tail, s[0].0));
                let w = choose|w: int| 0 <= w < tail.len() && tail[w].0 == s[0].0;
                assert(tail[w] == s[w + 1]);
                assert(s[w + 1].0 == s[0].0);
                assert(false);
            }
        }
        assert(distinct_names(r));
        assert forall|m: Seq<char>| has_name(r, m) implies (has_name(s, m) || m == k) by {
            let i = choose|i: int| 0 <= i < r.len() && r[i].0 == m;
            if i == 0 {
                assert(s[0].0 == m);
            } else {
                assert(has_name(upsert_named(tail, k, c), m));
                if has_name(tail, m) {
                    let w = choose|w: int| 0 <= w < tail.len() && tail[w].0 == m;
                    assert(s[w + 1].0 == m);
                }
            }
        }
        assert forall|m: Seq<char>| has_name(s, m) || m == k implies has_name(r, m) by {
            if m == k {
                assert(has_name(upsert_named(tail, k, c), k));
                let w = choose|w: int| 0 <= w < t.len() && t[w].0 == k;
                assert(r[w + 1].0 == k);
            } else {
                let i = choose|i: int| 0 <= i < s.len() && s[i].0 == m;
                if i == 0 {
                    assert(r[0].0 == m);
                } else {
                    assert(tail[i - 1].0 == m);
                    assert(has_name(tail, m));
                    assert(has_name(upsert_named(tail, k, c), m));
                    let w = choose|w: int| 0 <= w < t.len() && t[w].0 == m;
                    assert(r[w + 1].0 == m);
                }
            }
        }
    }
}

/// The name-keyed control table never repeats a key.
pub proof fn lemma_string_keyed_controls_distinct(d: DeviceModel, ids: Seq<ControlId>)
    ensures
        distinct_names(string_keyed_controls(d, ids)),
    decreases ids.len(),
{
    if ids.len() > 0 {
        lemma_string_keyed_controls_distinct(d, ids.drop_last());
        if d.controls.contains_key(ids.last()) {
            lemma_upsert_named_distinct(
                string_keyed_controls(d, ids.drop_last()),
                control_name_spec(ids.last()),
                d.controls[ids.last()],
            );
        }
    }
}

/// Upserting at the first index that carries `k` — or appending when none
/// does — is exactly [`upsert_named`].
pub proof fn lemma_upsert_named_at_index(
    s: Seq<(Seq<char>, CameraControl)>,
    k: Seq<char>,
    c: CameraControl,
    j: int,
)
    requires
        0 <= j <= s.len(),
        forall|t: int| 0 <= t < j ==> s[t].0 != k,
        j < s.len() ==> s[j].0 == k,
    ensures
        upsert_named(s, k, c) == if j < s.len() {
            s.update(j, (k, c))
        } else {
            s.push((k, c))
        },
    decreases s.len(),
{
    if s.len() == 0 {
        assert(upsert_named(s, k, c) =~= s.push((k, c)));
    } else if j == 0 {
        assert(upsert_named(s, k, c) =~= s.update(0, (k, c)));
    } else {
        assert(forall|i: int| 0 <= i < s.drop_first().len() ==> s.drop_first()[i] == s[i + 1]);
        lemma_upsert_named_at_index(s.drop_first(), k, c, j - 1);
        if j < s.len() {
            assert(upsert_named(s, k, c) =~= s.update(j, (k, c)));
        } else {
            assert(upsert_named(s, k, c) =~= s.push((k, c)));
        }
    }
}

/// As [`controls_of`], each control paired with its identifier.
pub open spec fn keyed_controls_of(d: DeviceModel, ids: Seq<ControlId>) -> Seq<
    (ControlId, CameraControl),
>
    decreases ids.len(),
{
    if ids.len() == 0 {
        Seq::empty()
    } else {
        let rest = keyed_controls_of(d, ids.drop_last());
        if d.controls.contains_key(ids.last()) {
            rest.push((ids.last(), d.controls[ids.last()]))
        } else {
            rest
        }
    }
}

/// No identifier repeats in `ids`.
pub open spec fn distinct_ids(ids: Seq<ControlId>) -> bool {
    forall|i: int, j: int| 0 <= i < j < ids.len() ==> ids[i] != ids[j]
}

/// Every key of the identifier-keyed table comes from `ids`, and when `ids`
/// never repeats an identifier the table never repeats a key.
pub proof fn lemma_keyed_controls_distinct(d: DeviceModel, ids: Seq<ControlId>)
    ensures
        forall|t: int|
            0 <= t < keyed_controls_of(d, ids).len() ==> ids.contains(
                #[trigger] keyed_controls_of(d, ids)[t].0,
            ),
        distinct_ids(ids) ==> (forall|i: int, j: int|
            0 <= i < j < keyed_controls_of(d, ids).len() ==> keyed_controls_of(d, ids)[i].0
                != keyed_controls_of(d, ids)[j].0),
    decreases ids.len(),
{
    if ids.len() > 0 {
        let front = ids.drop_last();
        let rest = keyed_controls_of(d, front);
        let whole = keyed_controls_of(d, ids);
        lemma_keyed_controls_distinct(d, front);
        assert forall|x: ControlId| front.contains(x) implies ids.contains(x) by {
            let i = choose|i: int| 0 <= i < front.len() && front[i] == x;
            assert(ids[i] == x);
        }
        assert forall|t: int| 0 <= t < whole.len() implies ids.contains(#[trigger] whole[t].0) by {
            if t < rest.len() {
                assert(whole[t] == rest[t]);
                assert(front.contains(rest[t].0));
            } else {
                assert(whole[t].0 == ids.last());
                assert(ids[ids.len() - 1] == ids.last());
            }
        }
        if distinct_ids(ids) {
            assert(distinct_ids(front));
            assert forall|i: int, j: int| 0 <= i < j < whole.len() implies whole[i].0
                != whole[j].0 by {
                if j < rest.len() {
                    assert(whole[i] == rest[i] && whole[j] == rest[j]);
                } else {
                    assert(whole[j].0 == ids.last());
                    assert(whole[i] == rest[i]);
                    assert(front.contains(rest[i].0));
                    let w = choose|w: int| 0 <= w < front.len() && front[w] == rest[i].0;
                    assert(ids[w] == rest[i].0);
                    assert(ids[w] != ids[ids.len() - 1]);
                }
            }
        }
    }
}

/// What one worker iteration reports back to the loop that runs it: whether a
/// frame was delivered this iteration, and whether the loop should now exit.
#[derive(Clone, Copy, PartialEq, Eq, Structural, Debug)]
pub struct WorkerReport {
    pub delivered: bool,
    pub stop: bool,
}

/// A camera facade that pairs a blocking capture device with a last-frame
/// cache and a replaceable per-frame callback.
///
/// Construction installs the initial callback and a sentinel cache.  The
/// background worker is [`CallbackCamera::worker_iteration`]: an embedding
/// calls it in a loop on a dedicated thread until it reports `stop`, holding
/// whatever lock serializes this facade for the duration of each call.  All
/// other methods are the control surface and may run between any two worker
/// iterations.
pub struct CallbackCamera<D: CaptureDevice, C: FrameSink> {
    camera: D,
    frame_callback: C,
    last_frame_captured: Frame,
    die_bool: bool,
    cb_gen: Ghost<nat>,
    captures: Ghost<Seq<FrameModel>>,
    deliveries: Ghost<Seq<Delivery>>,
}

impl<D: CaptureDevice, C: FrameSink> View for CallbackCamera<D, C> {
    type V = StateModel;

    closed spec fn view(&self) -> StateModel {
        StateModel {
            device: self.camera.model(),
            cb_gen: self.cb_gen@,
            cache: self.last_frame_captured@,
            die: self.die_bool,
            captures: self.captures@,
            deliveries: self.deliveries@,
            sink: self.frame_callback.received(),
        }
    }
}

impl<D: CaptureDevice, C: FrameSink> CallbackCamera<D, C> {
    /// The cache invariant: see [`state_wf`].
    pub open spec fn wf(&self) -> bool {
        state_wf(self@)
    }

    /// Builds the facade around an already-opened device, installing
    /// `callback` and a zero-sized sentinel cache.  The worker loop is the
    /// embedding's to spawn.
    pub fn new(camera: D, callback: C) -> (cam: CallbackCamera<D, C>)
        ensures
            cam@ == initial_state(camera.model(), callback.received()),
            cam.wf(),
    {
        let cam = CallbackCamera {
            camera,
            frame_callback: callback,
            last_frame_captured: Frame::sentinel(
                Resolution { width: 0, height: 0 },
                FrameFormat::Gray,
            ),
            die_bool: false,
            cb_gen: Ghost(0),
            captures: Ghost(Seq::empty()),
            deliveries: Ghost(Seq::empty()),
        };
        proof {
            assert(cam@ =~= initial_state(camera.model(), callback.received()));
        }
        cam
    }

    /// One iteration of the capture worker: attempt one capture; on success
    /// write the frame into the cache and then hand it to the installed
    /// callback; finally observe the termination signal.  A failed capture
    /// skips the iteration without killing the loop.
    pub fn worker_iteration(&mut self) -> (r: WorkerReport)
        ensures
            r.stop == spec_worker_reports_stop(old(self)@),
            final(self)@ == spec_worker_step(
                old(self)@,
                if r.delivered {
                    CaptureOutcome::Captured(final(self)@.cache)
                } else {
                    CaptureOutcome::Failed
                },
            ),
            r.delivered ==> frame_fits(final(self)@.cache, old(self)@.device.format),
            old(self).wf() ==> final(self).wf(),
    {
        let mut delivered = false;
        match self.camera.capture_one_frame() {
            Ok(frame) => {
                self.last_frame_captured = frame.duplicate();
                self.captures = Ghost(self.captures@.push(frame@));
                self.deliveries = Ghost(
                    self.deliveries@.push(Delivery { gen: self.cb_gen@, frame: frame@ }),
                );
                proof {
                    assert(self.captures@[self.captures@.len() - 1] == frame@);
                    assert(self.captures@.contains(frame@));
                }
                self.frame_callback.on_frame(frame);
                delivered = true;
            },
            Err(_) => {},
        }
        let stop = self.die_bool;
        proof {
            if delivered {
                assert(final(self)@ =~= spec_worker_step(
                    old(self)@,
                    CaptureOutcome::Captured(final(self)@.cache),
                ));
            } else {
                assert(final(self)@ =~= spec_worker_step(old(self)@, CaptureOutcome::Failed));
            }
        }
        WorkerReport { delivered, stop }
    }

    /// Performs one capture on the calling thread, updates the cache on
    /// success and returns the frame; the callback is not invoked.
    pub fn poll_frame(&mut self) -> (r: Result<Frame, CameraError>)
        ensures
            match r {
                Ok(f) => frame_fits(f@, old(self)@.device.format) && final(self)@ == (StateModel {
                    cache: f@,
                    captures: old(self)@.captures.push(f@),
                    ..old(self)@
                }),
                Err(e) => final(self)@ == old(self)@ && e matches CameraError::ReadFrameError(_),
            },
            old(self).wf() ==> final(self).wf(),
    {
        match self.camera.capture_one_frame() {
            Ok(frame) => {
                self.last_frame_captured = frame.duplicate();
                self.captures = Ghost(self.captures@.push(frame@));
                proof {
                    assert(self.captures@[self.captures@.len() - 1] == frame@);
                    assert(self.captures@.contains(frame@));
                    assert(final(self)@ =~= (StateModel {
                        cache: frame@,
                        captures: old(self)@.captures.push(frame@),
                        ..old(self)@
                    }));
                }
                Ok(frame)
            },
            Err(e) => {
                proof {
                    assert(final(self)@ =~= old(self)@);
                }
                Err(e)
            },
        }
    }

    /// A clone of the cache: the sentinel before any successful capture,
    /// afterwards the most recently captured frame.
    pub fn last_frame(&self) -> (r: Frame)
        ensures
            r@ == self@.cache,
    {
        self.last_frame_captured.duplicate()
    }

    /// Atomically replaces the callback, returning the one it displaces.
    /// The swap never races an in-flight invocation: it is one atomic step,
    /// and every later delivery goes to the new callback alone.
    pub fn set_callback(&mut self, callback: C) -> (prev: C)
        ensures
            final(self)@ == spec_set_callback(old(self)@, callback.received()),
            prev.received() == old(self)@.sink,
            old(self).wf() ==> final(self).wf(),
    {
        let mut cb = callback;
        core::mem::swap(&mut self.frame_callback, &mut cb);
        self.cb_gen = Ghost(self.cb_gen@ + 1);
        proof {
            assert(final(self)@ =~= spec_set_callback(old(self)@, callback.received()));
        }
        cb
    }

    /// Asks the device to start producing frames; idempotent while open.
    pub fn open_stream(&mut self) -> (r: Result<(), CameraError>)
        ensures
            match r {
                Ok(()) => final(self)@ == (StateModel {
                    device: DeviceModel { stream_open: true, ..old(self)@.device },
                    ..old(self)@
                }),
                Err(e) => final(self)@ == old(self)@ && e matches CameraError::OpenStreamError(_),
            },
            old(self).wf() ==> final(self).wf(),
    {
        let r = self.camera.open_stream();
        proof {
            if r is Ok {
                assert(final(self)@ =~= (StateModel {
                    device: DeviceModel { stream_open: true, ..old(self)@.device },
                    ..old(self)@
                }));
            } else {
                assert(final(self)@ =~= old(self)@);
            }
        }
        r
    }

    /// Closes the device stream and sets the termination signal, so the
    /// worker exits at its next loop boundary even when closing failed.
    pub fn stop_stream(&mut self) -> (r: Result<(), CameraError>)
        ensures
            final(self)@.die,
            match r {
                Ok(()) => final(self)@ == spec_stop_stream(old(self)@, true),
                Err(e) => final(self)@ == spec_stop_stream(old(self)@, false) && e matches
                    CameraError::StreamShutdownError(_),
            },
            old(self).wf() ==> final(self).wf(),
    {
        let r = self.camera.close_stream();
        self.die_bool = true;
        proof {
            if r is Ok {
                assert(final(self)@ =~= spec_stop_stream(old(self)@, true));
            } else {
                assert(final(self)@ =~= spec_stop_stream(old(self)@, false));
            }
        }
        r
    }

    /// Whether the device is currently producing frames.
    pub fn is_stream_open(&self) -> (r: bool)
        ensures
            r == self@.device.stream_open,
    {
        self.camera.is_stream_open()
    }

    /// The device's index.
    pub fn index(&self) -> (r: u32)
        ensures
            r == self@.device.index,
    {
        self.camera.index()
    }

    /// Re-initializes the device under a new index; the cache, the callback
    /// and the histories are untouched.
    pub fn set_index(&mut self, new_idx: u32) -> (r: Result<(), CameraError>)
        ensures
            match r {
                Ok(()) => final(self)@ == (StateModel {
                    device: DeviceModel {
                        index: new_idx,
                        stream_open: false,
                        ..old(self)@.device
                    },
                    ..old(self)@
                }),
                Err(e) => final(self)@ == old(self)@ && (e matches CameraError::SetPropertyError {
                    property,
                    ..
                } && property@ == "Index"@),
            },
            old(self).wf() ==> final(self).wf(),
    {
        let r = self.camera.set_index(new_idx);
        proof {
            assert(final(self)@ =~= if r is Ok {
                StateModel {
                    device: DeviceModel {
                        index: new_idx,
                        stream_open: false,
                        ..old(self)@.device
                    },
                    ..old(self)@
                }
            } else {
                old(self)@
            });
        }
        r
    }

    /// The capture API behind the device.
    pub fn backend(&self) -> (r: Backend)
        ensures
            r == self@.device.backend,
    {
        self.camera.backend()
    }

    /// Re-initializes the device under a new capture API.
    pub fn set_backend(&mut self, new_backend: Backend) -> (r: Result<(), CameraError>)
        ensures
            match r {
                Ok(()) => final(self)@ == (StateModel {
                    device: DeviceModel {
                        backend: new_backend,
                        stream_open: false,
                        ..old(self)@.device
                    },
                    ..old(self)@
                }),
                Err(e) => final(self)@ == old(self)@ && (e matches CameraError::SetPropertyError {
                    property,
                    ..
                } && property@ == "Backend"@),
            },
            old(self).wf() ==> final(self).wf(),
    {
        let r = self.camera.set_backend(new_backend);
        proof {
            assert(final(self)@ =~= if r is Ok {
                StateModel {
                    device: DeviceModel {
                        backend: new_backend,
                        stream_open: false,
                        ..old(self)@.device
                    },
                    ..old(self)@
                }
            } else {
                old(self)@
            });
        }
        r
    }

    /// The device's identity.
    pub fn info(&self) -> (r: DeviceInfo)
        ensures
            r@.index == self@.device.index,
            r@.name == self@.device.name,
    {
        self.camera.info()
    }

    /// The negotiated capture configuration.
    pub fn camera_format(&self) -> (r: Result<CameraFormat, CameraError>)
        ensures
            r == Ok::<CameraFormat, CameraError>(self@.device.format),
    {
        Ok(self.camera.camera_format())
    }

    /// Renegotiates the whole capture configuration.  The cache is reset to
    /// the sentinel shaped by the requested format — the new format is
    /// authoritative — whether or not the device then accepts it.
    pub fn set_camera_format(&mut self, new_fmt: CameraFormat) -> (r: Result<(), CameraError>)
        ensures
            final(self)@.cache == sentinel_model(new_fmt.resolution, new_fmt.format),
            final(self).wf(),
            match r {
                Ok(()) => final(self)@ == (StateModel {
                    device: DeviceModel { format: new_fmt, ..old(self)@.device },
                    cache: sentinel_model(new_fmt.resolution, new_fmt.format),
                    ..old(self)@
                }),
                Err(e) => final(self)@ == (StateModel {
                    cache: sentinel_model(new_fmt.resolution, new_fmt.format),
                    ..old(self)@
                }) && (e matches CameraError::SetPropertyError { property, .. } && property@
                    == "CameraFormat"@),
            },
    {
        self.last_frame_captured = Frame::sentinel(new_fmt.resolution, new_fmt.format);
        let r = self.camera.set_camera_format(new_fmt);
        proof {
            assert(final(self)@ =~= if r is Ok {
                StateModel {
                    device: DeviceModel { format: new_fmt, ..old(self)@.device },
                    cache: sentinel_model(new_fmt.resolution, new_fmt.format),
                    ..old(self)@
                }
            } else {
                StateModel {
                    cache: sentinel_model(new_fmt.resolution, new_fmt.format),
                    ..old(self)@
                }
            });
        }
        r
    }

    /// The current resolution.
    pub fn resolution(&self) -> (r: Result<Resolution, CameraError>)
        ensures
            r == Ok::<Resolution, CameraError>(self@.device.format.resolution),
    {
        Ok(self.camera.camera_format().resolution)
    }

    /// Renegotiates the resolution.  The cache is reset to the sentinel at
    /// the new resolution and the current pixel layout, whether or not the
    /// device then accepts the change.
    pub fn set_resolution(&mut self, new_res: Resolution) -> (r: Result<(), CameraError>)
        ensures
            final(self)@.cache == sentinel_model(new_res, old(self)@.device.format.format),
            final(self).wf(),
            match r {
                Ok(()) => final(self)@ == (StateModel {
                    device: DeviceModel {
                        format: CameraFormat { resolution: new_res, ..old(self)@.device.format },
                        ..old(self)@.device
                    },
                    cache: sentinel_model(new_res, old(self)@.device.format.format),
                    ..old(self)@
                }),
                Err(e) => final(self)@ == (StateModel {
                    cache: sentinel_model(new_res, old(self)@.device.format.format),
                    ..old(self)@
                }) && (e matches CameraError::SetPropertyError { property, .. } && property@
                    == "Resolution"@),
            },
    {
        let fourcc = self.camera.camera_format().format;
        self.last_frame_captured = Frame::sentinel(new_res, fourcc);
        let r = self.camera.set_resolution(new_res);
        proof {
            assert(final(self)@ =~= if r is Ok {
                StateModel {
                    device: DeviceModel {
                        format: CameraFormat { resolution: new_res, ..old(self)@.device.format },
                        ..old(self)@.device
                    },
                    cache: sentinel_model(new_res, old(self)@.device.format.format),
                    ..old(self)@
                }
            } else {
                StateModel {
                    cache: sentinel_model(new_res, old(self)@.device.format.format),
                    ..old(self)@
                }
            });
        }
        r
    }

    /// The current frame rate.
    pub fn frame_rate(&self) -> (r: Result<u32, CameraError>)
        ensures
            r == Ok::<u32, CameraError>(self@.device.format.frame_rate),
    {
        Ok(self.camera.camera_format().frame_rate)
    }

    /// Renegotiates the frame rate; the cache keeps its value, since frames
    /// of the old rate are still shaped correctly.
    pub fn set_frame_rate(&mut self, new_fps: u32) -> (r: Result<(), CameraError>)
        ensures
            match r {
                Ok(()) => final(self)@ == (StateModel {
                    device: DeviceModel {
                        format: CameraFormat { frame_rate: new_fps, ..old(self)@.device.format },
                        ..old(self)@.device
                    },
                    ..old(self)@
                }),
                Err(e) => final(self)@ == old(self)@ && (e matches CameraError::SetPropertyError {
                    property,
                    ..
                } && property@ == "Framerate"@),
            },
            old(self).wf() ==> final(self).wf(),
    {
        let r = self.camera.set_frame_rate(new_fps);
        proof {
            assert(final(self)@ =~= if r is Ok {
                StateModel {
                    device: DeviceModel {
                        format: CameraFormat { frame_rate: new_fps, ..old(self)@.device.format },
                        ..old(self)@.device
                    },
                    ..old(self)@
                }
            } else {
                old(self)@
            });
        }
        r
    }

    /// The current pixel layout.
    pub fn frame_format(&self) -> (r: Result<FrameFormat, CameraError>)
        ensures
            r == Ok::<FrameFormat, CameraError>(self@.device.format.format),
    {
        Ok(self.camera.camera_format().format)
    }

    /// Renegotiates the pixel layout alone.
    pub fn set_frame_format(&mut self, fourcc: FrameFormat) -> (r: Result<(), CameraError>)
        ensures
            match r {
                Ok(()) => final(self)@ == (StateModel {
                    device: DeviceModel {
                        format: CameraFormat { format: fourcc, ..old(self)@.device.format },
                        ..old(self)@.device
                    },
                    ..old(self)@
                }),
                Err(e) => final(self)@ == old(self)@ && (e matches CameraError::SetPropertyError {
                    property,
                    ..
                } && property@ == "Frameformat"@),
            },
            old(self).wf() ==> final(self).wf(),
    {
        let r = self.camera.set_frame_format(fourcc);
        proof {
            assert(final(self)@ =~= if r is Ok {
                StateModel {
                    device: DeviceModel {
                        format: CameraFormat { format: fourcc, ..old(self)@.device.format },
                        ..old(self)@.device
                    },
                    ..old(self)@
                }
            } else {
                old(self)@
            });
        }
        r
    }

    /// The controls the device advertises.
    pub fn supported_camera_controls(&self) -> (r: Result<Vec<ControlId>, CameraError>)
        ensures
            match r {
                Ok(v) => v@ == self@.device.supported,
                Err(e) => e matches CameraError::GetPropertyError { property, .. } && property@
                    == "Supported Camera Controls"@,
            },
    {
        self.camera.supported_camera_controls()
    }

    /// The current state of every advertised control the device answers for.
    pub fn camera_controls(&self) -> (r: Result<Vec<CameraControl>, CameraError>)
        ensures
            match r {
                Ok(v) => v@ == controls_of(self@.device, self@.device.supported),
                Err(e) => e matches CameraError::GetPropertyError { property, .. } && property@
                    == "Supported Camera Controls"@,
            },
    {
        let ids = match self.camera.supported_camera_controls() {
            Ok(v) => v,
            Err(e) => { return Err(e) },
        };
        let mut out: Vec<CameraControl> = Vec::new();
        let mut i: usize = 0;
        while i < ids.len()
            invariant
                i <= ids.len(),
                ids@ == self@.device.supported,
                out@ == controls_of(self@.device, ids@.take(i as int)),
            decreases ids@.len() - i,
        {
            match self.camera.camera_control(ids[i]) {
                Ok(c) => { out.push(c) },
                Err(_) => {},
            }
            proof {
                assert(ids@.take(i + 1).drop_last() =~= ids@.take(i as int));
            }
            i += 1;
        }
        proof {
            assert(ids@.take(ids@.len() as int) =~= ids@);
        }
        Ok(out)
    }

    /// As [`Self::camera_controls`], each control keyed by its display name.
    /// A later control whose name repeats an earlier one replaces that entry,
    /// as a name-keyed map insert would, so the keys of the result are
    /// pairwise distinct.
    pub fn camera_controls_string(&self) -> (r: Result<Vec<(String, CameraControl)>, CameraError>)
        ensures
            match r {
                Ok(v) => v@.map_values(|p: (String, CameraControl)| (p.0@, p.1))
                    == string_keyed_controls(self@.device, self@.device.supported)
                    && distinct_names(v@.map_values(|p: (String, CameraControl)| (p.0@, p.1))),
                Err(e) => e matches CameraError::GetPropertyError { property, .. } && property@
                    == "Supported Camera Controls"@,
            },
    {
        let ids = match self.camera.supported_camera_controls() {
            Ok(v) => v,
            Err(e) => { return Err(e) },
        };
        let mut out: Vec<(String, CameraControl)> = Vec::new();
        let mut i: usize = 0;
        while i < ids.len()
            invariant
                i <= ids.len(),
                ids@ == self@.device.supported,
                out@.map_values(|p: (String, CameraControl)| (p.0@, p.1)) == string_keyed_controls(
                    self@.device,
                    ids@.take(i as int),
                ),
            decreases ids@.len() - i,
        {
            match self.camera.camera_control(ids[i]) {
                Ok(c) => {
                    let ghost before = out@.map_values(|p: (String, CameraControl)| (p.0@, p.1));
                    let name = ids[i].name();
                    let mut j: usize = 0;
                    while j < out.len() && !(out[j].0 == name)
                        invariant
                            j <= out.len(),
                            forall|t: int| 0 <= t < j ==> out@[t].0@ != name@,
                        decreases out@.len() - j,
                    {
                        j += 1;
                    }
                    proof {
                        assert(forall|t: int|
                            0 <= t < before.len() ==> before[t].0 == out@[t].0@);
                        lemma_upsert_named_at_index(before, name@, c, j as int);
                    }
                    if j < out.len() {
                        out.set(j, (name, c));
                    } else {
                        out.push((name, c));
                    }
                    proof {
                        assert(out@.map_values(|p: (String, CameraControl)| (p.0@, p.1))
                            =~= upsert_named(before, control_name_spec(ids@[i as int]), c));
                    }
                },
                Err(_) => {},
            }
            proof {
                assert(ids@.take(i + 1).drop_last() =~= ids@.take(i as int));
            }
            i += 1;
        }
        proof {
            assert(ids@.take(ids@.len() as int) =~= ids@);
            lemma_string_keyed_controls_distinct(self@.device, self@.device.supported);
        }
        Ok(out)
    }

    /// As [`Self::camera_controls`], each control keyed by its identifier.
    /// When the device's advertised list never repeats an identifier — the
    /// well-formed case, and all a keyed map could have represented — the
    /// keys of the result are pairwise distinct.
    pub fn camera_controls_known_camera_controls(&self) -> (r: Result<
        Vec<(ControlId, CameraControl)>,
        CameraError,
    >)
        ensures
            match r {
                Ok(v) => v@ == keyed_controls_of(self@.device, self@.device.supported)
                    && (distinct_ids(self@.device.supported) ==> (forall|i: int, j: int|
                    0 <= i < j < v@.len() ==> v@[i].0 != v@[j].0)),
                Err(e) => e matches CameraError::GetPropertyError { property, .. } && property@
                    == "Supported Camera Controls"@,
            },
    {
        proof {
            lemma_keyed_controls_distinct(self@.device, self@.device.supported);
        }
        let ids = match self.camera.supported_camera_controls() {
            Ok(v) => v,
            Err(e) => { return Err(e) },
        };
        let mut out: Vec<(ControlId, CameraControl)> = Vec::new();
        let mut i: usize = 0;
        while i < ids.len()
            invariant
                i <= ids.len(),
                ids@ == self@.device.supported,
                out@ == keyed_controls_of(self@.device, ids@.take(i as int)),
            decreases ids@.len() - i,
        {
            match self.camera.camera_control(ids[i]) {
                Ok(c) => { out.push((ids[i], c)) },
                Err(_) => {},
            }
            proof {
                assert(ids@.take(i + 1).drop_last() =~= ids@.take(i as int));
            }
            i += 1;
        }
        proof {
            assert(ids@.take(ids@.len() as int) =~= ids@);
        }
        Ok(out)
    }

    /// One control's current state, if the device has it.
    pub fn camera_control(&self, control: ControlId) -> (r: Result<CameraControl, CameraError>)
        ensures
            match r {
                Ok(c) => self@.device.controls.contains_key(control) && c
                    == self@.device.controls[control],
                Err(e) => !self@.device.controls.contains_key(control) && (e matches
                    CameraError::GetPropertyError { property, .. } && property@
                    == "Camera Control"@),
            },
    {
        self.camera.camera_control(control)
    }

    /// Writes one control's value; only the device's control table moves.
    pub fn set_camera_control(&mut self, id: ControlId, value: ControlValue) -> (r: Result<
        (),
        CameraError,
    >)
        ensures
            match r {
                Ok(()) => old(self)@.device.controls.contains_key(id) && final(self)@ == (
                StateModel {
                    device: DeviceModel {
                        controls: old(self)@.device.controls.insert(
                            id,
                            CameraControl { value, ..old(self)@.device.controls[id] },
                        ),
                        ..old(self)@.device
                    },
                    ..old(self)@
                }),
                Err(e) => final(self)@ == old(self)@ && (e matches CameraError::SetPropertyError {
                    property,
                    ..
                } && property@ == "Camera Control"@),
            },
            old(self).wf() ==> final(self).wf(),
    {
        let r = self.camera.set_camera_control(id, value);
        proof {
            if r is Ok {
                assert(final(self)@ =~= (StateModel {
                    device: DeviceModel {
                        controls: old(self)@.device.controls.insert(
                            id,
                            CameraControl { value, ..old(self)@.device.controls[id] },
                        ),
                        ..old(self)@.device
                    },
                    ..old(self)@
                }));
            } else {
                assert(final(self)@ =~= old(self)@);
            }
        }
        r
    }

    /// The frame formats the device can produce.
    pub fn compatible_fourcc(&mut self) -> (r: Result<Vec<FrameFormat>, CameraError>)
        ensures
            final(self)@ == old(self)@,
            match r {
                Ok(v) => v@ == old(self)@.device.formats,
                Err(e) => e matches CameraError::GetPropertyError { property, .. } && property@
                    == "Compatible FourCC"@,
            },
    {
        let r = self.camera.compatible_fourcc();
        proof {
            assert(final(self)@ =~= old(self)@);
        }
        r
    }

    /// The resolutions offered for `fourcc`, each with its frame rates.  The
    /// result mirrors the device's table entry for entry, so when the device
    /// lists each resolution once — all a resolution-keyed map could have
    /// represented — the resolutions of the result are pairwise distinct.
    pub fn compatible_list_by_resolution(&mut self, fourcc: FrameFormat) -> (r: Result<
        Vec<(Resolution, Vec<u32>)>,
        CameraError,
    >)
        ensures
            final(self)@ == old(self)@,
            match r {
                Ok(v) => old(self)@.device.rates.contains_key(fourcc) && v@.map_values(
                    |p: (Resolution, Vec<u32>)| (p.0, p.1@),
                ) == old(self)@.device.rates[fourcc] && (forall|i: int, j: int|
                    0 <= i < j < v@.len() && old(self)@.device.rates[fourcc][i].0
                        != old(self)@.device.rates[fourcc][j].0 ==> v@[i].0 != v@[j].0),
                Err(e) => e matches CameraError::GetPropertyError { property, .. } && property@
                    == "Compatible Resolutions"@,
            },
    {
        let r = self.camera.compatible_list_by_resolution(fourcc);
        proof {
            assert(final(self)@ =~= old(self)@);
        }
        r
    }
}

} // verus!
