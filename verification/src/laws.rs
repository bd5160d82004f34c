//! Laws of the facade's state machine.
//!
//! These hold for any capture device and any callback behind the facade,
//! because every control-surface call and every worker iteration is pinned to
//! the transitions of `crate::threaded` by its contract.

use vstd::prelude::*;

use crate::frame::{is_sentinel, FrameModel};
use crate::threaded::{
    run_worker, spec_set_callback, spec_stop_stream, spec_worker_reports_stop, spec_worker_step,
    state_wf, CaptureOutcome, StateModel,
};

verus! {

/// One worker iteration keeps the cache sound: afterwards the cache is still
/// either a sentinel or a frame some capture actually produced.
pub proof fn lemma_worker_step_preserves_wf(s: StateModel, o: CaptureOutcome)
    requires
        state_wf(s),
    ensures
        state_wf(spec_worker_step(s, o)),
{
    match o {
        CaptureOutcome::Captured(f) => {
            let t = spec_worker_step(s, o);
            assert(t.captures[t.captures.len() - 1] == f);
            assert(t.captures.contains(f));
        },
        CaptureOutcome::Failed => {},
    }
}

/// Any worker run keeps the cache sound.
pub proof fn lemma_run_worker_preserves_wf(s: StateModel, outs: Seq<CaptureOutcome>)
    requires
        state_wf(s),
    ensures
        state_wf(run_worker(s, outs)),
    decreases outs.len(),
{
    if outs.len() > 0 {
        lemma_run_worker_preserves_wf(s, outs.drop_last());
        lemma_worker_step_preserves_wf(run_worker(s, outs.drop_last()), outs.last());
    }
}

/// The last-frame cache is never a torn value: under the facade's invariant
/// it is either the sentinel installed before any successful capture or a
/// frame equal to one that a capture call actually produced.
pub proof fn lemma_last_frame_provenance(s: StateModel)
    requires
        state_wf(s),
    ensures
        is_sentinel(s.cache) || s.captures.contains(s.cache),
{
}

/// A worker run never touches the callback generation or the termination
/// signal, it only appends to the delivery history, and every delivery it
/// appends is tagged with the generation that was current when the run
/// started.
pub proof fn lemma_run_worker_deliveries(s: StateModel, outs: Seq<CaptureOutcome>)
    ensures
        run_worker(s, outs).cb_gen == s.cb_gen,
        run_worker(s, outs).die == s.die,
        run_worker(s, outs).deliveries.len() >= s.deliveries.len(),
        forall|i: int|
            0 <= i < s.deliveries.len() ==> run_worker(s, outs).deliveries[i] == s.deliveries[i],
        forall|i: int|
            s.deliveries.len() <= i < run_worker(s, outs).deliveries.len() ==> run_worker(
                s,
                outs,
            ).deliveries[i].gen == s.cb_gen,
    decreases outs.len(),
{
    if outs.len() > 0 {
        lemma_run_worker_deliveries(s, outs.drop_last());
    }
}

/// Once the callback is replaced, the old callback is done: every delivery
/// any later worker run appends carries the new, strictly larger generation,
/// so no subsequent iteration invokes the previously installed callback.
pub proof fn lemma_set_callback_excludes_old(
    s: StateModel,
    new_sink: Seq<FrameModel>,
    outs: Seq<CaptureOutcome>,
)
    ensures
        forall|i: int|
            s.deliveries.len() <= i < run_worker(
                spec_set_callback(s, new_sink),
                outs,
            ).deliveries.len() ==> run_worker(spec_set_callback(s, new_sink), outs).deliveries[
                i
            ].gen > s.cb_gen,
{
    lemma_run_worker_deliveries(spec_set_callback(s, new_sink), outs);
}

/// Stopping the stream halts the worker after at most one more iteration:
/// the termination signal is set whether or not the device closed, every
/// later worker step leaves it set, and each of those steps reports that the
/// loop should exit.  A loop that stops when an iteration says so therefore
/// performs at most one more capture-and-callback cycle.
pub proof fn lemma_stop_stream_halts_worker(s: StateModel, closed: bool, o: CaptureOutcome)
    ensures
        spec_stop_stream(s, closed).die,
        spec_worker_reports_stop(spec_stop_stream(s, closed)),
        spec_worker_step(spec_stop_stream(s, closed), o).die,
        spec_worker_reports_stop(spec_worker_step(spec_stop_stream(s, closed), o)),
{
}

/// The frames the captures among `outs` produced, in order.
pub open spec fn captured_frames(outs: Seq<CaptureOutcome>) -> Seq<FrameModel>
    decreases outs.len(),
{
    if outs.len() == 0 {
        Seq::empty()
    } else {
        captured_frames(outs.drop_last()) + (match outs.last() {
            CaptureOutcome::Captured(f) => seq![f],
            CaptureOutcome::Failed => Seq::empty(),
        })
    }
}

/// Over any worker run the callback receives exactly the frames the captures
/// produced, in capture order, after everything it had already received; the
/// capture history grows by the same frames.  With `n` successful captures
/// and no prior deliveries, the callback's tally is therefore exactly `n`.
pub proof fn lemma_run_worker_delivers_captures(s: StateModel, outs: Seq<CaptureOutcome>)
    ensures
        run_worker(s, outs).sink == s.sink + captured_frames(outs),
        run_worker(s, outs).captures == s.captures + captured_frames(outs),
    decreases outs.len(),
{
    if outs.len() == 0 {
        assert(s.sink + captured_frames(outs) =~= s.sink);
        assert(s.captures + captured_frames(outs) =~= s.captures);
    } else {
        lemma_run_worker_delivers_captures(s, outs.drop_last());
        let mid = run_worker(s, outs.drop_last());
        match outs.last() {
            CaptureOutcome::Captured(f) => {
                assert(mid.sink.push(f) =~= s.sink + captured_frames(outs));
                assert(mid.captures.push(f) =~= s.captures + captured_frames(outs));
            },
            CaptureOutcome::Failed => {
                assert(mid.sink =~= s.sink + captured_frames(outs));
                assert(mid.captures =~= s.captures + captured_frames(outs));
            },
        }
    }
}

/// A failed capture is transient: it changes nothing, so a following
/// iteration succeeds exactly as it would have without the failure, and its
/// frame reaches the cache, the histories and the callback.
pub proof fn lemma_capture_failure_is_transient(s: StateModel, f: FrameModel)
    ensures
        spec_worker_step(s, CaptureOutcome::Failed) == s,
        spec_worker_step(
            spec_worker_step(s, CaptureOutcome::Failed),
            CaptureOutcome::Captured(f),
        ) == spec_worker_step(s, CaptureOutcome::Captured(f)),
        spec_worker_step(s, CaptureOutcome::Captured(f)).cache == f,
        spec_worker_step(s, CaptureOutcome::Captured(f)).sink == s.sink.push(f),
{
}

} // verus!
