//! The per-frame callback slot's occupant: a sink that frames are handed to.

use vstd::prelude::*;

use crate::frame::{Frame, FrameModel};

verus! {

/// A consumer of captured frames: the user-supplied callback the worker
/// invokes once per successful capture.  `received` is the sequence of frames
/// the sink has been handed so far, oldest first; `on_frame` appends exactly
/// the frame it was given.
pub trait FrameSink: Sized {
    /// Every frame this sink has been handed, in delivery order.
    spec fn received(&self) -> Seq<FrameModel>;

    /// Consumes one frame.
    fn on_frame(&mut self, frame: Frame)
        ensures
            final(self).received() == old(self).received().push(frame@),
    ;
}

/// A sink that keeps every frame it is handed, in order.
pub struct RecordingSink {
    frames: Vec<Frame>,
}

impl RecordingSink {
    /// A sink that has received nothing yet.
    pub fn new() -> (s: RecordingSink)
        ensures
            s.received() == Seq::<FrameModel>::empty(),
    {
        let s = RecordingSink { frames: Vec::new() };
        proof {
            assert(s.received() =~= Seq::<FrameModel>::empty());
        }
        s
    }

    /// How many frames have been delivered to this sink.
    pub fn count(&self) -> (r: usize)
        ensures
            r == self.received().len(),
    {
        self.frames.len()
    }

    /// The `i`-th delivered frame, oldest first.
    pub fn frame_at(&self, i: usize) -> (r: &Frame)
        requires
            i < self.received().len(),
        ensures
            r@ == self.received()[i as int],
    {
        &self.frames[i]
    }
}

impl FrameSink for RecordingSink {
    closed spec fn received(&self) -> Seq<FrameModel> {
        self.frames@.map_values(|f: Frame| f@)
    }

    fn on_frame(&mut self, frame: Frame) {
        self.frames.push(frame);
        proof {
            assert(self.received() =~= old(self).received().push(frame@));
        }
    }
}

} // verus!
