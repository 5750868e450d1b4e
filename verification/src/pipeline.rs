//! The drain phase: queue to encoder.
//!
//! After playback ends, the captured snapshots are taken out of the queue
//! strictly in capture order and each is converted, built into an
//! encoder-ready frame, and submitted.  A saturated encoder is an expected
//! flow-control condition, not an error: the batch continues, and the
//! outcome reports how many frames the encoder took and how many it turned
//! away while saturated, so the caller can decide to retry after draining.

use vstd::prelude::*;

use crate::pixels::PixelData;
use crate::scheduler::CaptureScheduler;
use crate::session::EncoderSession;
use crate::session::FlowStatus;

verus! {

/// How a batch submission went: every frame was either accepted by the
/// encoder or turned away while it was saturated.
#[derive(Clone, Copy, PartialEq, Eq, Structural, Debug)]
pub struct DrainOutcome {
    /// Frames the encoder accepted.
    pub accepted: usize,
    /// Frames the encoder turned away while saturated.  These frames are
    /// dropped by this batch pass; a caller that must not lose them has to
    /// drain packets and submit again.
    pub saturated: usize,
}

/// Convert, build and submit every captured snapshot, strictly in capture
/// order, against an unflushed session of the snapshots' geometry.  Every
/// snapshot is either accepted or (while the encoder is saturated) counted
/// as turned away; the session stays unflushed throughout.
pub fn encode_queue(session: &mut EncoderSession, bufs: Vec<PixelData>) -> (r: DrainOutcome)
    requires
        old(session).wf(),
        !old(session).spec_flushed(),
        forall|i: int|
            0 <= i < bufs@.len() ==> (#[trigger] bufs@[i]).wf() && bufs@[i].spec_dim() == old(
                session,
            ).spec_dim(),
    ensures
        final (session).wf(),
        final (session).spec_dim() == old(session).spec_dim(),
        !final (session).spec_flushed(),
        r.accepted + r.saturated == bufs@.len(),
{
    let mut accepted: usize = 0;
    let mut saturated: usize = 0;
    let n = bufs.len();
    let mut i: usize = 0;
    while i < n
        invariant
            i <= n,
            n == bufs@.len(),
            session.wf(),
            !session.spec_flushed(),
            session.spec_dim() == old(session).spec_dim(),
            forall|j: int|
                0 <= j < bufs@.len() ==> (#[trigger] bufs@[j]).wf() && bufs@[j].spec_dim() == old(
                    session,
                ).spec_dim(),
            accepted + saturated == i,
        decreases n - i,
    {
        let frame = bufs[i].create_frame(session);
        let outcome = session.submit(frame);
        match outcome {
            Ok(FlowStatus::Accepted) => {
                accepted = accepted + 1;
            },
            Ok(FlowStatus::Saturated) => {
                saturated = saturated + 1;
            },
            Err(_) => {
                proof {
                    assert(false);
                }
            },
        }
        i = i + 1;
    }
    DrainOutcome { accepted, saturated }
}

/// The "ended" path of the capture loop: stop the scheduler, take the whole
/// queue in capture order, and feed it to the session.  Afterwards the
/// scheduler is ended and empty, and every captured snapshot was either
/// accepted by the encoder or counted as turned away while it was
/// saturated.
pub fn finish_and_encode(sched: &mut CaptureScheduler, session: &mut EncoderSession) -> (r:
    DrainOutcome)
    requires
        old(sched).wf(),
        old(session).wf(),
        !old(session).spec_flushed(),
        old(sched).spec_dim() == old(session).spec_dim(),
    ensures
        final (sched).wf(),
        final (sched).spec_state() is Ended,
        final (sched).captured() == Seq::<PixelData>::empty(),
        final (session).wf(),
        final (session).spec_dim() == old(session).spec_dim(),
        !final (session).spec_flushed(),
        r.accepted + r.saturated == old(sched).captured().len(),
{
    let bufs = sched.finish();
    encode_queue(session, bufs)
}

} // verus!
