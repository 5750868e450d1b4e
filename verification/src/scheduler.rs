//! Capture scheduling over a visual source.
//!
//! The host delivers playback events ("play", "ended") and one callback per
//! display refresh.  The scheduler is the explicit state machine behind
//! them: each tick it decides, from the source's reported status, whether to
//! capture a snapshot, skip this refresh, or stop for good, and it keeps the
//! captured snapshots in strict temporal order until the drain that follows
//! the end of playback.

use vstd::prelude::*;

use crate::pixels::Dimensions;
use crate::pixels::PixelData;

verus! {

/// Playback state of the visual source as the scheduler tracks it.
#[derive(Clone, Copy, PartialEq, Eq, Structural, Debug)]
pub enum PlayState {
    /// No "play" event has arrived yet.
    Idle,
    /// Playback is running; ticks may capture.
    Playing,
    /// Playback is suspended; ticks reschedule without capturing.
    Paused,
    /// Playback has ended; terminal, no further ticks are scheduled.
    Ended,
}

/// What the caller must do with the current refresh tick.
#[derive(Clone, Copy, PartialEq, Eq, Structural, Debug)]
pub enum TickAction {
    /// Draw the source, snapshot it, hand the snapshot to `capture`, then
    /// reschedule for the next refresh.
    Capture,
    /// Do nothing this refresh, but reschedule for the next one.
    Skip,
    /// Terminal: do not reschedule.
    Stop,
}

/// The source's playback status, read at one refresh tick.
#[derive(Clone, Copy, PartialEq, Eq, Structural, Debug)]
pub struct SourceStatus {
    /// Playback is suspended.
    pub paused: bool,
    /// Playback has ended.
    pub ended: bool,
    /// Enough data is buffered for the current playback position.
    pub ready: bool,
}

/// Drives repeated draw-snapshot-enqueue cycles in step with the host's
/// display refresh, gated by the source's playback state.  Snapshots are
/// appended in capture order and drained front to back exactly once.
pub struct CaptureScheduler {
    state: PlayState,
    queue: Vec<PixelData>,
    dim: Dimensions,
}

impl CaptureScheduler {
    pub closed spec fn spec_state(self) -> PlayState {
        self.state
    }

    /// The snapshots captured so far, in capture order.
    pub closed spec fn captured(self) -> Seq<PixelData> {
        self.queue@
    }

    pub closed spec fn spec_dim(self) -> Dimensions {
        self.dim
    }

    /// Every queued snapshot is well formed and was captured at the
    /// scheduler's own geometry.
    pub open spec fn wf(self) -> bool {
        &&& self.spec_dim().wf()
        &&& forall|i: int|
            0 <= i < self.captured().len() ==> (#[trigger] self.captured()[i]).wf()
                && self.captured()[i].spec_dim() == self.spec_dim()
    }

    /// Well-formedness depends only on the queue contents and the geometry,
    /// so it survives any transition that keeps both.
    proof fn lemma_wf_same_queue(self, other: CaptureScheduler)
        requires
            self.wf(),
            other.captured() == self.captured(),
            other.spec_dim() == self.spec_dim(),
        ensures
            other.wf(),
    {
        assert forall|i: int|
            0 <= i < other.captured().len() implies (#[trigger] other.captured()[i]).wf()
            && other.captured()[i].spec_dim() == other.spec_dim() by {
            assert(other.captured()[i] == self.captured()[i]);
            assert(self.captured()[i].wf() && self.captured()[i].spec_dim() == self.spec_dim());
        }
    }

    /// Appending one well-formed snapshot of the right geometry keeps the
    /// queue well formed.
    proof fn lemma_wf_push(self, other: CaptureScheduler, buf: PixelData)
        requires
            self.wf(),
            buf.wf(),
            buf.spec_dim() == self.spec_dim(),
            other.captured() == self.captured().push(buf),
            other.spec_dim() == self.spec_dim(),
        ensures
            other.wf(),
    {
        assert forall|i: int|
            0 <= i < other.captured().len() implies (#[trigger] other.captured()[i]).wf()
            && other.captured()[i].spec_dim() == other.spec_dim() by {
            if i < self.captured().len() {
                assert(other.captured()[i] == self.captured()[i]);
                assert(self.captured()[i].wf() && self.captured()[i].spec_dim()
                    == self.spec_dim());
            } else {
                assert(other.captured()[i] == buf);
            }
        }
    }

    /// A scheduler for a source of the given geometry, idle until the host
    /// delivers a "play" event.
    pub fn new(dim: Dimensions) -> (r: CaptureScheduler)
        requires
            dim.wf(),
        ensures
            r.wf(),
            r.spec_state() is Idle,
            r.captured() == Seq::<PixelData>::empty(),
            r.spec_dim() == dim,
    {
        CaptureScheduler { state: PlayState::Idle, queue: Vec::new(), dim }
    }

    /// The geometry every captured snapshot must have.
    pub fn dim(&self) -> (r: Dimensions)
        ensures
            r == self.spec_dim(),
    {
        self.dim
    }

    /// The host delivered a "play" event: begin (or resume) the refresh
    /// loop.  Ended is terminal, so a late "play" changes nothing.
    pub fn on_play(&mut self)
        requires
            old(self).wf(),
        ensures
            final (self).wf(),
            old(self).spec_state() is Ended ==> *final (self) == *old(self),
            !(old(self).spec_state() is Ended) ==> final (self).spec_state() is Playing,
            final (self).captured() == old(self).captured(),
            final (self).spec_dim() == old(self).spec_dim(),
    {
        if !matches!(self.state, PlayState::Ended) {
            self.state = PlayState::Playing;
        }
        proof {
            old(self).lemma_wf_same_queue(*self);
        }
    }

    /// One refresh tick: decide from the source's status whether to capture,
    /// skip, or stop.  Capturing is owed exactly when playback is live (not
    /// ended, not paused, scheduler past Idle) and the source reports enough
    /// buffered data; the loop stops exactly when playback has ended.
    pub fn tick(&mut self, status: SourceStatus) -> (r: TickAction)
        requires
            old(self).wf(),
        ensures
            final (self).wf(),
            final (self).captured() == old(self).captured(),
            final (self).spec_dim() == old(self).spec_dim(),
            r is Stop <==> status.ended || old(self).spec_state() is Ended,
            r is Stop <==> final (self).spec_state() is Ended,
            r is Capture <==> (!status.ended && !(old(self).spec_state() is Ended)
                && !(old(self).spec_state() is Idle) && !status.paused && status.ready),
            r is Capture ==> final (self).spec_state() is Playing,
    {
        if status.ended || matches!(self.state, PlayState::Ended) {
            self.state = PlayState::Ended;
            proof {
                old(self).lemma_wf_same_queue(*self);
            }
            return TickAction::Stop;
        }
        if matches!(self.state, PlayState::Idle) {
            proof {
                old(self).lemma_wf_same_queue(*self);
            }
            return TickAction::Skip;
        }
        if status.paused {
            self.state = PlayState::Paused;
            proof {
                old(self).lemma_wf_same_queue(*self);
            }
            return TickAction::Skip;
        }
        self.state = PlayState::Playing;
        proof {
            old(self).lemma_wf_same_queue(*self);
        }
        if status.ready {
            TickAction::Capture
        } else {
            TickAction::Skip
        }
    }

    /// Append one captured snapshot.  Snapshots arrive here in the order the
    /// ticks produced them, and the queue keeps exactly that order.
    pub fn capture(&mut self, buf: PixelData)
        requires
            old(self).wf(),
            old(self).spec_state() is Playing,
            buf.wf(),
            buf.spec_dim() == old(self).spec_dim(),
        ensures
            final (self).wf(),
            final (self).captured() == old(self).captured().push(buf),
            final (self).spec_state() == old(self).spec_state(),
            final (self).spec_dim() == old(self).spec_dim(),
    {
        self.queue.push(buf);
        proof {
            old(self).lemma_wf_push(*self, buf);
        }
    }

    /// The host delivered an "ended" event: stop the loop and hand back the
    /// whole queue, strictly in capture order.  The scheduler keeps nothing.
    pub fn finish(&mut self) -> (r: Vec<PixelData>)
        requires
            old(self).wf(),
        ensures
            final (self).wf(),
            r@ == old(self).captured(),
            final (self).spec_state() is Ended,
            final (self).captured() == Seq::<PixelData>::empty(),
            final (self).spec_dim() == old(self).spec_dim(),
    {
        self.state = PlayState::Ended;
        let mut drained: Vec<PixelData> = Vec::new();
        std::mem::swap(&mut drained, &mut self.queue);
        drained
    }
}

/// The readiness threshold on the host's reported ready state: values at or
/// above two ("have current data") mean enough is buffered for the current
/// playback position, and a tick may capture.
pub fn has_enough_data(ready_state: u16) -> (r: bool)
    ensures
        r == (ready_state >= 2),
{
    ready_state >= 2
}

/// The queue contents after a scripted run of captures, starting from the
/// given contents: each capture appends one snapshot at the back.
pub open spec fn enqueue_all(q: Seq<PixelData>, bufs: Seq<PixelData>) -> Seq<PixelData>
    decreases bufs.len(),
{
    if bufs.len() == 0 {
        q
    } else {
        enqueue_all(q.push(bufs[0]), bufs.skip(1))
    }
}

/// Capture ordering: a scripted sequence of ticks, each capturing one
/// distinct snapshot into an initially empty queue, leaves the queue holding
/// exactly those snapshots in capture order; draining after "ended" then
/// yields them unchanged, since `finish` returns the queue as it stands.
pub proof fn lemma_capture_order(bufs: Seq<PixelData>)
    ensures
        enqueue_all(Seq::<PixelData>::empty(), bufs) == bufs,
{
    lemma_enqueue_all_general(Seq::<PixelData>::empty(), bufs);
    assert(enqueue_all(Seq::<PixelData>::empty(), bufs) =~= bufs);
}

/// Each capture appends at the back, so a run of captures appends the whole
/// scripted sequence in order.
proof fn lemma_enqueue_all_general(q: Seq<PixelData>, bufs: Seq<PixelData>)
    ensures
        enqueue_all(q, bufs) == q + bufs,
    decreases bufs.len(),
{
    if bufs.len() == 0 {
        assert(enqueue_all(q, bufs) =~= q + bufs);
    } else {
        lemma_enqueue_all_general(q.push(bufs[0]), bufs.skip(1));
        assert(q.push(bufs[0]) + bufs.skip(1) =~= q + bufs);
    }
}

} // verus!
