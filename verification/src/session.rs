//! The encoding session and its flow-control protocol.
//!
//! An [`EncoderSession`] owns one `rav1e` encoder context configured for a
//! fixed geometry, 4:4:4 chroma sampling and the BT.709 color description.
//! It accepts a strictly ordered sequence of frames, reports the encoder's
//! flow-control signal on each submission, is terminated by an explicit
//! [`flush`](EncoderSession::flush) after which no further frame is
//! accepted, and hands out encoded packets one at a time.

use vstd::prelude::*;

use rav1e::EncoderStatus;
use rav1e::data::FrameType;

use crate::convert::PlanarFrame;
use crate::convert::i444_from_argb;
use crate::pixels::Dimensions;
use crate::pixels::PixelData;
use crate::pixels::argb_of;

verus! {

/// Holds one `rav1e::Context<u8>`.  Verus refuses the context type's own
/// declaration (its generic parameter carries an outside trait bound), so
/// the session logic handles this opaque holder instead; only the trusted
/// wrappers below look inside.
#[verifier::external_body]
pub struct RawContext {
    inner: rav1e::Context<u8>,
}

/// Holds one `rav1e::Frame<u8>`, under the same arrangement as
/// [`RawContext`].
#[verifier::external_body]
pub struct RawFrame {
    inner: rav1e::Frame<u8>,
}

/// The geometry of plane `i` (width, height in samples) of the frames a
/// context allocates: the context's configured dimensions, rounded up to
/// multiples of eight by the frame allocator, with no chroma decimation
/// under 4:4:4 sampling.
pub uninterp spec fn ctx_plane_dims(c: RawContext, i: int) -> (int, int);

/// Whether the context still accepts input frames: it has not been flushed,
/// and is not a still-picture context that already holds its one frame.
pub uninterp spec fn ctx_accepts_frames(c: RawContext) -> bool;

/// The geometry of plane `i` of one allocated frame.
pub uninterp spec fn frame_plane_dims(f: RawFrame, i: int) -> (int, int);

/// The top-left `w` by `h` window of plane `i` of one allocated frame, row
/// by row, tightly packed.
pub uninterp spec fn frame_plane_window(f: RawFrame, i: int, w: int, h: int) -> Seq<u8>;

/// The smallest multiple of eight that is at least `x`: the frame allocator
/// pads each plane's geometry this way.
pub open spec fn align8(x: int) -> int {
    ((x + 7) / 8) * 8
}

pub proof fn lemma_align8_ge(x: int)
    ensures
        align8(x) >= x,
        align8(x) == x + 7 - ((x + 7) % 8),
{
    assert(8 * ((x + 7) / 8) == (x + 7) - ((x + 7) % 8));
}

/// The encoder rejected the session configuration.
#[derive(Clone, Copy, PartialEq, Eq, Structural, Debug)]
pub enum ConfigError {
    /// The configuration is inconsistent, for example degenerate or
    /// oversized dimensions.
    Invalid,
}

/// The encoder's status signals, mirrored one to one from
/// `rav1e::EncoderStatus`.
#[derive(Clone, Copy, PartialEq, Eq, Structural, Debug)]
pub enum EncoderStatusKind {
    /// More input frames are needed before a packet can be produced.
    NeedMoreData,
    /// The frame queue is closed to further input.
    EnoughData,
    /// All requested frames have been produced.
    LimitReached,
    /// A frame was encoded without being emitted yet.
    Encoded,
    /// Generic fatal error.
    Failure,
    /// Two-pass statistics were expected and not provided.
    NotReady,
}

/// A submission failure surfaced by the session.
#[derive(Clone, Copy, PartialEq, Eq, Structural, Debug)]
pub enum SessionError {
    /// The session was flushed; no further frame may be submitted.
    AfterFlush,
    /// The encoder reported an unrecoverable status.
    Encoder(EncoderStatusKind),
}

/// The flow-control outcome of one accepted call to `submit`.
#[derive(Clone, Copy, PartialEq, Eq, Structural, Debug)]
pub enum FlowStatus {
    /// The frame entered the encoder's queue.
    Accepted,
    /// The encoder's input window is full; drain packets before retrying.
    /// An expected, recoverable condition, not an error.
    Saturated,
}

/// The type of the one shown frame of a packet, mirrored one to one from
/// `rav1e::data::FrameType`.
#[derive(Clone, Copy, PartialEq, Eq, Structural, Debug)]
pub enum FrameKind {
    /// Key frame.
    Key,
    /// Inter frame.
    Inter,
    /// Intra-only frame.
    IntraOnly,
    /// Switching frame.
    Switch,
}

/// One encoder output unit: an opaque payload for one shown frame (plus any
/// auxiliary non-displayed frames folded into it), passed through unmodified.
pub struct Packet {
    /// The encoded payload.
    pub data: Vec<u8>,
    /// The input frame number of the shown frame.
    pub input_frameno: u64,
    /// The show metadata of the packet's one shown frame.
    pub kind: FrameKind,
}

/// Relies on rav1e's Config::new_context with a fixed encoder configuration
/// (the given geometry, 4:4:4 chroma sampling, BT.709 primaries, transfer
/// and matrix, the given speed preset, defaults otherwise): validation
/// accepts exactly the widths and heights from 16 through 65535, and a
/// fresh context accepts input frames and allocates planes at the geometry
/// rounded up to multiples of eight.
#[verifier::external_body]
fn make_context(width: u32, height: u32, speed: u8) -> (r: Result<RawContext, ConfigError>)
    ensures
        r is Ok <==> (16 <= width <= 65535 && 16 <= height <= 65535),
        r matches Ok(c) ==> ctx_accepts_frames(c),
        r matches Ok(c) ==> forall|i: int|
            0 <= i < 3 ==> #[trigger] ctx_plane_dims(c, i) == (
                align8(width as int),
                align8(height as int),
            ),
{
    let mut conf = rav1e::EncoderConfig::with_speed_preset(speed);
    conf.width = width as usize;
    conf.height = height as usize;
    conf.chroma_sampling = rav1e::color::ChromaSampling::Cs444;
    conf.color_description = Some(rav1e::color::ColorDescription {
        color_primaries: rav1e::color::ColorPrimaries::BT709,
        transfer_characteristics: rav1e::color::TransferCharacteristics::BT709,
        matrix_coefficients: rav1e::color::MatrixCoefficients::BT709,
    });
    rav1e::Config::new().with_encoder_config(conf).new_context().map(|c| RawContext { inner: c }).map_err(|_| ConfigError::Invalid)
}

/// Relies on rav1e's Context::new_frame: the frame is allocated with
/// exactly the plane layout the context was configured with.
#[verifier::external_body]
fn ctx_new_frame(ctx: &RawContext) -> (r: RawFrame)
    ensures
        forall|i: int|
            0 <= i < 3 ==> #[trigger] frame_plane_dims(r, i) == ctx_plane_dims(*ctx, i),
{
    RawFrame { inner: ctx.inner.new_frame() }
}

/// Relies on v_frame's Plane::copy_from_raw_u8: reading `rows` rows of
/// `stride` bytes from the source, it overwrites exactly the top-left
/// `stride` by `rows` window of the chosen plane, leaves the other planes
/// untouched, and changes no plane's geometry.
#[verifier::external_body]
fn copy_plane(f: &mut RawFrame, idx: usize, src: &Vec<u8>, stride: usize, rows: usize)
    requires
        idx < 3,
        stride >= 1,
        src@.len() == stride * rows,
        stride <= frame_plane_dims(*old(f), idx as int).0,
        rows <= frame_plane_dims(*old(f), idx as int).1,
    ensures
        forall|i: int|
            0 <= i < 3 ==> #[trigger] frame_plane_dims(*final (f), i) == frame_plane_dims(
                *old(f),
                i,
            ),
        frame_plane_window(*final (f), idx as int, stride as int, rows as int) == src@,
        forall|j: int, w: int, h: int|
            0 <= j < 3 && j != idx ==> #[trigger] frame_plane_window(*final (f), j, w, h)
                == frame_plane_window(*old(f), j, w, h),
{
    let _ = rows;
    f.inner.planes[idx].copy_from_raw_u8(src.as_slice(), stride, 1);
}

/// Relies on rav1e's Context::send_frame for a frame with this context's
/// plane layout: the frame is queued and the call succeeds exactly when the
/// context still accepts input; otherwise the frame-queue-closed signal
/// comes back.  The context's configuration is not changed.
#[verifier::external_body]
fn ctx_send_frame(
    ctx: &mut RawContext,
    f: RawFrame,
) -> (r: Result<(), EncoderStatusKind>)
    requires
        forall|i: int|
            0 <= i < 3 ==> #[trigger] frame_plane_dims(f, i) == ctx_plane_dims(*old(ctx), i),
    ensures
        forall|i: int|
            0 <= i < 3 ==> #[trigger] ctx_plane_dims(*final (ctx), i) == ctx_plane_dims(
                *old(ctx),
                i,
            ),
        r is Ok <==> ctx_accepts_frames(*old(ctx)),
        r matches Err(k) ==> k is EnoughData,
{
    match ctx.inner.send_frame(f.inner) {
        Ok(()) => Ok(()),
        Err(EncoderStatus::NeedMoreData) => Err(EncoderStatusKind::NeedMoreData),
        Err(EncoderStatus::EnoughData) => Err(EncoderStatusKind::EnoughData),
        Err(EncoderStatus::LimitReached) => Err(EncoderStatusKind::LimitReached),
        Err(EncoderStatus::Encoded) => Err(EncoderStatusKind::Encoded),
        Err(EncoderStatus::Failure) => Err(EncoderStatusKind::Failure),
        Err(EncoderStatus::NotReady) => Err(EncoderStatusKind::NotReady),
    }
}

/// Relies on rav1e's Context::flush: it marks end of stream, after which
/// the context no longer accepts input frames; the configuration is not
/// changed and buffered frames stay drainable.
#[verifier::external_body]
fn ctx_flush(ctx: &mut RawContext)
    ensures
        forall|i: int|
            0 <= i < 3 ==> #[trigger] ctx_plane_dims(*final (ctx), i) == ctx_plane_dims(
                *old(ctx),
                i,
            ),
        !ctx_accepts_frames(*final (ctx)),
{
    ctx.inner.flush();
}

/// Relies on rav1e's Context::receive_packet: it produces the next packet
/// if one is available and a no-packet status otherwise, without blocking;
/// it changes neither the configuration nor whether input is accepted.
#[verifier::external_body]
fn ctx_receive_packet(ctx: &mut RawContext) -> (r: Result<Packet, EncoderStatusKind>)
    ensures
        forall|i: int|
            0 <= i < 3 ==> #[trigger] ctx_plane_dims(*final (ctx), i) == ctx_plane_dims(
                *old(ctx),
                i,
            ),
        ctx_accepts_frames(*final (ctx)) == ctx_accepts_frames(*old(ctx)),
{
    let kind = |t: FrameType| match t {
        FrameType::KEY => FrameKind::Key,
        FrameType::INTER => FrameKind::Inter,
        FrameType::INTRA_ONLY => FrameKind::IntraOnly,
        FrameType::SWITCH => FrameKind::Switch,
    };
    match ctx.inner.receive_packet() {
        Ok(p) => Ok(Packet { data: p.data, input_frameno: p.input_frameno, kind: kind(p.frame_type) }),
        Err(EncoderStatus::NeedMoreData) => Err(EncoderStatusKind::NeedMoreData),
        Err(EncoderStatus::EnoughData) => Err(EncoderStatusKind::EnoughData),
        Err(EncoderStatus::LimitReached) => Err(EncoderStatusKind::LimitReached),
        Err(EncoderStatus::Encoded) => Err(EncoderStatusKind::Encoded),
        Err(EncoderStatus::Failure) => Err(EncoderStatusKind::Failure),
        Err(EncoderStatus::NotReady) => Err(EncoderStatusKind::NotReady),
    }
}

/// An encoder-ready frame: an allocated encoder frame whose planes hold the
/// converted data, tagged with the geometry it was built for.  Ownership
/// transfers to the session on submission.
pub struct EncoderFrame {
    raw: RawFrame,
    dim: Dimensions,
}

impl EncoderFrame {
    pub closed spec fn spec_dim(self) -> Dimensions {
        self.dim
    }

    /// The full-geometry window of plane `i`, as the encoder will read it.
    pub closed spec fn plane_window(self, i: int) -> Seq<u8> {
        frame_plane_window(
            self.raw,
            i,
            self.dim.width as int,
            self.dim.height as int,
        )
    }

    pub closed spec fn raw_plane_dims_ok(self) -> bool {
        forall|i: int|
            0 <= i < 3 ==> #[trigger] frame_plane_dims(self.raw, i) == (
                align8(self.dim.width as int),
                align8(self.dim.height as int),
            )
    }

    /// Well-formedness: positive geometry, and all three planes allocated
    /// at that geometry, padded to multiples of eight.
    pub open spec fn wf(self) -> bool {
        self.spec_dim().wf() && self.raw_plane_dims_ok()
    }
}

/// Wraps one encoder context.  Created from a validated configuration,
/// accepts a strictly ordered sequence of frame submissions, reports the
/// encoder's flow-control signal on each, and is terminated by an explicit
/// flush after which no further frame may be submitted while packets stay
/// drainable.
pub struct EncoderSession {
    ctx: RawContext,
    dim: Dimensions,
    flushed: bool,
}

/// The dimensions the encoder's construction step accepts.
pub open spec fn valid_session_dims(dim: Dimensions) -> bool {
    16 <= dim.width <= 65535 && 16 <= dim.height <= 65535
}

impl EncoderSession {
    pub closed spec fn spec_dim(self) -> Dimensions {
        self.dim
    }

    /// Whether `flush` was called: afterwards no submission is accepted.
    pub closed spec fn spec_flushed(self) -> bool {
        self.flushed
    }

    /// Whether the underlying encoder still accepts input frames.
    pub closed spec fn encoder_accepts(self) -> bool {
        ctx_accepts_frames(self.ctx)
    }

    pub closed spec fn ctx_dims_ok(self) -> bool {
        forall|i: int|
            0 <= i < 3 ==> #[trigger] ctx_plane_dims(self.ctx, i) == (
                align8(self.dim.width as int),
                align8(self.dim.height as int),
            )
    }

    /// Well-formedness: positive geometry, and a context configured for it.
    pub open spec fn wf(self) -> bool {
        self.spec_dim().wf() && self.ctx_dims_ok()
    }

    /// Create a session for the given geometry and speed preset.  The
    /// encoder validates the configuration at construction and owes success
    /// exactly for widths and heights from 16 through 65535; a fresh
    /// session is unflushed and accepts frames.
    pub fn new(dim: Dimensions, speed: u8) -> (r: Result<EncoderSession, ConfigError>)
        ensures
            r is Ok <==> valid_session_dims(dim),
            r matches Ok(s) ==> s.wf() && s.spec_dim() == dim && !s.spec_flushed()
                && s.encoder_accepts(),
    {
        match make_context(dim.width, dim.height, speed) {
            Ok(ctx) => Ok(EncoderSession { ctx, dim, flushed: false }),
            Err(e) => Err(e),
        }
    }

    /// Allocate a blank frame with this session's geometry and plane
    /// layout.
    pub fn new_frame(&self) -> (r: EncoderFrame)
        requires
            self.wf(),
        ensures
            r.wf(),
            r.spec_dim() == self.spec_dim(),
    {
        EncoderFrame { raw: ctx_new_frame(&self.ctx), dim: self.dim }
    }

    /// Build an encoder-ready frame from a converted planar frame of this
    /// session's exact geometry: each plane is copied in with tightly
    /// packed rows and no further subsampling, so the produced frame's
    /// geometry and plane contents match the planar frame exactly.
    /// A planar frame of any other geometry is a caller error.
    pub fn build_frame(&self, planar: &PlanarFrame) -> (r: EncoderFrame)
        requires
            self.wf(),
            planar.wf(),
            planar.dim == self.spec_dim(),
        ensures
            r.wf(),
            r.spec_dim() == planar.dim,
            r.plane_window(0) == planar.y@,
            r.plane_window(1) == planar.u@,
            r.plane_window(2) == planar.v@,
    {
        proof {
            lemma_align8_ge(self.dim.width as int);
            lemma_align8_ge(self.dim.height as int);
        }
        let width = self.dim.width as usize;
        let height = self.dim.height as usize;
        proof {
            assert(width * height == self.dim.spec_pixels()) by (nonlinear_arith)
                requires
                    width == self.dim.width,
                    height == self.dim.height,
            ;
        }
        let mut raw = ctx_new_frame(&self.ctx);
        copy_plane(&mut raw, 0, &planar.y, width, height);
        copy_plane(&mut raw, 1, &planar.u, width, height);
        copy_plane(&mut raw, 2, &planar.v, width, height);
        EncoderFrame { raw, dim: self.dim }
    }

    /// Submit one frame of this session's geometry.  After a flush the
    /// submission is rejected outright and nothing changes.  Otherwise the
    /// frame goes to the encoder, which accepts it exactly while it still
    /// takes input; a full input window is reported as `Saturated`, an
    /// expected condition the caller answers by draining packets.
    pub fn submit(&mut self, frame: EncoderFrame) -> (r: Result<FlowStatus, SessionError>)
        requires
            old(self).wf(),
            frame.wf(),
            frame.spec_dim() == old(self).spec_dim(),
        ensures
            final (self).wf(),
            final (self).spec_dim() == old(self).spec_dim(),
            final (self).spec_flushed() == old(self).spec_flushed(),
            old(self).spec_flushed() ==> r == Err::<FlowStatus, SessionError>(
                SessionError::AfterFlush,
            ) && *final (self) == *old(self),
            !old(self).spec_flushed() ==> (r == Ok::<FlowStatus, SessionError>(
                FlowStatus::Accepted,
            ) <==> old(self).encoder_accepts()),
            !old(self).spec_flushed() ==> (r == Ok::<FlowStatus, SessionError>(
                FlowStatus::Saturated,
            ) <==> !old(self).encoder_accepts()),
    {
        if self.flushed {
            return Err(SessionError::AfterFlush);
        }
        match ctx_send_frame(&mut self.ctx, frame.raw) {
            Ok(()) => Ok(FlowStatus::Accepted),
            Err(EncoderStatusKind::EnoughData) => Ok(FlowStatus::Saturated),
            Err(kind) => Err(SessionError::Encoder(kind)),
        }
    }

    /// Mark end of stream.  No further frame may be submitted afterwards;
    /// frames already buffered stay drainable through `drain_packet`.
    pub fn flush(&mut self)
        requires
            old(self).wf(),
        ensures
            final (self).wf(),
            final (self).spec_dim() == old(self).spec_dim(),
            final (self).spec_flushed(),
            !final (self).encoder_accepts(),
    {
        ctx_flush(&mut self.ctx);
        self.flushed = true;
    }

    /// Produce the next encoded packet if one is available, `None` if the
    /// encoder has nothing to emit yet (or is done), without blocking.
    /// Callable in every state, before and after a flush.
    pub fn drain_packet(&mut self) -> (r: Result<Option<Packet>, SessionError>)
        requires
            old(self).wf(),
        ensures
            final (self).wf(),
            final (self).spec_dim() == old(self).spec_dim(),
            final (self).spec_flushed() == old(self).spec_flushed(),
            final (self).encoder_accepts() == old(self).encoder_accepts(),
            r matches Err(e) ==> (e matches SessionError::Encoder(k) && (k is Failure
                || k is NotReady)),
    {
        match ctx_receive_packet(&mut self.ctx) {
            Ok(p) => Ok(Some(p)),
            Err(EncoderStatusKind::NeedMoreData) => Ok(None),
            Err(EncoderStatusKind::Encoded) => Ok(None),
            Err(EncoderStatusKind::LimitReached) => Ok(None),
            Err(EncoderStatusKind::EnoughData) => Ok(None),
            Err(EncoderStatusKind::Failure) => Err(
                SessionError::Encoder(EncoderStatusKind::Failure),
            ),
            Err(EncoderStatusKind::NotReady) => Err(
                SessionError::Encoder(EncoderStatusKind::NotReady),
            ),
        }
    }

    /// Whether `flush` was called on this session.
    pub fn is_flushed(&self) -> (r: bool)
        ensures
            r == self.spec_flushed(),
    {
        self.flushed
    }

    /// The geometry this session was configured for.
    pub fn dim(&self) -> (r: Dimensions)
        ensures
            r == self.spec_dim(),
    {
        self.dim
    }
}

impl PixelData {
    /// Convert this snapshot and build an encoder-ready frame from it in
    /// one step, against a session configured for the snapshot's exact
    /// geometry.  The frame's planes hold exactly the converted planar
    /// data.
    pub fn create_frame(&self, session: &EncoderSession) -> (r: EncoderFrame)
        requires
            self.wf(),
            session.wf(),
            self.spec_dim() == session.spec_dim(),
        ensures
            r.wf(),
            r.spec_dim() == self.spec_dim(),
            (r.plane_window(0), r.plane_window(1), r.plane_window(2)) == i444_from_argb(
                argb_of(self.bytes_view()),
                self.spec_dim().width as int,
                self.spec_dim().height as int,
            ),
    {
        let planar = self.to_i444();
        session.build_frame(&planar)
    }
}

} // verus!
