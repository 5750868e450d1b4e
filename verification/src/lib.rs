//! Real-time frame capture, color-space conversion, and encoder-feed
//! pipeline.
//!
//! Raw interleaved snapshots of a visual source are validated into
//! [`pixels::PixelData`], converted to planar 4:4:4 BT.709 frames by
//! [`convert`], kept in capture order by the [`scheduler`], and fed to an
//! encoding session by [`session`] and [`pipeline`] under the encoder's
//! flow-control signals.

pub mod convert;
pub mod pipeline;
pub mod pixels;
pub mod scheduler;
pub mod session;

pub use convert::ConvertError;
pub use convert::PlanarFrame;
pub use pipeline::DrainOutcome;
pub use pixels::Dimensions;
pub use pixels::PixelData;
pub use pixels::PixelDataError;
pub use scheduler::CaptureScheduler;
pub use scheduler::PlayState;
pub use scheduler::SourceStatus;
pub use scheduler::TickAction;
pub use session::ConfigError;
pub use session::EncoderFrame;
pub use session::EncoderSession;
pub use session::EncoderStatusKind;
pub use session::FlowStatus;
pub use session::FrameKind;
pub use session::Packet;
pub use session::SessionError;
