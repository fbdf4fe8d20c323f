//! Core data model and control logic of a pull-based media pipeline: time
//! bases and timestamp rescaling, four-character codec identifiers, the
//! packet/frame/stream data model, and the routing and draining decisions
//! that connect one demuxer to per-stream decoders.

pub mod codec;
pub mod container;
pub mod error;
pub mod frame;
pub mod packet;
pub mod pipeline;
pub mod text;
pub mod time;

pub use bytes::Bytes;
pub use codec::{CodecId, CodecIdError};
pub use container::{Attachment, ContainerInfo, Stream, StreamKind};
pub use error::{Error, Result};
pub use frame::Frame;
pub use packet::Packet;
pub use pipeline::{Action, Event, Phase, PipelineState};
pub use time::{TimeBase, Timestamp};
