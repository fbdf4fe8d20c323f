use crate::codec::CodecId;
use crate::time::TimeBase;
use bytes::Bytes;
use vstd::prelude::*;

verus! {

#[derive(Debug, Clone, Copy, PartialEq, Eq, Hash, Structural)]
pub enum StreamKind {
    Audio,
    Data,
    Subtitle,
    Video,
}

/// One elementary stream of a container. `id` is the container's own and may
/// be sparse; `index` is the stream's position in the container's list and
/// addresses its packets and its decoder.
#[derive(Debug, Clone)]
pub struct Stream {
    pub id: u32,
    pub index: usize,
    pub time_base: TimeBase,
    pub kind: StreamKind,
    pub codec: CodecId,
    pub extradata: Option<Bytes>,
}

/// A file embedded in a container, such as a font or cover art.
pub struct Attachment {
    pub id: u32,
    pub name: Option<String>,
    pub mime_type: Option<String>,
    pub data: Bytes,
}

/// What a demuxer knows of its container once opened.
pub struct ContainerInfo {
    pub streams: Vec<Stream>,
    pub attachments: Vec<Attachment>,
}

} // verus!
