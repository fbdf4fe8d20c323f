use crate::time::Timestamp;
use bytes::Bytes;
use vstd::prelude::*;

verus! {

/// Relies on `bytes::Bytes`: a shared, immutable byte buffer, carried
/// through the pipeline as an opaque payload.
#[verifier::external_type_specification]
#[verifier::external_body]
pub struct ExBytes(Bytes);

/// Relies on `Bytes::clone`: another handle to the same buffer. Nothing is
/// claimed of the payload, which this library never reads.
pub assume_specification[ <Bytes as Clone>::clone ](b: &Bytes) -> Bytes;

/// One compressed unit of one stream. Its timestamps are in that stream's
/// time base.
#[derive(Debug, Clone)]
pub struct Packet {
    pub stream_idx: usize,
    pub pts: Option<Timestamp>,
    pub dts: Option<Timestamp>,
    pub duration: Option<Timestamp>,
    pub keyframe: bool,
    pub discard: bool,
    pub data: Bytes,
}

} // verus!
