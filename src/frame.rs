use crate::time::Timestamp;
use bytes::Bytes;
use vstd::prelude::*;

verus! {

/// How video samples are laid out.
#[derive(Debug, Clone)]
pub struct VideoPixelFormat {
    pub id: String,
    pub planes: u8,
    pub bits_per_sample: u8,
    pub planar: bool,
    pub chroma_subsampling: Option<(u8, u8)>,
}

/// One decoded picture, one buffer per plane.
#[derive(Debug, Clone)]
pub struct VideoFrame {
    pub width: u32,
    pub height: u32,
    pub format: VideoPixelFormat,
    pub keyframe: bool,
    pub data: Vec<Bytes>,
}

/// How audio samples are laid out.
#[derive(Debug, Clone)]
pub struct AudioSampleFormat {
    pub id: String,
    pub bits_per_sample: u8,
    pub planar: bool,
    pub is_float: bool,
}

/// Decoded audio, one buffer per plane or one interleaved buffer.
#[derive(Debug, Clone)]
pub struct AudioFrame {
    pub sample_rate: u32,
    pub channels: u16,
    pub format: AudioSampleFormat,
    pub samples: Vec<Bytes>,
}

/// The format tag of a subtitle payload.
#[derive(Debug, Clone)]
pub struct SubtitleFormat(pub String);

#[derive(Debug, Clone)]
pub struct SubtitleFrame {
    pub format: SubtitleFormat,
    pub data: Bytes,
}

#[derive(Debug, Clone)]
pub enum FrameData {
    Video(VideoFrame),
    Audio(AudioFrame),
    Subtitle(SubtitleFrame),
}

/// One decoded unit of the stream at `stream_idx`; `pts` is in that stream's
/// time base.
#[derive(Debug, Clone)]
pub struct Frame {
    pub stream_idx: usize,
    pub pts: Option<Timestamp>,
    pub data: FrameData,
}

} // verus!
