//! Decoding an H.264 elementary stream off the display thread and pacing its
//! frames: splitting the stream into access units, the decode worker's steps,
//! the queue of decoded frames, the conversion from planar YUV to packed
//! BGRA8, and the playback state of an instance with the steps that a host
//! takes with it at every tick.

pub mod color;
pub mod pipeline;
pub mod playback;
pub mod queue;
pub mod segment;
pub mod worker;

pub use playback::{
    begin_decode, decode_video, push_packet, restart_video, H264Decoder, H264DecoderLoading,
    H264DecoderPause, H264RestartEvent, H264UpdateEvent,
};
pub use segment::{H264Video, H264VideoLoader, H264VideoLoaderError};
