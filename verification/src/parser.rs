//! Manifest parsers: HLS, MPEG-DASH and Smooth Streaming.

pub mod dash;
pub mod extractor;
pub mod hls;
pub mod mss;
pub mod resolve;
