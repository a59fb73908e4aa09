//! Parsing and planning for downloading HLS, MPEG-DASH and Smooth Streaming
//! media: manifest parsers, stream selection, decryption and the decisions
//! of downloading, recording and muxing.

pub mod commandline;
pub mod crypto;
pub mod downloader;
pub mod entity;
pub mod i18n;
pub mod logging;
pub mod muxer;
pub mod parser;
pub mod session;
pub mod text;
pub mod utils;
