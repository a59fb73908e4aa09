//! Streams.
use vstd::prelude::*;
use crate::entity::{clone_opt_string, opt_view};
use crate::entity::playlist::{opt_playlist_view, Playlist, PlaylistView};

verus! {

/// Kind of media a stream carries.
#[allow(non_camel_case_types)]
#[derive(Debug, Clone, Copy, PartialEq, Eq, Structural)]
pub enum MediaType {
    VIDEO,
    AUDIO,
    SUBTITLES,
}

/// The text that the media type displays as.
pub open spec fn media_type_name(t: MediaType) -> Seq<char> {
    match t {
        MediaType::VIDEO => "VIDEO"@,
        MediaType::AUDIO => "AUDIO"@,
        MediaType::SUBTITLES => "SUBTITLES"@,
    }
}

impl MediaType {
    /// The display text of the media type.
    pub fn to_string(&self) -> (r: String)
        ensures
            r@ == media_type_name(*self),
    {
        match self {
            MediaType::VIDEO => String::from_str("VIDEO"),
            MediaType::AUDIO => String::from_str("AUDIO"),
            MediaType::SUBTITLES => String::from_str("SUBTITLES"),
        }
    }
}

/// One stream of a manifest.
#[derive(Debug)]
pub struct StreamSpec {
    pub id: String,
    pub media_type: Option<MediaType>,
    pub codecs: String,
    pub language: Option<String>,
    pub name: Option<String>,
    pub resolution: Option<String>,
    pub bandwidth: u32,
    pub channels: Option<String>,
    /// Frames per second, as decimal text.
    pub frame_rate: Option<String>,
    pub video_range: Option<String>,
    pub group_id: Option<String>,
    pub playlist: Option<Box<Playlist>>,
}

pub struct StreamSpecView {
    pub id: Seq<char>,
    pub media_type: Option<MediaType>,
    pub codecs: Seq<char>,
    pub language: Option<Seq<char>>,
    pub name: Option<Seq<char>>,
    pub resolution: Option<Seq<char>>,
    pub bandwidth: u32,
    pub channels: Option<Seq<char>>,
    pub frame_rate: Option<Seq<char>>,
    pub video_range: Option<Seq<char>>,
    pub group_id: Option<Seq<char>>,
    pub playlist: Option<PlaylistView>,
}

impl View for StreamSpec {
    type V = StreamSpecView;

    open spec fn view(&self) -> StreamSpecView {
        StreamSpecView {
            id: self.id@,
            media_type: self.media_type,
            codecs: self.codecs@,
            language: opt_view(self.language),
            name: opt_view(self.name),
            resolution: opt_view(self.resolution),
            bandwidth: self.bandwidth,
            channels: opt_view(self.channels),
            frame_rate: opt_view(self.frame_rate),
            video_range: opt_view(self.video_range),
            group_id: opt_view(self.group_id),
            playlist: opt_playlist_view(self.playlist),
        }
    }
}

impl Clone for StreamSpec {
    fn clone(&self) -> (r: Self)
        ensures
            r@ == self@,
    {
        StreamSpec {
            id: self.id.clone(),
            media_type: self.media_type,
            codecs: self.codecs.clone(),
            language: clone_opt_string(&self.language),
            name: clone_opt_string(&self.name),
            resolution: clone_opt_string(&self.resolution),
            bandwidth: self.bandwidth,
            channels: clone_opt_string(&self.channels),
            frame_rate: clone_opt_string(&self.frame_rate),
            video_range: clone_opt_string(&self.video_range),
            group_id: clone_opt_string(&self.group_id),
            playlist: match &self.playlist {
                Some(p) => Some(Box::new((**p).clone())),
                None => None,
            },
        }
    }
}

pub open spec fn default_stream() -> StreamSpecView {
    StreamSpecView {
        id: Seq::empty(),
        media_type: None,
        codecs: Seq::empty(),
        language: None,
        name: None,
        resolution: None,
        bandwidth: 0,
        channels: None,
        frame_rate: None,
        video_range: None,
        group_id: None,
        playlist: None,
    }
}

impl Default for StreamSpec {
    fn default() -> (r: Self)
        ensures
            r@ == default_stream(),
    {
        StreamSpec {
            id: String::new(),
            media_type: None,
            codecs: String::new(),
            language: None,
            name: None,
            resolution: None,
            bandwidth: 0,
            channels: None,
            frame_rate: None,
            video_range: None,
            group_id: None,
            playlist: None,
        }
    }
}

pub open spec fn streams_view(v: Seq<StreamSpec>) -> Seq<StreamSpecView> {
    v.map_values(|x: StreamSpec| x@)
}

} // verus!
