//! Playlists and their parts.
use vstd::prelude::*;
use crate::entity::{clone_opt_string, opt_view};
use crate::entity::segment::{clone_segments, segments_view, MediaSegment, MediaSegmentView};

verus! {

/// A run of segments of a playlist.
#[derive(Debug)]
pub struct MediaPart {
    pub uri: String,
    pub media_segments: Vec<MediaSegment>,
    pub duration: Option<String>,
}

pub struct MediaPartView {
    pub uri: Seq<char>,
    pub media_segments: Seq<MediaSegmentView>,
    pub duration: Option<Seq<char>>,
}

impl View for MediaPart {
    type V = MediaPartView;

    open spec fn view(&self) -> MediaPartView {
        MediaPartView {
            uri: self.uri@,
            media_segments: segments_view(self.media_segments@),
            duration: opt_view(self.duration),
        }
    }
}

impl Clone for MediaPart {
    fn clone(&self) -> (r: Self)
        ensures
            r@ == self@,
    {
        MediaPart {
            uri: self.uri.clone(),
            media_segments: clone_segments(&self.media_segments),
            duration: clone_opt_string(&self.duration),
        }
    }
}

pub open spec fn default_part() -> MediaPartView {
    MediaPartView { uri: Seq::empty(), media_segments: Seq::empty(), duration: None }
}

impl Default for MediaPart {
    fn default() -> (r: Self)
        ensures
            r@ == default_part(),
    {
        let r = MediaPart { uri: String::new(), media_segments: Vec::new(), duration: None };
        assert(r@.media_segments =~= Seq::<MediaSegmentView>::empty());
        r
    }
}

pub open spec fn parts_view(v: Seq<MediaPart>) -> Seq<MediaPartView> {
    v.map_values(|x: MediaPart| x@)
}

pub fn clone_parts(v: &Vec<MediaPart>) -> (r: Vec<MediaPart>)
    ensures
        parts_view(r@) == parts_view(v@),
{
    let mut r: Vec<MediaPart> = Vec::new();
    let mut i: usize = 0;
    while i < v.len()
        invariant
            i <= v@.len(),
            parts_view(r@) == parts_view(v@.take(i as int)),
        decreases v@.len() - i,
    {
        let c = v[i].clone();
        let ghost before = r@;
        r.push(c);
        assert(parts_view(r@) =~= parts_view(before).push(c@));
        assert(parts_view(v@.take(i + 1)) =~= parts_view(v@.take(i as int)).push(v@[i as int]@));
        i = i + 1;
    }
    assert(v@.take(v@.len() as int) =~= v@);
    r
}

/// A playlist: its parts and what it says of itself.
#[derive(Debug)]
pub struct Playlist {
    pub is_live: bool,
    pub media_parts: Vec<MediaPart>,
    pub duration: Option<String>,
    pub target_duration: Option<String>,
    pub init_segment: Option<String>,
    pub is_ended: bool,
}

pub struct PlaylistView {
    pub is_live: bool,
    pub media_parts: Seq<MediaPartView>,
    pub duration: Option<Seq<char>>,
    pub target_duration: Option<Seq<char>>,
    pub init_segment: Option<Seq<char>>,
    pub is_ended: bool,
}

impl View for Playlist {
    type V = PlaylistView;

    open spec fn view(&self) -> PlaylistView {
        PlaylistView {
            is_live: self.is_live,
            media_parts: parts_view(self.media_parts@),
            duration: opt_view(self.duration),
            target_duration: opt_view(self.target_duration),
            init_segment: opt_view(self.init_segment),
            is_ended: self.is_ended,
        }
    }
}

impl Clone for Playlist {
    fn clone(&self) -> (r: Self)
        ensures
            r@ == self@,
    {
        Playlist {
            is_live: self.is_live,
            media_parts: clone_parts(&self.media_parts),
            duration: clone_opt_string(&self.duration),
            target_duration: clone_opt_string(&self.target_duration),
            init_segment: clone_opt_string(&self.init_segment),
            is_ended: self.is_ended,
        }
    }
}

pub open spec fn default_playlist() -> PlaylistView {
    PlaylistView {
        is_live: false,
        media_parts: Seq::empty(),
        duration: None,
        target_duration: None,
        init_segment: None,
        is_ended: false,
    }
}

impl Default for Playlist {
    fn default() -> (r: Self)
        ensures
            r@ == default_playlist(),
    {
        let r = Playlist {
            is_live: false,
            media_parts: Vec::new(),
            duration: None,
            target_duration: None,
            init_segment: None,
            is_ended: false,
        };
        assert(r@.media_parts =~= Seq::<MediaPartView>::empty());
        r
    }
}

pub open spec fn opt_playlist_view(o: Option<Box<Playlist>>) -> Option<PlaylistView> {
    match o {
        Some(p) => Some((*p)@),
        None => None,
    }
}

} // verus!
