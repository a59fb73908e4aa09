//! The media model: streams, playlists, parts, segments and their keys.
//!
//! A float of the media model (a duration, a frame rate) is held as its
//! decimal text, a text that `str::parse::<f64>` accepts.
use vstd::prelude::*;

pub mod playlist;
pub mod segment;
pub mod stream;

pub use self::playlist::{
    clone_parts, default_part, default_playlist, opt_playlist_view, parts_view, MediaPart,
    MediaPartView, Playlist, PlaylistView,
};
pub use self::segment::{
    clone_segments, default_encrypt_info, default_segment, opt_encrypt_view, segments_view,
    zero_text, EncryptInfo, EncryptInfoView, EncryptMethod, MediaSegment, MediaSegmentView,
};
pub use self::stream::{
    default_stream, media_type_name, streams_view, MediaType, StreamSpec, StreamSpecView,
};

verus! {

/// The view of an optional string.
pub open spec fn opt_view(o: Option<String>) -> Option<Seq<char>> {
    match o {
        Some(s) => Some(s@),
        None => None,
    }
}

/// The view of optional bytes.
pub open spec fn opt_bytes(o: Option<Vec<u8>>) -> Option<Seq<u8>> {
    match o {
        Some(v) => Some(v@),
        None => None,
    }
}

pub fn clone_opt_string(o: &Option<String>) -> (r: Option<String>)
    ensures
        opt_view(r) == opt_view(*o),
{
    match o {
        Some(s) => Some(s.clone()),
        None => None,
    }
}

pub fn clone_bytes(v: &Vec<u8>) -> (r: Vec<u8>)
    ensures
        r@ == v@,
{
    let mut r: Vec<u8> = Vec::new();
    let mut i: usize = 0;
    while i < v.len()
        invariant
            i <= v@.len(),
            r@ == v@.take(i as int),
        decreases v@.len() - i,
    {
        r.push(v[i]);
        i = i + 1;
        assert(r@ =~= v@.take(i as int));
    }
    assert(v@.take(v@.len() as int) =~= v@);
    r
}

pub fn clone_opt_bytes(o: &Option<Vec<u8>>) -> (r: Option<Vec<u8>>)
    ensures
        opt_bytes(r) == opt_bytes(*o),
{
    match o {
        Some(v) => Some(clone_bytes(v)),
        None => None,
    }
}

/// A `String` holding exactly the given characters.
pub(crate) fn string_from(cs: &[char]) -> (r: String)
    ensures
        r@ == cs@,
{
    crate::text::string_of(cs)
}

} // verus!
