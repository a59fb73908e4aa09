//! Segments and their encryption.
use vstd::prelude::*;
use crate::entity::{clone_opt_bytes, clone_opt_string, opt_bytes, opt_view, string_from};

verus! {

/// Encryption method of a segment.
#[allow(non_camel_case_types)]
#[derive(Debug, Clone, Copy, PartialEq, Eq, Structural)]
pub enum EncryptMethod {
    NONE,
    AES_128,
    AES_128_ECB,
    CENC,
    CHACHA20,
    SAMPLE_AES,
    SAMPLE_AES_CTR,
    UNKNOWN,
}

/// Encryption of a segment.
#[derive(Debug)]
pub struct EncryptInfo {
    pub method: EncryptMethod,
    pub key_uri: Option<String>,
    pub key: Option<Vec<u8>>,
    pub iv: Option<Vec<u8>>,
    pub kid: Option<String>,
}

pub struct EncryptInfoView {
    pub method: EncryptMethod,
    pub key_uri: Option<Seq<char>>,
    pub key: Option<Seq<u8>>,
    pub iv: Option<Seq<u8>>,
    pub kid: Option<Seq<char>>,
}

impl View for EncryptInfo {
    type V = EncryptInfoView;

    open spec fn view(&self) -> EncryptInfoView {
        EncryptInfoView {
            method: self.method,
            key_uri: opt_view(self.key_uri),
            key: opt_bytes(self.key),
            iv: opt_bytes(self.iv),
            kid: opt_view(self.kid),
        }
    }
}

impl Clone for EncryptInfo {
    fn clone(&self) -> (r: Self)
        ensures
            r@ == self@,
    {
        EncryptInfo {
            method: self.method,
            key_uri: clone_opt_string(&self.key_uri),
            key: clone_opt_bytes(&self.key),
            iv: clone_opt_bytes(&self.iv),
            kid: clone_opt_string(&self.kid),
        }
    }
}

pub open spec fn default_encrypt_info() -> EncryptInfoView {
    EncryptInfoView { method: EncryptMethod::NONE, key_uri: None, key: None, iv: None, kid: None }
}

impl Default for EncryptInfo {
    fn default() -> (r: Self)
        ensures
            r@ == default_encrypt_info(),
    {
        EncryptInfo { method: EncryptMethod::NONE, key_uri: None, key: None, iv: None, kid: None }
    }
}


pub open spec fn opt_encrypt_view(o: Option<EncryptInfo>) -> Option<EncryptInfoView> {
    match o {
        Some(e) => Some(e@),
        None => None,
    }
}

/// One media segment.
#[derive(Debug)]
pub struct MediaSegment {
    pub uri: String,
    /// Duration in seconds, as decimal text.
    pub duration: String,
    pub sequence: Option<u64>,
    pub encrypt_info: Option<EncryptInfo>,
    pub range: Option<String>,
    pub title: Option<String>,
}

pub struct MediaSegmentView {
    pub uri: Seq<char>,
    pub duration: Seq<char>,
    pub sequence: Option<u64>,
    pub encrypt_info: Option<EncryptInfoView>,
    pub range: Option<Seq<char>>,
    pub title: Option<Seq<char>>,
}

impl View for MediaSegment {
    type V = MediaSegmentView;

    open spec fn view(&self) -> MediaSegmentView {
        MediaSegmentView {
            uri: self.uri@,
            duration: self.duration@,
            sequence: self.sequence,
            encrypt_info: opt_encrypt_view(self.encrypt_info),
            range: opt_view(self.range),
            title: opt_view(self.title),
        }
    }
}

impl Clone for MediaSegment {
    fn clone(&self) -> (r: Self)
        ensures
            r@ == self@,
    {
        MediaSegment {
            uri: self.uri.clone(),
            duration: self.duration.clone(),
            sequence: self.sequence,
            encrypt_info: match &self.encrypt_info {
                Some(e) => Some(e.clone()),
                None => None,
            },
            range: clone_opt_string(&self.range),
            title: clone_opt_string(&self.title),
        }
    }
}

/// The decimal text `0`, the duration of a segment that states none.
pub open spec fn zero_text() -> Seq<char> {
    seq!['0']
}

pub open spec fn default_segment() -> MediaSegmentView {
    MediaSegmentView {
        uri: Seq::empty(),
        duration: zero_text(),
        sequence: None,
        encrypt_info: None,
        range: None,
        title: None,
    }
}

impl Default for MediaSegment {
    fn default() -> (r: Self)
        ensures
            r@ == default_segment(),
    {
        let zero = ['0'];
        assert(zero@ == zero_text());
        MediaSegment {
            uri: String::new(),
            duration: string_from(zero.as_slice()),
            sequence: None,
            encrypt_info: None,
            range: None,
            title: None,
        }
    }
}

pub open spec fn segments_view(v: Seq<MediaSegment>) -> Seq<MediaSegmentView> {
    v.map_values(|x: MediaSegment| x@)
}

pub fn clone_segments(v: &Vec<MediaSegment>) -> (r: Vec<MediaSegment>)
    ensures
        segments_view(r@) == segments_view(v@),
{
    let mut r: Vec<MediaSegment> = Vec::new();
    let mut i: usize = 0;
    while i < v.len()
        invariant
            i <= v@.len(),
            segments_view(r@) == segments_view(v@.take(i as int)),
        decreases v@.len() - i,
    {
        let c = v[i].clone();
        let ghost before = r@;
        r.push(c);
        assert(segments_view(r@) =~= segments_view(before).push(c@));
        assert(segments_view(v@.take(i + 1)) =~= segments_view(v@.take(i as int)).push(v@[i as int]@));
        i = i + 1;
    }
    assert(v@.take(v@.len() as int) =~= v@);
    r
}

} // verus!
