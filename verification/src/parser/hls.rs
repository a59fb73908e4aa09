//! HLS (m3u8) manifests: master playlists and media playlists.
use std::collections::HashMap;
use vstd::prelude::*;
use crate::entity::{
    default_encrypt_info, default_part, default_playlist, default_segment, default_stream,
    opt_bytes, opt_view, EncryptInfo, EncryptInfoView, EncryptMethod, MediaPart, MediaPartView,
    MediaSegment, MediaSegmentView, MediaType, Playlist, PlaylistView, StreamSpec, StreamSpecView,
    streams_view, segments_view, parts_view, clone_opt_string,
};
use crate::parser::extractor::ExtractError;
use crate::parser::resolve::{resolve, resolve_url};
use crate::text::{
    chars_of, contains, contains_str, eq_str, float_literal, is_float_literal, parse_unsigned,
    lemma_prefix_excludes, parse_unsigned_chars, split, split_chars, split_once, split_once_chars, starts_with,
    starts_with_str, string_of, strip, strip_chars, strip_prefix_all, strip_prefix_all_chars,
    trim, trim_chars, views, CharClass,
};

verus! {

// ---------------------------------------------------------------------------
// Hexadecimal key material
// ---------------------------------------------------------------------------

/// The value of hexadecimal digit `c` (either case).
pub open spec fn hex_digit(c: char) -> Option<nat> {
    if '0' <= c && c <= '9' {
        Some((c as u32 - '0' as u32) as nat)
    } else if 'a' <= c && c <= 'f' {
        Some((c as u32 - 'a' as u32 + 10) as nat)
    } else if 'A' <= c && c <= 'F' {
        Some((c as u32 - 'A' as u32 + 10) as nat)
    } else {
        None
    }
}

/// The bytes that the hexadecimal text `s` spells: two digits per byte, the
/// high nibble first; `None` for an odd length or a non-hex character.
pub open spec fn hex_bytes(s: Seq<char>) -> Option<Seq<u8>>
    decreases s.len(),
{
    if s.len() == 0 {
        Some(Seq::empty())
    } else if s.len() == 1 {
        None
    } else {
        match (hex_digit(s[0]), hex_digit(s[1]), hex_bytes(s.skip(2))) {
            (Some(h), Some(l), Some(rest)) => Some(seq![(h * 16 + l) as u8] + rest),
            _ => None,
        }
    }
}

#[verifier::external_type_specification]
#[verifier::external_body]
pub struct ExFromHexError(hex::FromHexError);

/// `hex::decode` on the text `s`: it decodes the text's UTF-8 bytes two at a
/// time (either case) and fails on an odd length or a non-hex byte, which is
/// `hex_bytes` of the text's characters.
#[verifier::external_body]
fn hex_decode(s: &str) -> (r: Result<Vec<u8>, hex::FromHexError>)
    ensures
        r is Ok <==> hex_bytes(s@) is Some,
        r matches Ok(v) ==> hex_bytes(s@) == Some(v@),
{
    hex::decode(s)
}

/// The bytes of hexadecimal text, if it is such text.
pub fn decode_hex(s: &[char]) -> (r: Option<Vec<u8>>)
    ensures
        opt_bytes(r) == hex_bytes(s@),
{
    let text = string_of(s);
    match hex_decode(text.as_str()) {
        Ok(v) => Some(v),
        Err(_) => None,
    }
}

// ---------------------------------------------------------------------------
// The model of a parse
// ---------------------------------------------------------------------------

/// What a parse has gathered after some lines.
pub struct HlsState {
    pub streams: Seq<StreamSpecView>,
    pub stream: StreamSpecView,
    pub playlist: PlaylistView,
    pub part: MediaPartView,
    pub segment: MediaSegmentView,
    pub in_playlist: bool,
}

pub open spec fn initial_state() -> HlsState {
    HlsState {
        streams: Seq::empty(),
        stream: default_stream(),
        playlist: default_playlist(),
        part: default_part(),
        segment: default_segment(),
        in_playlist: false,
    }
}

/// `"` as a class to strip.
pub open spec fn quote() -> CharClass {
    CharClass::Exactly('"')
}

/// One `KEY=VALUE` attribute of an `#EXT-X-STREAM-INF` line applied to `s`.
pub open spec fn apply_stream_attr(s: StreamSpecView, param: Seq<char>) -> StreamSpecView {
    match split_once(trim(param), '=') {
        Some((k, v)) => if k == "BANDWIDTH"@ {
            match parse_unsigned(v, u32::MAX as nat) {
                Some(b) => StreamSpecView { bandwidth: b as u32, ..s },
                None => s,
            }
        } else if k == "CODECS"@ {
            StreamSpecView { codecs: strip(v, quote()), ..s }
        } else if k == "RESOLUTION"@ {
            StreamSpecView { resolution: Some(v), ..s }
        } else if k == "FRAME-RATE"@ {
            if float_literal(v) {
                StreamSpecView { frame_rate: Some(v), ..s }
            } else {
                s
            }
        } else if k == "AUDIO"@ {
            StreamSpecView { media_type: Some(MediaType::AUDIO), ..s }
        } else if k == "SUBTITLES"@ {
            StreamSpecView { media_type: Some(MediaType::SUBTITLES), ..s }
        } else {
            s
        },
        None => s,
    }
}

pub open spec fn apply_stream_attrs(s: StreamSpecView, params: Seq<Seq<char>>) -> StreamSpecView
    decreases params.len(),
{
    if params.len() == 0 {
        s
    } else {
        apply_stream_attr(apply_stream_attrs(s, params.drop_last()), params.last())
    }
}

/// The stream that an `#EXT-X-STREAM-INF` line describes; a stream that
/// names no other media type is video.
pub open spec fn stream_inf(line: Seq<char>) -> StreamSpecView {
    let s = apply_stream_attrs(
        default_stream(),
        split(strip_prefix_all(line, "#EXT-X-STREAM-INF:"@), ','),
    );
    if s.media_type is None {
        StreamSpecView { media_type: Some(MediaType::VIDEO), ..s }
    } else {
        s
    }
}

/// One `KEY=VALUE` attribute of an `#EXT-X-KEY` line applied to `e`.
pub open spec fn apply_key_attr(
    e: EncryptInfoView,
    param: Seq<char>,
    base: Option<Seq<char>>,
) -> EncryptInfoView {
    match split_once(trim(param), '=') {
        Some((k, v)) => if k == "METHOD"@ {
            EncryptInfoView {
                method: if v == "AES-128"@ {
                    EncryptMethod::AES_128
                } else if v == "NONE"@ {
                    EncryptMethod::NONE
                } else {
                    EncryptMethod::UNKNOWN
                },
                ..e
            }
        } else if k == "URI"@ {
            EncryptInfoView { key_uri: Some(resolve(base, strip(v, quote()))), ..e }
        } else if k == "IV"@ {
            match hex_bytes(strip_prefix_all(strip(v, quote()), "0x"@)) {
                Some(iv) => EncryptInfoView { iv: Some(iv), ..e },
                None => e,
            }
        } else {
            e
        },
        None => e,
    }
}

pub open spec fn apply_key_attrs(
    e: EncryptInfoView,
    params: Seq<Seq<char>>,
    base: Option<Seq<char>>,
) -> EncryptInfoView
    decreases params.len(),
{
    if params.len() == 0 {
        e
    } else {
        apply_key_attr(apply_key_attrs(e, params.drop_last(), base), params.last(), base)
    }
}

/// The encryption that an `#EXT-X-KEY` line describes.
pub open spec fn key_info(line: Seq<char>, base: Option<Seq<char>>) -> EncryptInfoView {
    apply_key_attrs(
        default_encrypt_info(),
        split(strip_prefix_all(line, "#EXT-X-KEY:"@), ','),
        base,
    )
}

/// The initialization segment after one attribute of an `#EXT-X-MAP` line.
pub open spec fn apply_map_attr(
    init: Option<Seq<char>>,
    param: Seq<char>,
    base: Option<Seq<char>>,
) -> Option<Seq<char>> {
    match split_once(trim(param), '=') {
        Some((k, v)) => if k == "URI"@ {
            Some(resolve(base, strip(v, quote())))
        } else {
            init
        },
        None => init,
    }
}

pub open spec fn apply_map_attrs(
    init: Option<Seq<char>>,
    params: Seq<Seq<char>>,
    base: Option<Seq<char>>,
) -> Option<Seq<char>>
    decreases params.len(),
{
    if params.len() == 0 {
        init
    } else {
        apply_map_attr(apply_map_attrs(init, params.drop_last(), base), params.last(), base)
    }
}

/// The segment after an `#EXTINF:` line: the duration where the text before
/// the first `,` is a float, the trimmed title after it where not blank.
pub open spec fn apply_extinf(seg: MediaSegmentView, line: Seq<char>) -> MediaSegmentView {
    let pieces = split(line, ':');
    if pieces.len() > 1 {
        match split_once(pieces[1], ',') {
            Some((d, title)) => {
                let s1 = if float_literal(d) {
                    MediaSegmentView { duration: d, ..seg }
                } else {
                    seg
                };
                if trim(title).len() > 0 {
                    MediaSegmentView { title: Some(trim(title)), ..s1 }
                } else {
                    s1
                }
            },
            None => seg,
        }
    } else {
        seg
    }
}

/// The playlist with the pending part added, where the part has segments.
pub open spec fn with_part(p: PlaylistView, part: MediaPartView) -> PlaylistView {
    if part.media_segments.len() > 0 {
        PlaylistView { media_parts: p.media_parts.push(part), ..p }
    } else {
        p
    }
}

/// The parse after one more line (before trimming).
pub open spec fn step(st: HlsState, raw: Seq<char>, base: Option<Seq<char>>) -> HlsState {
    let line = trim(raw);
    if starts_with(line, "#EXTM3U"@) {
        st
    } else if starts_with(line, "#EXT-X-STREAM-INF:"@) {
        HlsState {
            stream: stream_inf(line),
            playlist: default_playlist(),
            part: if st.part.media_segments.len() > 0 {
                default_part()
            } else {
                st.part
            },
            in_playlist: false,
            ..st
        }
    } else if starts_with(line, "#EXT-X-MEDIA:"@) {
        st
    } else if starts_with(line, "#EXT-X-PLAYLIST-TYPE:"@) {
        if contains(line, "VOD"@) {
            HlsState { playlist: PlaylistView { is_live: false, ..st.playlist }, ..st }
        } else if contains(line, "EVENT"@) || contains(line, "LIVE"@) {
            HlsState { playlist: PlaylistView { is_live: true, ..st.playlist }, ..st }
        } else {
            st
        }
    } else if starts_with(line, "#EXT-X-TARGETDURATION:"@) {
        let pieces = split(line, ':');
        if pieces.len() > 1 && float_literal(pieces[1]) {
            HlsState {
                playlist: PlaylistView { target_duration: Some(pieces[1]), ..st.playlist },
                ..st
            }
        } else {
            st
        }
    } else if starts_with(line, "#EXT-X-MAP:"@) {
        match split_once(line, ':') {
            Some((_, info)) => HlsState {
                playlist: PlaylistView {
                    init_segment: apply_map_attrs(st.playlist.init_segment, split(info, ','), base),
                    ..st.playlist
                },
                ..st
            },
            None => st,
        }
    } else if starts_with(line, "#EXTINF:"@) {
        HlsState { segment: apply_extinf(st.segment, line), in_playlist: true, ..st }
    } else if starts_with(line, "#EXT-X-KEY:"@) {
        HlsState {
            segment: MediaSegmentView { encrypt_info: Some(key_info(line, base)), ..st.segment },
            ..st
        }
    } else if starts_with(line, "#EXT-X-ENDLIST"@) {
        HlsState { playlist: PlaylistView { is_ended: true, ..st.playlist }, ..st }
    } else if !starts_with(line, "#"@) && line.len() > 0 {
        if st.in_playlist {
            let seg = MediaSegmentView { uri: resolve(base, line), ..st.segment };
            HlsState {
                part: MediaPartView { media_segments: st.part.media_segments.push(seg), ..st.part },
                segment: default_segment(),
                ..st
            }
        } else {
            let stream = StreamSpecView {
                id: resolve(base, line),
                playlist: Some(with_part(st.playlist, st.part)),
                ..st.stream
            };
            HlsState {
                streams: st.streams.push(stream),
                stream: stream,
                playlist: default_playlist(),
                part: default_part(),
                ..st
            }
        }
    } else {
        st
    }
}

/// The parse after the given lines.
pub open spec fn run(lines: Seq<Seq<char>>, base: Option<Seq<char>>) -> HlsState
    decreases lines.len(),
{
    if lines.len() == 0 {
        initial_state()
    } else {
        step(run(lines.drop_last(), base), lines.last(), base)
    }
}

/// The streams once every line is read: a stream still waiting for its
/// playlist gets the pending one, and so do segments that no stream line
/// claimed (a media playlist).
pub open spec fn finish(st: HlsState) -> Seq<StreamSpecView> {
    if st.stream.playlist is None && (st.stream.id.len() > 0 || st.part.media_segments.len() > 0) {
        st.streams.push(
            StreamSpecView { playlist: Some(with_part(st.playlist, st.part)), ..st.stream },
        )
    } else {
        st.streams
    }
}

/// The streams of an HLS manifest, read line by line. Lines are the pieces
/// between `\n`s; `str::lines` also drops a final empty line and a `\r`
/// before a `\n`, which changes nothing here since every line is trimmed
/// and a blank line is ignored.
pub open spec fn extract(content: Seq<char>, base: Option<Seq<char>>) -> Seq<StreamSpecView> {
    finish(run(split(content, '\n'), base))
}



// ---------------------------------------------------------------------------
// Laws
// ---------------------------------------------------------------------------

/// Every stream gathered so far carries a playlist.
pub open spec fn all_have_playlists(streams: Seq<StreamSpecView>) -> bool {
    forall|i: int| 0 <= i < streams.len() ==> (#[trigger] streams[i]).playlist is Some
}

proof fn lemma_run_streams_have_playlists(lines: Seq<Seq<char>>, base: Option<Seq<char>>)
    ensures
        all_have_playlists(run(lines, base).streams),
    decreases lines.len(),
{
    if lines.len() > 0 {
        lemma_run_streams_have_playlists(lines.drop_last(), base);
    }
}

/// Every stream that an HLS manifest yields comes with its playlist.
pub proof fn lemma_extracted_streams_have_playlists(content: Seq<char>, base: Option<Seq<char>>)
    ensures
        all_have_playlists(extract(content, base)),
{
    lemma_run_streams_have_playlists(split(content, '\n'), base);
}

/// The attributes of an `#EXT-X-STREAM-INF` line always give a media type
/// (video unless the line says audio or subtitles).
pub proof fn lemma_stream_inf_has_media_type(line: Seq<char>)
    ensures
        stream_inf(line).media_type is Some,
{
}

/// A line that declares the playlist type as something other than VOD.
pub open spec fn declares_non_vod_type(raw: Seq<char>) -> bool {
    starts_with(trim(raw), "#EXT-X-PLAYLIST-TYPE:"@) && !contains(trim(raw), "VOD"@)
}

/// Some line of `lines` declares a playlist type other than VOD.
pub open spec fn some_non_vod_type(lines: Seq<Seq<char>>) -> bool {
    exists|i: int| 0 <= i < lines.len() && #[trigger] declares_non_vod_type(lines[i])
}

/// An `#EXT-X-PLAYLIST-TYPE:` line makes the playlist being read
/// on-demand when it names VOD, and live when it names EVENT or LIVE but
/// not VOD; it leaves the streams read so far alone.
pub proof fn lemma_playlist_type_line(st: HlsState, raw: Seq<char>, base: Option<Seq<char>>)
    requires
        starts_with(trim(raw), "#EXT-X-PLAYLIST-TYPE:"@),
    ensures
        contains(trim(raw), "VOD"@) ==> !step(st, raw, base).playlist.is_live,
        !contains(trim(raw), "VOD"@) && (contains(trim(raw), "EVENT"@) || contains(
            trim(raw),
            "LIVE"@,
        )) ==> step(st, raw, base).playlist.is_live,
        step(st, raw, base).streams == st.streams,
{
    let line = trim(raw);
    reveal_strlit("#EXT-X-PLAYLIST-TYPE:");
    reveal_strlit("#EXTM3U");
    reveal_strlit("#EXT-X-STREAM-INF:");
    reveal_strlit("#EXT-X-MEDIA:");
    lemma_prefix_excludes(line, "#EXT-X-PLAYLIST-TYPE:"@, "#EXTM3U"@, 4);
    lemma_prefix_excludes(line, "#EXT-X-PLAYLIST-TYPE:"@, "#EXT-X-STREAM-INF:"@, 7);
    lemma_prefix_excludes(line, "#EXT-X-PLAYLIST-TYPE:"@, "#EXT-X-MEDIA:"@, 7);
}

/// What `run` keeps: the playlist being read, and that of every stream
/// read so far, is live only where some line declares a type other than VOD.
pub open spec fn live_only_if_declared(st: HlsState, lines: Seq<Seq<char>>) -> bool {
    &&& st.playlist.is_live ==> some_non_vod_type(lines)
    &&& forall|j: int|
        0 <= j < st.streams.len() ==> ((#[trigger] st.streams[j]).playlist matches Some(p)
            && p.is_live) ==> some_non_vod_type(lines)
}

proof fn lemma_run_live_only_if_declared(lines: Seq<Seq<char>>, base: Option<Seq<char>>)
    ensures
        live_only_if_declared(run(lines, base), lines),
    decreases lines.len(),
{
    if lines.len() > 0 {
        let prev = lines.drop_last();
        lemma_run_live_only_if_declared(prev, base);
        if some_non_vod_type(prev) {
            let i = choose|i: int| 0 <= i < prev.len() && #[trigger] declares_non_vod_type(prev[i]);
            assert(lines[i] == prev[i]);
            assert(some_non_vod_type(lines));
        }
        let last = lines.last();
        if declares_non_vod_type(last) {
            assert(declares_non_vod_type(lines[lines.len() - 1]));
            assert(some_non_vod_type(lines));
        }
        let st = run(prev, base);
        let nst = run(lines, base);
        assert(nst == step(st, last, base));
        assert forall|j: int|
            0 <= j < nst.streams.len() && ((#[trigger] nst.streams[j]).playlist matches Some(p)
                && p.is_live) implies some_non_vod_type(lines) by {
            if j < st.streams.len() {
                assert(nst.streams[j] == st.streams[j] || nst.streams.len() > st.streams.len());
            }
        }
    }
}

/// A manifest yields a live playlist only where one of its lines declares
/// a playlist type other than VOD: a manifest typed VOD, or not typed at
/// all, gives only on-demand playlists.
pub proof fn lemma_live_playlists_are_declared(content: Seq<char>, base: Option<Seq<char>>)
    ensures
        forall|j: int|
            0 <= j < extract(content, base).len() ==> ((#[trigger] extract(content, base)[j]).playlist
                matches Some(p) && p.is_live) ==> some_non_vod_type(split(content, '\n')),
{
    let lines = split(content, '\n');
    lemma_run_live_only_if_declared(lines, base);
}

// ---------------------------------------------------------------------------
// The parser
// ---------------------------------------------------------------------------

/// What the parser holds between lines.
struct ParseState {
    streams: Vec<StreamSpec>,
    stream: StreamSpec,
    playlist: Playlist,
    part: MediaPart,
    segment: MediaSegment,
    in_playlist: bool,
}

impl View for ParseState {
    type V = HlsState;

    closed spec fn view(&self) -> HlsState {
        HlsState {
            streams: streams_view(self.streams@),
            stream: self.stream@,
            playlist: self.playlist@,
            part: self.part@,
            segment: self.segment@,
            in_playlist: self.in_playlist,
        }
    }
}

/// Parser of HLS manifests.
#[derive(Debug, Clone)]
pub struct HLSExtractor {
    base_url: Option<String>,
    headers: HashMap<String, String>,
}

fn apply_stream_attr_exec(s: &mut StreamSpec, param: &[char])
    ensures
        final(s)@ == apply_stream_attr(old(s)@, param@),
{
    let p = trim_chars(param);
    match split_once_chars(p.as_slice(), '=') {
        Some((k, v)) => {
            if eq_str(k.as_slice(), "BANDWIDTH") {
                match parse_unsigned_chars(v.as_slice(), 4294967295u64) {
                    Some(b) => {
                        s.bandwidth = b as u32;
                    },
                    None => {},
                }
            } else if eq_str(k.as_slice(), "CODECS") {
                let c = strip_chars(v.as_slice(), CharClass::Exactly('"'));
                s.codecs = string_of(c.as_slice());
            } else if eq_str(k.as_slice(), "RESOLUTION") {
                s.resolution = Some(string_of(v.as_slice()));
            } else if eq_str(k.as_slice(), "FRAME-RATE") {
                if is_float_literal(v.as_slice()) {
                    s.frame_rate = Some(string_of(v.as_slice()));
                }
            } else if eq_str(k.as_slice(), "AUDIO") {
                s.media_type = Some(MediaType::AUDIO);
            } else if eq_str(k.as_slice(), "SUBTITLES") {
                s.media_type = Some(MediaType::SUBTITLES);
            }
        },
        None => {},
    }
}

fn parse_stream_inf(line: &[char]) -> (r: StreamSpec)
    ensures
        r@ == stream_inf(line@),
{
    let inf = strip_prefix_all_chars(line, "#EXT-X-STREAM-INF:");
    let params = split_chars(inf.as_slice(), ',');
    let ghost ps = views(params@);
    let mut s = StreamSpec::default();
    let mut i: usize = 0;
    assert(ps.take(0) =~= Seq::<Seq<char>>::empty());
    while i < params.len()
        invariant
            i <= params@.len(),
            ps == views(params@),
            s@ == apply_stream_attrs(default_stream(), ps.take(i as int)),
        decreases params@.len() - i,
    {
        assert(ps.take(i + 1).drop_last() =~= ps.take(i as int));
        apply_stream_attr_exec(&mut s, params[i].as_slice());
        i = i + 1;
    }
    assert(ps.take(params@.len() as int) =~= ps);
    if s.media_type.is_none() {
        s.media_type = Some(MediaType::VIDEO);
    }
    s
}

impl HLSExtractor {
    /// The base URL that references are resolved against.
    pub closed spec fn base(&self) -> Option<Seq<char>> {
        opt_view(self.base_url)
    }

    /// The request headers the parser was made with.
    pub closed spec fn header_map(&self) -> Map<String, String> {
        self.headers@
    }

    pub fn new(base_url: Option<String>, headers: HashMap<String, String>) -> (r: Self)
        ensures
            r.base() == opt_view(base_url),
            r.header_map() == headers@,
    {
        HLSExtractor { base_url, headers }
    }

    fn apply_key_attr_exec(&self, e: &mut EncryptInfo, param: &[char])
        ensures
            final(e)@ == apply_key_attr(old(e)@, param@, self.base()),
    {
        let p = trim_chars(param);
        match split_once_chars(p.as_slice(), '=') {
            Some((k, v)) => {
                if eq_str(k.as_slice(), "METHOD") {
                    e.method = if eq_str(v.as_slice(), "AES-128") {
                        EncryptMethod::AES_128
                    } else if eq_str(v.as_slice(), "NONE") {
                        EncryptMethod::NONE
                    } else {
                        EncryptMethod::UNKNOWN
                    };
                } else if eq_str(k.as_slice(), "URI") {
                    let u = strip_chars(v.as_slice(), CharClass::Exactly('"'));
                    e.key_uri = Some(resolve_url(&self.base_url, u.as_slice()));
                } else if eq_str(k.as_slice(), "IV") {
                    let q = strip_chars(v.as_slice(), CharClass::Exactly('"'));
                    let h = strip_prefix_all_chars(q.as_slice(), "0x");
                    match decode_hex(h.as_slice()) {
                        Some(iv) => {
                            e.iv = Some(iv);
                        },
                        None => {},
                    }
                }
            },
            None => {},
        }
    }

    fn parse_key_info(&self, line: &[char]) -> (r: EncryptInfo)
        ensures
            r@ == key_info(line@, self.base()),
    {
        let body = strip_prefix_all_chars(line, "#EXT-X-KEY:");
        let params = split_chars(body.as_slice(), ',');
        let ghost ps = views(params@);
        let mut e = EncryptInfo::default();
        let mut i: usize = 0;
        assert(ps.take(0) =~= Seq::<Seq<char>>::empty());
        while i < params.len()
            invariant
                i <= params@.len(),
                ps == views(params@),
                e@ == apply_key_attrs(default_encrypt_info(), ps.take(i as int), self.base()),
            decreases params@.len() - i,
        {
            assert(ps.take(i + 1).drop_last() =~= ps.take(i as int));
            self.apply_key_attr_exec(&mut e, params[i].as_slice());
            i = i + 1;
        }
        assert(ps.take(params@.len() as int) =~= ps);
        e
    }

    fn map_init(&self, init: Option<String>, info: &[char]) -> (r: Option<String>)
        ensures
            opt_view(r) == apply_map_attrs(opt_view(init), split(info@, ','), self.base()),
    {
        let params = split_chars(info, ',');
        let ghost ps = views(params@);
        let mut cur = init;
        let mut i: usize = 0;
        assert(ps.take(0) =~= Seq::<Seq<char>>::empty());
        while i < params.len()
            invariant
                i <= params@.len(),
                ps == views(params@),
                ps == split(info@, ','),
                opt_view(cur) == apply_map_attrs(opt_view(init), ps.take(i as int), self.base()),
            decreases params@.len() - i,
        {
            assert(ps.take(i + 1).drop_last() =~= ps.take(i as int));
            let p = trim_chars(params[i].as_slice());
            match split_once_chars(p.as_slice(), '=') {
                Some((k, v)) => {
                    if eq_str(k.as_slice(), "URI") {
                        let u = strip_chars(v.as_slice(), CharClass::Exactly('"'));
                        cur = Some(resolve_url(&self.base_url, u.as_slice()));
                    }
                },
                None => {},
            }
            i = i + 1;
        }
        assert(ps.take(params@.len() as int) =~= ps);
        cur
    }
}

fn apply_extinf_exec(seg: &mut MediaSegment, line: &[char])
    ensures
        final(seg)@ == apply_extinf(old(seg)@, line@),
{
    let pieces = split_chars(line, ':');
    if pieces.len() > 1 {
        assert(views(pieces@)[1] == pieces@[1]@);
        match split_once_chars(pieces[1].as_slice(), ',') {
            Some((d, title)) => {
                if is_float_literal(d.as_slice()) {
                    seg.duration = string_of(d.as_slice());
                }
                let t = trim_chars(title.as_slice());
                if t.len() > 0 {
                    seg.title = Some(string_of(t.as_slice()));
                }
            },
            None => {},
        }
    }
}


impl HLSExtractor {
    fn step_exec(&self, st: &mut ParseState, raw: &[char])
        ensures
            final(st)@ == step(old(st)@, raw@, self.base()),
    {
        let line = trim_chars(raw);
        let l = line.as_slice();
        if starts_with_str(l, "#EXTM3U") {
        } else if starts_with_str(l, "#EXT-X-STREAM-INF:") {
            if st.part.media_segments.len() > 0 {
                st.part = MediaPart::default();
            }
            st.stream = parse_stream_inf(l);
            st.playlist = Playlist::default();
            st.in_playlist = false;
        } else if starts_with_str(l, "#EXT-X-MEDIA:") {
        } else if starts_with_str(l, "#EXT-X-PLAYLIST-TYPE:") {
            if contains_str(l, "VOD") {
                st.playlist.is_live = false;
            } else if contains_str(l, "EVENT") || contains_str(l, "LIVE") {
                st.playlist.is_live = true;
            }
        } else if starts_with_str(l, "#EXT-X-TARGETDURATION:") {
            let pieces = split_chars(l, ':');
            if pieces.len() > 1 {
                assert(views(pieces@)[1] == pieces@[1]@);
                if is_float_literal(pieces[1].as_slice()) {
                    st.playlist.target_duration = Some(string_of(pieces[1].as_slice()));
                }
            }
        } else if starts_with_str(l, "#EXT-X-MAP:") {
            match split_once_chars(l, ':') {
                Some((_, info)) => {
                    let init = clone_opt_string(&st.playlist.init_segment);
                    st.playlist.init_segment = self.map_init(init, info.as_slice());
                },
                None => {},
            }
        } else if starts_with_str(l, "#EXTINF:") {
            apply_extinf_exec(&mut st.segment, l);
            st.in_playlist = true;
        } else if starts_with_str(l, "#EXT-X-KEY:") {
            st.segment.encrypt_info = Some(self.parse_key_info(l));
        } else if starts_with_str(l, "#EXT-X-ENDLIST") {
            st.playlist.is_ended = true;
        } else if !starts_with_str(l, "#") && l.len() > 0 {
            if st.in_playlist {
                st.segment.uri = resolve_url(&self.base_url, l);
                let seg = st.segment.clone();
                let ghost before = st.part.media_segments@;
                st.part.media_segments.push(seg);
                assert(segments_view(st.part.media_segments@) =~= segments_view(before).push(
                    seg@,
                ));
                st.segment = MediaSegment::default();
            } else {
                st.stream.id = resolve_url(&self.base_url, l);
                if st.part.media_segments.len() > 0 {
                    let part = st.part.clone();
                    let ghost before = st.playlist.media_parts@;
                    st.playlist.media_parts.push(part);
                    assert(parts_view(st.playlist.media_parts@) =~= parts_view(before).push(
                        part@,
                    ));
                }
                st.stream.playlist = Some(Box::new(st.playlist.clone()));
                let copy = st.stream.clone();
                let ghost before = st.streams@;
                st.streams.push(copy);
                assert(streams_view(st.streams@) =~= streams_view(before).push(copy@));
                st.playlist = Playlist::default();
                st.part = MediaPart::default();
            }
        }
    }

    /// The streams of an HLS manifest; a media playlist (segments that no
    /// stream line claims) gives one stream that holds them.
    pub fn extract_streams(&self, content: &str) -> (r: Result<Vec<StreamSpec>, ExtractError>)
        ensures
            r matches Ok(v) && streams_view(v@) == extract(content@, self.base()),
    {
        let text = chars_of(content);
        let lines = split_chars(text.as_slice(), '\n');
        let ghost ls = views(lines@);
        let mut st = ParseState {
            streams: Vec::new(),
            stream: StreamSpec::default(),
            playlist: Playlist::default(),
            part: MediaPart::default(),
            segment: MediaSegment::default(),
            in_playlist: false,
        };
        assert(st@.streams =~= Seq::<StreamSpecView>::empty());
        assert(ls.take(0) =~= Seq::<Seq<char>>::empty());
        let mut i: usize = 0;
        while i < lines.len()
            invariant
                i <= lines@.len(),
                ls == views(lines@),
                st@ == run(ls.take(i as int), self.base()),
            decreases lines@.len() - i,
        {
            assert(ls.take(i + 1).drop_last() =~= ls.take(i as int));
            self.step_exec(&mut st, lines[i].as_slice());
            i = i + 1;
        }
        assert(ls.take(lines@.len() as int) =~= ls);
        if st.stream.playlist.is_none() && (!st.stream.id.as_str().is_empty() || st.part.media_segments.len()
            > 0) {
            if st.part.media_segments.len() > 0 {
                let part = st.part.clone();
                let ghost before = st.playlist.media_parts@;
                st.playlist.media_parts.push(part);
                assert(parts_view(st.playlist.media_parts@) =~= parts_view(before).push(part@));
            }
            st.stream.playlist = Some(Box::new(st.playlist.clone()));
            let copy = st.stream.clone();
            let ghost before = st.streams@;
            st.streams.push(copy);
            assert(streams_view(st.streams@) =~= streams_view(before).push(copy@));
        }
        Ok(st.streams)
    }
}

} // verus!
