//! Microsoft Smooth Streaming manifests, once their XML is read into the
//! model below.
use std::collections::HashMap;
use vstd::prelude::*;
use crate::parser::dash::or_else;
use crate::entity::{
    clone_opt_string, default_part, default_playlist, default_segment, opt_view, MediaPart,
    MediaPartView, MediaSegment, MediaSegmentView, MediaType, Playlist, PlaylistView, StreamSpec,
    StreamSpecView, streams_view, segments_view, parts_view, string_from,
};
use crate::parser::extractor::ExtractError;
use crate::parser::resolve::{resolve, resolve_url};
use crate::text::{
    chars_of, decimal, decimal_chars, eq_str, parse_unsigned, parse_unsigned_chars, push_all,
    push_str, replace, replace_chars, resolution_string, resolution_text, string_of,
};

verus! {

/// A Smooth Streaming manifest.
#[derive(Debug)]
pub struct SmoothStreamingMedia {
    pub major_version: u32,
    pub minor_version: u32,
    pub time_scale: u32,
    /// Duration, as decimal text.
    pub duration: Option<String>,
    pub is_live: Option<bool>,
    pub stream_index: Vec<StreamIndex>,
}

/// One stream of the manifest and its quality levels.
#[derive(Debug)]
pub struct StreamIndex {
    pub stream_type: String,
    pub quality_levels: String,
    pub chunks: String,
    pub url: Option<String>,
    pub quality_level: Vec<QualityLevel>,
}

/// One encoding of a stream.
#[derive(Debug)]
pub struct QualityLevel {
    pub index: u32,
    pub bitrate: u32,
    pub codec_private_data: Option<String>,
    pub max_width: Option<u32>,
    pub max_height: Option<u32>,
    /// Frames per second, as decimal text.
    pub frame_rate: Option<String>,
    pub four_cc: Option<String>,
}

/// The number of chunks of a stream: its `Chunks` attribute as a `u32`,
/// 10 where that is not one.
pub open spec fn chunk_count(si: StreamIndex) -> nat {
    match parse_unsigned(si.chunks@, u32::MAX as nat) {
        Some(n) => n,
        None => 10,
    }
}

/// The start time of chunk `i`, two seconds (in milliseconds) apart.
pub open spec fn chunk_start(i: nat) -> nat {
    i * 2000
}

/// The URL of chunk `i`: `{bitrate}` and then `{start time}` filled in.
pub open spec fn chunk_url(base: Option<Seq<char>>, template: Seq<char>, bitrate: u32, i: nat) -> Seq<
    char,
> {
    resolve(
        base,
        replace(
            replace(template, "{bitrate}"@, decimal(bitrate as nat)),
            "{start time}"@,
            decimal(chunk_start(i)),
        ),
    )
}

/// The playlist of a quality level of a stream: one two-second segment per
/// chunk, in one part where there is any.
pub open spec fn chunk_playlist(
    base: Option<Seq<char>>,
    si: StreamIndex,
    ql: QualityLevel,
    template: Seq<char>,
) -> PlaylistView {
    let segs = Seq::new(
        chunk_count(si),
        |i: int|
            MediaSegmentView {
                uri: chunk_url(base, template, ql.bitrate, i as nat),
                duration: seq!['2'],
                ..default_segment()
            },
    );
    PlaylistView {
        media_parts: if segs.len() > 0 {
            seq![MediaPartView { media_segments: segs, ..default_part() }]
        } else {
            Seq::empty()
        },
        ..default_playlist()
    }
}

/// The media type a stream type names.
pub open spec fn media_type_of_stream(t: Seq<char>) -> Option<MediaType> {
    if t == "video"@ {
        Some(MediaType::VIDEO)
    } else if t == "audio"@ {
        Some(MediaType::AUDIO)
    } else if t == "text"@ {
        Some(MediaType::SUBTITLES)
    } else {
        None
    }
}

/// The stream of one quality level: named `<type>_<index>`.
pub open spec fn quality_stream(
    base: Option<Seq<char>>,
    si: StreamIndex,
    ql: QualityLevel,
) -> StreamSpecView {
    StreamSpecView {
        id: si.stream_type@ + seq!['_'] + decimal(ql.index as nat),
        media_type: media_type_of_stream(si.stream_type@),
        codecs: match opt_view(ql.codec_private_data) {
            Some(c) => c,
            None => Seq::empty(),
        },
        language: None,
        name: None,
        resolution: match (ql.max_width, ql.max_height) {
            (Some(w), Some(h)) => Some(resolution_text(w as nat, h as nat)),
            _ => None,
        },
        bandwidth: ql.bitrate,
        channels: None,
        frame_rate: opt_view(ql.frame_rate),
        video_range: None,
        group_id: None,
        playlist: match si.url {
            Some(u) => Some(chunk_playlist(base, si, ql, u@)),
            None => None,
        },
    }
}

/// The streams of one stream index, one per quality level.
pub open spec fn index_streams(base: Option<Seq<char>>, si: StreamIndex) -> Seq<StreamSpecView> {
    Seq::new(si.quality_level@.len(), |i: int| quality_stream(base, si, si.quality_level@[i]))
}

/// The streams of the stream indexes, index by index.
pub open spec fn mss_streams(base: Option<Seq<char>>, sis: Seq<StreamIndex>) -> Seq<StreamSpecView>
    decreases sis.len(),
{
    if sis.len() == 0 {
        Seq::empty()
    } else {
        mss_streams(base, sis.drop_last()) + index_streams(base, sis.last())
    }
}

/// The start times of a stream with a URL fit in a `u32`.
pub open spec fn chunks_in_range(si: StreamIndex) -> bool {
    si.url is Some ==> chunk_count(si) == 0 || chunk_start((chunk_count(si) - 1) as nat) <= u32::MAX
}

/// The start times of every stream with a URL fit in a `u32`.
pub open spec fn manifest_in_range(m: SmoothStreamingMedia) -> bool {
    forall|i: int| 0 <= i < m.stream_index@.len() ==> chunks_in_range(#[trigger] m.stream_index@[i])
}

/// Whether the start times of every stream with a URL fit in a `u32`.
pub fn chunks_fit(media: &SmoothStreamingMedia) -> (r: bool)
    ensures
        r == manifest_in_range(*media),
{
    let sis = &media.stream_index;
    let mut i: usize = 0;
    while i < sis.len()
        invariant
            i <= sis@.len(),
            sis@ == media.stream_index@,
            forall|a: int| 0 <= a < i ==> chunks_in_range(#[trigger] sis@[a]),
        decreases sis@.len() - i,
    {
        let si = &sis[i];
        if si.url.is_some() {
            let cc = chars_of(si.chunks.as_str());
            let chunks: u64 = match parse_unsigned_chars(cc.as_slice(), 4294967295u64) {
                Some(n) => n,
                None => 10,
            };
            assert(chunks == chunk_count(*si));
            if chunks > 0 && (chunks - 1) * 2000 > 4294967295u64 {
                assert(!chunks_in_range(media.stream_index@[i as int]));
                return false;
            }
        }
        i = i + 1;
    }
    true
}

/// Reader of Smooth Streaming manifests.
#[derive(Debug, Clone)]
pub struct MSSExtractor {
    base_url: Option<String>,
    headers: HashMap<String, String>,
}

impl MSSExtractor {
    /// The base URL that references are resolved against.
    pub closed spec fn base(&self) -> Option<Seq<char>> {
        opt_view(self.base_url)
    }

    /// The request headers the reader was made with.
    pub closed spec fn header_map(&self) -> Map<String, String> {
        self.headers@
    }

    pub fn new(base_url: Option<String>, headers: HashMap<String, String>) -> (r: Self)
        ensures
            r.base() == opt_view(base_url),
            r.header_map() == headers@,
    {
        MSSExtractor { base_url, headers }
    }

    fn determine_media_type(&self, stream_type: &str) -> (r: Option<MediaType>)
        ensures
            r == media_type_of_stream(stream_type@),
    {
        let t = chars_of(stream_type);
        if eq_str(t.as_slice(), "video") {
            Some(MediaType::VIDEO)
        } else if eq_str(t.as_slice(), "audio") {
            Some(MediaType::AUDIO)
        } else if eq_str(t.as_slice(), "text") {
            Some(MediaType::SUBTITLES)
        } else {
            None
        }
    }

    /// The codecs text of codec private data, which is kept as it is.
    fn parse_codec_data(&self, codec_data: &str) -> (r: String)
        ensures
            r@ == codec_data@,
    {
        String::from_str(codec_data)
    }

    fn build_playlist(&self, si: &StreamIndex, ql: &QualityLevel, url_template: &str) -> (r:
        Playlist)
        requires
            chunk_count(*si) == 0 || chunk_start((chunk_count(*si) - 1) as nat) <= u32::MAX,
        ensures
            r@ == chunk_playlist(self.base(), *si, *ql, url_template@),
    {
        let mut playlist = Playlist::default();
        let mut part = MediaPart::default();
        let cc = chars_of(si.chunks.as_str());
        let chunks: u32 = match parse_unsigned_chars(cc.as_slice(), 4294967295u64) {
            Some(n) => n as u32,
            None => 10,
        };
        let tc = chars_of(url_template);
        let bitrate = decimal_chars(ql.bitrate as u64);
        proof {
            reveal_strlit("{bitrate}");
            reveal_strlit("{start time}");
        }
        let ghost segs = Seq::new(
            chunk_count(*si),
            |i: int|
                MediaSegmentView {
                    uri: chunk_url(self.base(), url_template@, ql.bitrate, i as nat),
                    duration: seq!['2'],
                    ..default_segment()
                },
        );
        let mut i: u32 = 0;
        assert(segments_view(part.media_segments@) =~= segs.take(0));
        while i < chunks
            invariant
                i <= chunks,
                chunks == chunk_count(*si),
                chunks == 0 || chunk_start((chunks - 1) as nat) <= u32::MAX,
                tc@ == url_template@,
                bitrate@ == decimal(ql.bitrate as nat),
                "{bitrate}"@.len() > 0,
                "{start time}"@.len() > 0,
                segs.len() == chunks,
                forall|k: int| 0 <= k < chunks ==> #[trigger] segs[k] == (MediaSegmentView {
                    uri: chunk_url(self.base(), url_template@, ql.bitrate, k as nat),
                    duration: seq!['2'],
                    ..default_segment()
                }),
                part@ == (MediaPartView { media_segments: segs.take(i as int), ..default_part() }),
            decreases chunks - i,
        {
            assert(chunk_start(i as nat) <= chunk_start((chunks - 1) as nat)) by (nonlinear_arith)
                requires
                    i < chunks,
            ;
            let start = decimal_chars((i * 2000) as u64);
            let with_rate = replace_chars(tc.as_slice(), "{bitrate}", bitrate.as_slice());
            let filled = replace_chars(with_rate.as_slice(), "{start time}", start.as_slice());
            let mut seg = MediaSegment::default();
            seg.uri = resolve_url(&self.base_url, filled.as_slice());
            let two = ['2'];
            assert(two@ == seq!['2']);
            seg.duration = string_from(two.as_slice());
            assert(seg@ == segs[i as int]);
            let ghost before = part.media_segments@;
            part.media_segments.push(seg);
            assert(segments_view(part.media_segments@) =~= segments_view(before).push(seg@));
            i = i + 1;
            assert(segments_view(part.media_segments@) =~= segs.take(i as int));
        }
        assert(segs.take(chunks as int) =~= segs);
        if part.media_segments.len() > 0 {
            let ghost before = playlist.media_parts@;
            let ghost pv = part@;
            playlist.media_parts.push(part);
            assert(parts_view(playlist.media_parts@) =~= parts_view(before).push(pv));
            assert(parts_view(playlist.media_parts@) =~= chunk_playlist(
                self.base(),
                *si,
                *ql,
                url_template@,
            ).media_parts);
        } else {
            assert(segs.len() == 0);
            assert(chunk_playlist(self.base(), *si, *ql, url_template@).media_parts =~= Seq::<
                MediaPartView,
            >::empty());
        }
        playlist
    }
}


impl MSSExtractor {
    fn quality_stream_exec(&self, si: &StreamIndex, ql: &QualityLevel) -> (r: StreamSpec)
        requires
            chunks_in_range(*si),
        ensures
            r@ == quality_stream(self.base(), *si, *ql),
    {
        let mut stream = StreamSpec::default();
        let mut id = chars_of(si.stream_type.as_str());
        id.push('_');
        let idx = decimal_chars(ql.index as u64);
        push_all(&mut id, idx.as_slice());
        assert(id@ =~= si.stream_type@ + seq!['_'] + decimal(ql.index as nat));
        stream.id = string_of(id.as_slice());
        stream.media_type = self.determine_media_type(si.stream_type.as_str());
        stream.bandwidth = ql.bitrate;
        match (ql.max_width, ql.max_height) {
            (Some(w), Some(h)) => {
                stream.resolution = Some(resolution_string(w, h));
            },
            _ => {},
        }
        stream.frame_rate = clone_opt_string(&ql.frame_rate);
        match &ql.codec_private_data {
            Some(c) => {
                stream.codecs = self.parse_codec_data(c.as_str());
            },
            None => {},
        }
        match &si.url {
            Some(u) => {
                let playlist = self.build_playlist(si, ql, u.as_str());
                stream.playlist = Some(Box::new(playlist));
            },
            None => {},
        }
        stream
    }

    /// The streams of a Smooth Streaming manifest: one per quality level,
    /// stream index by stream index.
    pub fn extract_streams(&self, media: &SmoothStreamingMedia) -> (r: Result<
        Vec<StreamSpec>,
        ExtractError,
    >)
        requires
            manifest_in_range(*media),
        ensures
            r matches Ok(v) && streams_view(v@) == mss_streams(self.base(), media.stream_index@),
    {
        let sis = &media.stream_index;
        let mut streams: Vec<StreamSpec> = Vec::new();
        let mut i: usize = 0;
        assert(sis@.take(0) =~= Seq::<StreamIndex>::empty());
        assert(streams_view(streams@) =~= Seq::<StreamSpecView>::empty());
        while i < sis.len()
            invariant
                i <= sis@.len(),
                sis == media.stream_index,
                manifest_in_range(*media),
                streams_view(streams@) == mss_streams(self.base(), sis@.take(i as int)),
            decreases sis@.len() - i,
        {
            let si = &sis[i];
            assert(chunks_in_range(media.stream_index@[i as int]));
            let ghost before = streams_view(streams@);
            let mut j: usize = 0;
            assert(before + Seq::new(0nat, |k: int| quality_stream(self.base(), *si, si.quality_level@[k])) =~= before);
            while j < si.quality_level.len()
                invariant
                    j <= si.quality_level@.len(),
                    chunks_in_range(*si),
                    streams_view(streams@) == before + Seq::new(
                        j as nat,
                        |k: int| quality_stream(self.base(), *si, si.quality_level@[k]),
                    ),
                decreases si.quality_level@.len() - j,
            {
                let st = self.quality_stream_exec(si, &si.quality_level[j]);
                let ghost prev = streams@;
                streams.push(st);
                assert(streams_view(streams@) =~= streams_view(prev).push(st@));
                j = j + 1;
                assert(streams_view(streams@) =~= before + Seq::new(
                    j as nat,
                    |k: int| quality_stream(self.base(), *si, si.quality_level@[k]),
                ));
            }
            assert(sis@.take(i + 1).drop_last() =~= sis@.take(i as int));
            assert(sis@.take(i + 1).last() == *si);
            assert(streams_view(streams@) =~= mss_streams(self.base(), sis@.take(i + 1)));
            i = i + 1;
        }
        assert(sis@.take(sis@.len() as int) =~= sis@);
        Ok(streams)
    }
}

/// A stream with a URL gets one segment per chunk: as many as its `Chunks`
/// attribute says, ten where that is not a number.
pub proof fn lemma_segments_per_chunk(
    base: Option<Seq<char>>,
    si: StreamIndex,
    ql: QualityLevel,
    template: Seq<char>,
)
    requires
        chunk_count(si) > 0,
    ensures
        chunk_playlist(base, si, ql, template).media_parts.len() == 1,
        chunk_playlist(base, si, ql, template).media_parts[0].media_segments.len() == chunk_count(si),
{
}

/// Every quality level gives exactly one stream.
pub proof fn lemma_one_stream_per_quality_level(base: Option<Seq<char>>, sis: Seq<StreamIndex>)
    ensures
        mss_streams(base, sis).len() == quality_level_count(sis),
    decreases sis.len(),
{
    if sis.len() > 0 {
        lemma_one_stream_per_quality_level(base, sis.drop_last());
    }
}

/// The number of quality levels in the stream indexes.
pub open spec fn quality_level_count(sis: Seq<StreamIndex>) -> nat
    decreases sis.len(),
{
    if sis.len() == 0 {
        0
    } else {
        quality_level_count(sis.drop_last()) + sis.last().quality_level@.len()
    }
}

/// The stream of quality level `j` of stream index `k` stands at position
/// (quality levels in the indexes before `k`) + `j`. It is named
/// `<type>_<level index>`, carries the level's bitrate as its bandwidth and
/// its codec data as its codecs, a resolution `<width>x<height>` (width
/// first) where the level gives both, and the media type that the stream
/// type names: `video`, `audio`, `text` (subtitles), no type otherwise.
pub proof fn lemma_quality_stream_fields(
    base: Option<Seq<char>>,
    sis: Seq<StreamIndex>,
    k: int,
    j: int,
)
    requires
        0 <= k < sis.len(),
        0 <= j < sis[k].quality_level@.len(),
    ensures
        ({
            let idx = quality_level_count(sis.take(k)) + j;
            let st = mss_streams(base, sis)[idx];
            let si = sis[k];
            let ql = si.quality_level@[j];
            &&& idx < mss_streams(base, sis).len()
            &&& st.id == si.stream_type@ + seq!['_'] + decimal(ql.index as nat)
            &&& st.bandwidth == ql.bitrate
            &&& st.codecs == match ql.codec_private_data {
                Some(c) => c@,
                None => Seq::<char>::empty(),
            }
            &&& match (ql.max_width, ql.max_height) {
                (Some(w), Some(h)) => st.resolution == Some(decimal(w as nat) + seq!['x'] + decimal(
                    h as nat,
                )),
                _ => st.resolution is None,
            }
            &&& si.stream_type@ == "video"@ ==> st.media_type == Some(MediaType::VIDEO)
            &&& si.stream_type@ == "audio"@ ==> st.media_type == Some(MediaType::AUDIO)
            &&& si.stream_type@ == "text"@ ==> st.media_type == Some(MediaType::SUBTITLES)
            &&& si.stream_type@ != "video"@ && si.stream_type@ != "audio"@ && si.stream_type@
                != "text"@ ==> st.media_type is None
        }),
    decreases sis.len(),
{
    let prev = sis.drop_last();
    lemma_one_stream_per_quality_level(base, prev);
    if k == sis.len() - 1 {
        assert(sis.take(k) =~= prev);
        let si = sis.last();
        assert(mss_streams(base, sis)[quality_level_count(prev) + j] == index_streams(base, si)[j]);
        reveal_strlit("video");
        reveal_strlit("audio");
        reveal_strlit("text");
        assert("video"@[0] != "audio"@[0] && "video"@.len() != "text"@.len() && "audio"@.len()
            != "text"@.len());
    } else {
        assert(sis.take(k) =~= prev.take(k));
        assert(prev[k] == sis[k]);
        lemma_quality_stream_fields(base, prev, k, j);
        lemma_level_count_prefix(prev, k);
    }
}

proof fn lemma_level_count_prefix(sis: Seq<StreamIndex>, k: int)
    requires
        0 <= k < sis.len(),
    ensures
        quality_level_count(sis.take(k)) + sis[k].quality_level@.len() <= quality_level_count(sis),
    decreases sis.len(),
{
    if k == sis.len() - 1 {
        assert(sis.take(k) =~= sis.drop_last());
    } else {
        assert(sis.take(k) =~= sis.drop_last().take(k));
        lemma_level_count_prefix(sis.drop_last(), k);
    }
}

} // verus!
