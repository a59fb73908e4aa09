//! MPEG-DASH manifests (MPD), once their XML is read into the model below.
use std::collections::HashMap;
use vstd::prelude::*;
use crate::entity::{
    clone_opt_string, default_part, default_playlist, default_segment, opt_view, MediaPart,
    MediaPartView, MediaSegment, MediaSegmentView, MediaType, Playlist, PlaylistView, StreamSpec,
    StreamSpecView, streams_view, segments_view, parts_view, string_from,
};
use crate::parser::extractor::ExtractError;
use crate::parser::resolve::{resolve, resolve_url};
use crate::text::{
    chars_of, decimal, decimal_chars, replace, replace_chars, resolution_string, resolution_text,
    lemma_prefix_excludes, starts_with, starts_with_str,
};

verus! {

/// An MPD document.
#[derive(Debug)]
pub struct MPD {
    pub period: Period,
}

#[derive(Debug)]
pub struct Period {
    pub adaptation_set: Vec<AdaptationSet>,
}

/// A group of interchangeable representations.
#[derive(Debug)]
pub struct AdaptationSet {
    pub mime_type: Option<String>,
    pub codecs: Option<String>,
    pub lang: Option<String>,
    pub width: Option<u32>,
    pub height: Option<u32>,
    /// Frames per second, as decimal text.
    pub frame_rate: Option<String>,
    pub representation: Vec<Representation>,
}

/// One encoding of the content.
#[derive(Debug)]
pub struct Representation {
    pub id: String,
    pub bandwidth: u32,
    pub codecs: Option<String>,
    pub width: Option<u32>,
    pub height: Option<u32>,
    /// Frames per second, as decimal text.
    pub frame_rate: Option<String>,
    pub base_url: Option<BaseURL>,
    pub segment_template: Option<SegmentTemplate>,
}

#[derive(Debug)]
pub struct BaseURL {
    pub text: String,
}

/// How the segments of a representation are named.
#[derive(Debug)]
pub struct SegmentTemplate {
    pub initialization: Option<String>,
    pub media: Option<String>,
    pub start_number: Option<u64>,
    /// Segment duration in seconds, as decimal text.
    pub duration: Option<String>,
}

/// The number of segments a template gives.
pub open spec fn template_segment_count() -> nat {
    10
}

/// The first segment number of a template (1 where it names none).
pub open spec fn start_of(t: SegmentTemplate) -> nat {
    match t.start_number {
        Some(n) => n as nat,
        None => 1,
    }
}

/// The duration text of a template's segments (2 seconds where it names none).
pub open spec fn template_duration(t: SegmentTemplate) -> Seq<char> {
    match t.duration {
        Some(d) => d@,
        None => seq!['2'],
    }
}

/// The segment numbered `n` of a template whose media pattern is `media`.
pub open spec fn template_segment(
    base: Option<Seq<char>>,
    t: SegmentTemplate,
    media: Seq<char>,
    n: nat,
) -> MediaSegmentView {
    MediaSegmentView {
        uri: resolve(base, replace(media, "$Number$"@, decimal(n))),
        duration: template_duration(t),
        ..default_segment()
    }
}

/// The playlist of a segment template: its initialization segment, and ten
/// numbered segments in one part where it has a media pattern.
pub open spec fn template_playlist(base: Option<Seq<char>>, t: SegmentTemplate) -> PlaylistView {
    PlaylistView {
        init_segment: match t.initialization {
            Some(i) => Some(resolve(base, i@)),
            None => None,
        },
        media_parts: match t.media {
            Some(m) => seq![
                MediaPartView {
                    media_segments: Seq::new(
                        template_segment_count(),
                        |i: int| template_segment(base, t, m@, start_of(t) + i as nat),
                    ),
                    ..default_part()
                },
            ],
            None => Seq::empty(),
        },
        ..default_playlist()
    }
}

/// The media type a MIME type names.
pub open spec fn media_type_of_mime(mime: Option<Seq<char>>) -> Option<MediaType> {
    match mime {
        Some(m) => if starts_with(m, "video/"@) {
            Some(MediaType::VIDEO)
        } else if starts_with(m, "audio/"@) {
            Some(MediaType::AUDIO)
        } else if starts_with(m, "text/"@) || starts_with(m, "application/ttml"@) {
            Some(MediaType::SUBTITLES)
        } else {
            None
        },
        None => None,
    }
}

pub open spec fn or_else<T>(a: Option<T>, b: Option<T>) -> Option<T> {
    match a {
        Some(x) => Some(x),
        None => b,
    }
}

/// The stream of one representation of an adaptation set: the
/// representation's own attributes, those of the set where it has none.
pub open spec fn representation_stream(
    base: Option<Seq<char>>,
    set: AdaptationSet,
    rep: Representation,
) -> StreamSpecView {
    StreamSpecView {
        id: rep.id@,
        media_type: media_type_of_mime(opt_view(set.mime_type)),
        codecs: match opt_view(rep.codecs) {
            Some(c) => c,
            None => match opt_view(set.codecs) {
                Some(c) => c,
                None => Seq::empty(),
            },
        },
        language: opt_view(set.lang),
        name: None,
        resolution: match (or_else(rep.width, set.width), or_else(rep.height, set.height)) {
            (Some(w), Some(h)) => Some(resolution_text(w as nat, h as nat)),
            _ => None,
        },
        bandwidth: rep.bandwidth,
        channels: None,
        frame_rate: or_else(opt_view(rep.frame_rate), opt_view(set.frame_rate)),
        video_range: None,
        group_id: None,
        playlist: match rep.segment_template {
            Some(t) => Some(template_playlist(base, t)),
            None => None,
        },
    }
}

/// The streams of one adaptation set, one per representation.
pub open spec fn set_streams(base: Option<Seq<char>>, set: AdaptationSet) -> Seq<StreamSpecView> {
    Seq::new(
        set.representation@.len(),
        |i: int| representation_stream(base, set, set.representation@[i]),
    )
}

/// The streams of the adaptation sets, set by set.
pub open spec fn dash_streams(base: Option<Seq<char>>, sets: Seq<AdaptationSet>) -> Seq<
    StreamSpecView,
>
    decreases sets.len(),
{
    if sets.len() == 0 {
        Seq::empty()
    } else {
        dash_streams(base, sets.drop_last()) + set_streams(base, sets.last())
    }
}

/// No segment template numbers its segments past `u64::MAX`.
pub open spec fn numbers_in_range(mpd: MPD) -> bool {
    forall|i: int, j: int|
        0 <= i < mpd.period.adaptation_set@.len() && 0 <= j
            < mpd.period.adaptation_set@[i].representation@.len() ==> match (
            #[trigger] mpd.period.adaptation_set@[i].representation@[j]).segment_template {
            Some(t) => t.media is Some ==> start_of(t) + template_segment_count() <= u64::MAX,
            None => true,
        }
}

/// Whether no segment template of the document numbers its segments past
/// `u64::MAX`.
pub fn numbers_fit(mpd: &MPD) -> (r: bool)
    ensures
        r == numbers_in_range(*mpd),
{
    let sets = &mpd.period.adaptation_set;
    let mut i: usize = 0;
    while i < sets.len()
        invariant
            i <= sets@.len(),
            sets@ == mpd.period.adaptation_set@,
            forall|a: int, b: int|
                0 <= a < i && 0 <= b < sets@[a].representation@.len() ==> match (
                #[trigger] sets@[a].representation@[b]).segment_template {
                Some(t) => t.media is Some ==> start_of(t) + template_segment_count()
                    <= u64::MAX,
                None => true,
            },
        decreases sets@.len() - i,
    {
        let reps = &sets[i].representation;
        let mut j: usize = 0;
        while j < reps.len()
            invariant
                i < sets@.len(),
                sets@ == mpd.period.adaptation_set@,
                j <= reps@.len(),
                reps@ == sets@[i as int].representation@,
                forall|b: int|
                    0 <= b < j ==> match (#[trigger] reps@[b]).segment_template {
                        Some(t) => t.media is Some ==> start_of(t) + template_segment_count()
                            <= u64::MAX,
                        None => true,
                    },
            decreases reps@.len() - j,
        {
            match &reps[j].segment_template {
                Some(t) => {
                    if t.media.is_some() {
                        let start: u64 = match t.start_number {
                            Some(n) => n,
                            None => 1,
                        };
                        if start > u64::MAX - 10 {
                            assert(!numbers_in_range(*mpd)) by {
                                assert(mpd.period.adaptation_set@[i as int].representation@[j as int]
                                    == reps@[j as int]);
                            }
                            return false;
                        }
                    }
                },
                None => {},
            }
            j = j + 1;
        }
        assert forall|a: int, b: int|
            0 <= a < i + 1 && 0 <= b < sets@[a].representation@.len() implies match (
            #[trigger] sets@[a].representation@[b]).segment_template {
            Some(t) => t.media is Some ==> start_of(t) + template_segment_count() <= u64::MAX,
            None => true,
        } by {
            if a == i {
                assert(sets@[a].representation@[b] == reps@[b]);
            }
        }
        i = i + 1;
    }
    true
}

/// Reader of MPD manifests.
#[derive(Debug, Clone)]
pub struct DASHExtractor {
    base_url: Option<String>,
    headers: HashMap<String, String>,
}

impl DASHExtractor {
    /// The base URL that references are resolved against.
    pub closed spec fn base(&self) -> Option<Seq<char>> {
        opt_view(self.base_url)
    }

    /// The request headers the reader was made with.
    pub closed spec fn header_map(&self) -> Map<String, String> {
        self.headers@
    }

    pub fn new(base_url: Option<String>, headers: HashMap<String, String>) -> (r: Self)
        ensures
            r.base() == opt_view(base_url),
            r.header_map() == headers@,
    {
        DASHExtractor { base_url, headers }
    }

    fn determine_media_type(&self, mime_type: &Option<String>) -> (r: Option<MediaType>)
        ensures
            r == media_type_of_mime(opt_view(*mime_type)),
    {
        match mime_type {
            Some(m) => {
                let mc = chars_of(m.as_str());
                if starts_with_str(mc.as_slice(), "video/") {
                    Some(MediaType::VIDEO)
                } else if starts_with_str(mc.as_slice(), "audio/") {
                    Some(MediaType::AUDIO)
                } else if starts_with_str(mc.as_slice(), "text/") || starts_with_str(
                    mc.as_slice(),
                    "application/ttml",
                ) {
                    Some(MediaType::SUBTITLES)
                } else {
                    None
                }
            },
            None => None,
        }
    }

    fn build_playlist(&self, t: &SegmentTemplate) -> (r: Playlist)
        requires
            t.media is Some ==> start_of(*t) + template_segment_count() <= u64::MAX,
        ensures
            r@ == template_playlist(self.base(), *t),
    {
        let mut playlist = Playlist::default();
        let mut part = MediaPart::default();
        match &t.initialization {
            Some(i) => {
                let ic = chars_of(i.as_str());
                playlist.init_segment = Some(resolve_url(&self.base_url, ic.as_slice()));
            },
            None => {},
        }
        match &t.media {
            Some(media) => {
                let mc = chars_of(media.as_str());
                let start: u64 = match t.start_number {
                    Some(n) => n,
                    None => 1,
                };
                let end: u64 = start + 10;
                let mut i: u64 = start;
                proof {
                    reveal_strlit("$Number$");
                }
                assert(segments_view(part.media_segments@) =~= Seq::new(
                    0nat,
                    |k: int| template_segment(self.base(), *t, mc@, start_of(*t) + k as nat),
                ));
                while i < end
                    invariant
                        start <= i <= end,
                        end == start + 10,
                        start == start_of(*t),
                        t.media is Some,
                        mc@ == t.media->0@,
                        "$Number$"@.len() > 0,
                        part@ == (MediaPartView {
                            media_segments: Seq::new(
                                (i - start) as nat,
                                |k: int| template_segment(self.base(), *t, mc@, start_of(*t) + k as nat),
                            ),
                            ..default_part()
                        }),
                    decreases end - i,
                {
                    let num = decimal_chars(i);
                    let replaced = replace_chars(mc.as_slice(), "$Number$", num.as_slice());
                    let mut seg = MediaSegment::default();
                    seg.uri = resolve_url(&self.base_url, replaced.as_slice());
                    seg.duration = match &t.duration {
                        Some(d) => d.clone(),
                        None => {
                            let two = ['2'];
                            assert(two@ == seq!['2']);
                            string_from(two.as_slice())
                        },
                    };
                    assert(seg@ == template_segment(self.base(), *t, mc@, i as nat));
                    let ghost before = part.media_segments@;
                    part.media_segments.push(seg);
                    assert(segments_view(part.media_segments@) =~= segments_view(before).push(seg@));
                    assert(start_of(*t) + (i - start) as nat == i as nat);
                    i = i + 1;
                    assert(segments_view(part.media_segments@) =~= Seq::new(
                        (i - start) as nat,
                        |k: int| template_segment(self.base(), *t, mc@, start_of(*t) + k as nat),
                    ));
                }
                assert(segments_view(part.media_segments@).len() == 10);
                assert(part.media_segments@.len() == 10);
                assert(part@.media_segments =~= Seq::new(
                    template_segment_count(),
                    |k: int| template_segment(self.base(), *t, t.media->0@, start_of(*t) + k as nat),
                ));
            },
            None => {
                assert(segments_view(part.media_segments@).len() == 0);
                assert(part.media_segments@.len() == 0);
            },
        }
        if part.media_segments.len() > 0 {
            let ghost before = playlist.media_parts@;
            let ghost pv = part@;
            playlist.media_parts.push(part);
            assert(parts_view(playlist.media_parts@) =~= parts_view(before).push(pv));
            assert(parts_view(playlist.media_parts@) =~= seq![pv]);
            assert(t.media is Some);
            let ghost expected = template_playlist(self.base(), *t).media_parts;
            assert(expected.len() == 1);
            assert(pv.media_segments =~= expected[0].media_segments);
            assert(pv == expected[0]);
            assert(parts_view(playlist.media_parts@) =~= expected);
        } else {
            assert(t.media is None);
        }
        playlist
    }
}


impl DASHExtractor {
    fn representation_stream_exec(&self, set: &AdaptationSet, rep: &Representation) -> (r:
        StreamSpec)
        requires
            rep.segment_template matches Some(t) ==> (t.media is Some ==> start_of(t)
                + template_segment_count() <= u64::MAX),
        ensures
            r@ == representation_stream(self.base(), *set, *rep),
    {
        let mut stream = StreamSpec::default();
        stream.id = rep.id.clone();
        stream.media_type = self.determine_media_type(&set.mime_type);
        stream.codecs = match &rep.codecs {
            Some(c) => c.clone(),
            None => match &set.codecs {
                Some(c) => c.clone(),
                None => String::new(),
            },
        };
        stream.language = clone_opt_string(&set.lang);
        stream.bandwidth = rep.bandwidth;
        let w = match rep.width {
            Some(w) => Some(w),
            None => set.width,
        };
        let h = match rep.height {
            Some(h) => Some(h),
            None => set.height,
        };
        match (w, h) {
            (Some(w), Some(h)) => {
                stream.resolution = Some(resolution_string(w, h));
            },
            _ => {},
        }
        stream.frame_rate = match &rep.frame_rate {
            Some(f) => Some(f.clone()),
            None => clone_opt_string(&set.frame_rate),
        };
        match &rep.segment_template {
            Some(t) => {
                let playlist = self.build_playlist(t);
                stream.playlist = Some(Box::new(playlist));
            },
            None => {},
        }
        stream
    }

    /// The streams of an MPD: one per representation, adaptation set by
    /// adaptation set.
    pub fn extract_streams(&self, mpd: &MPD) -> (r: Result<Vec<StreamSpec>, ExtractError>)
        requires
            numbers_in_range(*mpd),
        ensures
            r matches Ok(v) && streams_view(v@) == dash_streams(
                self.base(),
                mpd.period.adaptation_set@,
            ),
    {
        let sets = &mpd.period.adaptation_set;
        let mut streams: Vec<StreamSpec> = Vec::new();
        let mut i: usize = 0;
        assert(sets@.take(0) =~= Seq::<AdaptationSet>::empty());
        assert(streams_view(streams@) =~= Seq::<StreamSpecView>::empty());
        while i < sets.len()
            invariant
                i <= sets@.len(),
                sets == mpd.period.adaptation_set,
                numbers_in_range(*mpd),
                streams_view(streams@) == dash_streams(self.base(), sets@.take(i as int)),
            decreases sets@.len() - i,
        {
            let set = &sets[i];
            let ghost before = streams_view(streams@);
            let mut j: usize = 0;
            assert(before + Seq::new(0nat, |k: int| representation_stream(self.base(), *set, set.representation@[k])) =~= before);
            while j < set.representation.len()
                invariant
                    j <= set.representation@.len(),
                    set == &mpd.period.adaptation_set@[i as int],
                    i < mpd.period.adaptation_set@.len(),
                    numbers_in_range(*mpd),
                    streams_view(streams@) == before + Seq::new(
                        j as nat,
                        |k: int| representation_stream(self.base(), *set, set.representation@[k]),
                    ),
                decreases set.representation@.len() - j,
            {
                let rep = &set.representation[j];
                assert(mpd.period.adaptation_set@[i as int].representation@[j as int] == *rep);
                let st = self.representation_stream_exec(set, rep);
                let ghost prev = streams@;
                streams.push(st);
                assert(streams_view(streams@) =~= streams_view(prev).push(st@));
                j = j + 1;
                assert(streams_view(streams@) =~= before + Seq::new(
                    j as nat,
                    |k: int| representation_stream(self.base(), *set, set.representation@[k]),
                ));
            }
            assert(sets@.take(i + 1).drop_last() =~= sets@.take(i as int));
            assert(sets@.take(i + 1).last() == *set);
            assert(streams_view(streams@) =~= dash_streams(self.base(), sets@.take(i + 1)));
            i = i + 1;
        }
        assert(sets@.take(sets@.len() as int) =~= sets@);
        Ok(streams)
    }
}

/// Every representation gives exactly one stream.
pub proof fn lemma_one_stream_per_representation(base: Option<Seq<char>>, sets: Seq<AdaptationSet>)
    ensures
        dash_streams(base, sets).len() == representation_count(sets),
    decreases sets.len(),
{
    if sets.len() > 0 {
        lemma_one_stream_per_representation(base, sets.drop_last());
    }
}

/// The number of representations in the adaptation sets.
pub open spec fn representation_count(sets: Seq<AdaptationSet>) -> nat
    decreases sets.len(),
{
    if sets.len() == 0 {
        0
    } else {
        representation_count(sets.drop_last()) + sets.last().representation@.len()
    }
}

/// A template with a media pattern gives exactly ten segments, numbered
/// from its start number on.
pub proof fn lemma_template_segments(base: Option<Seq<char>>, t: SegmentTemplate)
    requires
        t.media is Some,
    ensures
        template_playlist(base, t).media_parts.len() == 1,
        template_playlist(base, t).media_parts[0].media_segments.len() == 10,
        forall|k: int|
            0 <= k < 10 ==> (#[trigger] template_playlist(base, t).media_parts[0].media_segments[k]).uri
                == resolve(base, replace(t.media->0@, "$Number$"@, decimal(start_of(t) + k as nat))),
{
}

/// The stream of representation `j` of adaptation set `k` stands at
/// position (representations in the sets before `k`) + `j`; it carries the
/// representation's id and bandwidth, and the media type that the set's
/// MIME type names: `video/...` video, `audio/...` audio, `text/...` or
/// `application/ttml...` subtitles, any other MIME type (or none) no type.
pub proof fn lemma_representation_stream_fields(
    base: Option<Seq<char>>,
    sets: Seq<AdaptationSet>,
    k: int,
    j: int,
)
    requires
        0 <= k < sets.len(),
        0 <= j < sets[k].representation@.len(),
    ensures
        ({
            let idx = representation_count(sets.take(k)) + j;
            let st = dash_streams(base, sets)[idx];
            let rep = sets[k].representation@[j];
            &&& idx < dash_streams(base, sets).len()
            &&& st.id == rep.id@
            &&& st.bandwidth == rep.bandwidth
            &&& sets[k].mime_type is None ==> st.media_type is None
            &&& sets[k].mime_type matches Some(m) ==> {
                &&& starts_with(m@, "video/"@) ==> st.media_type == Some(MediaType::VIDEO)
                &&& starts_with(m@, "audio/"@) ==> st.media_type == Some(MediaType::AUDIO)
                &&& starts_with(m@, "text/"@) ==> st.media_type == Some(MediaType::SUBTITLES)
                &&& starts_with(m@, "application/ttml"@) ==> st.media_type == Some(
                    MediaType::SUBTITLES,
                )
                &&& !starts_with(m@, "video/"@) && !starts_with(m@, "audio/"@) && !starts_with(
                    m@,
                    "text/"@,
                ) && !starts_with(m@, "application/ttml"@) ==> st.media_type is None
            }
        }),
    decreases sets.len(),
{
    let prev = sets.drop_last();
    lemma_one_stream_per_representation(base, prev);
    if k == sets.len() - 1 {
        assert(sets.take(k) =~= prev);
        let set = sets.last();
        let rep = set.representation@[j];
        assert(dash_streams(base, sets)[representation_count(prev) + j] == set_streams(base, set)[j]);
        match set.mime_type {
            Some(m) => {
                reveal_strlit("video/");
                reveal_strlit("audio/");
                reveal_strlit("text/");
                reveal_strlit("application/ttml");
                if starts_with(m@, "audio/"@) {
                    lemma_prefix_excludes(m@, "audio/"@, "video/"@, 0);
                }
                if starts_with(m@, "text/"@) {
                    lemma_prefix_excludes(m@, "text/"@, "video/"@, 0);
                    lemma_prefix_excludes(m@, "text/"@, "audio/"@, 0);
                }
                if starts_with(m@, "application/ttml"@) {
                    lemma_prefix_excludes(m@, "application/ttml"@, "video/"@, 0);
                    lemma_prefix_excludes(m@, "application/ttml"@, "audio/"@, 1);
                }
            },
            None => {},
        }
    } else {
        assert(sets.take(k) =~= prev.take(k));
        assert(prev[k] == sets[k]);
        lemma_representation_stream_fields(base, prev, k, j);
        lemma_count_prefix(prev, k);
        assert(dash_streams(base, sets) == dash_streams(base, prev) + set_streams(base, sets.last()));
    }
}

proof fn lemma_count_prefix(sets: Seq<AdaptationSet>, k: int)
    requires
        0 <= k < sets.len(),
    ensures
        representation_count(sets.take(k)) + sets[k].representation@.len() <= representation_count(
            sets,
        ),
    decreases sets.len(),
{
    if k == sets.len() - 1 {
        assert(sets.take(k) =~= sets.drop_last());
    } else {
        assert(sets.take(k) =~= sets.drop_last().take(k));
        lemma_count_prefix(sets.drop_last(), k);
    }
}

} // verus!
