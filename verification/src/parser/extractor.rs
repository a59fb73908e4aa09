//! Telling manifest formats apart.
use vstd::prelude::*;
use std::collections::HashMap;
use crate::entity::{clone_opt_string, opt_view, streams_view, StreamSpec, StreamSpecView};
use crate::parser::hls::{extract, HLSExtractor};
use crate::parser::dash::{dash_streams, numbers_in_range, DASHExtractor, MPD};
use crate::parser::mss::{manifest_in_range, mss_streams, MSSExtractor, SmoothStreamingMedia};
use crate::i18n::{lookup, table_view};
use crate::text::{contains, contains_str, ends_with, ends_with_str, chars_of, eq_str};

verus! {

/// The manifest formats.
#[allow(non_camel_case_types)]
#[derive(Debug, Clone, Copy, PartialEq, Eq, Structural)]
pub enum ExtractorType {
    HTTP_LIVE,
    MPEG_DASH,
    MSS,
    UNKNOWN,
}

/// Why streams could not be extracted.
#[derive(Debug, Clone, Copy, PartialEq, Eq, Structural)]
pub enum ExtractError {
    /// The manifest's format is not known.
    UnknownStreamType,
    /// A DASH or Smooth Streaming manifest was not handed over read from
    /// its XML.
    ManifestNotRead,
}


/// The format of a manifest: told by a marker in its content first, by the
/// extension of its URL otherwise.
pub open spec fn detect_type(content: Seq<char>, url: Seq<char>) -> ExtractorType {
    if contains(content, "#EXTM3U"@) {
        ExtractorType::HTTP_LIVE
    } else if contains(content, "<MPD"@) {
        ExtractorType::MPEG_DASH
    } else if contains(content, "<SmoothStreamingMedia"@) {
        ExtractorType::MSS
    } else if ends_with(url, ".m3u8"@) {
        ExtractorType::HTTP_LIVE
    } else if ends_with(url, ".mpd"@) {
        ExtractorType::MPEG_DASH
    } else if ends_with(url, ".ism"@) {
        ExtractorType::MSS
    } else {
        ExtractorType::UNKNOWN
    }
}

/// The format of a manifest with this content, fetched from this URL.
pub fn detect_extractor_type(content: &str, url: &str) -> (r: ExtractorType)
    ensures
        r == detect_type(content@, url@),
{
    let c = chars_of(content);
    let u = chars_of(url);
    if contains_str(c.as_slice(), "#EXTM3U") {
        ExtractorType::HTTP_LIVE
    } else if contains_str(c.as_slice(), "<MPD") {
        ExtractorType::MPEG_DASH
    } else if contains_str(c.as_slice(), "<SmoothStreamingMedia") {
        ExtractorType::MSS
    } else if ends_with_str(u.as_slice(), ".m3u8") {
        ExtractorType::HTTP_LIVE
    } else if ends_with_str(u.as_slice(), ".mpd") {
        ExtractorType::MPEG_DASH
    } else if ends_with_str(u.as_slice(), ".ism") {
        ExtractorType::MSS
    } else {
        ExtractorType::UNKNOWN
    }
}

/// A table without an entry for `key` looks it up to nothing, and one with
/// such an entry to something.
pub proof fn lemma_lookup_none(table: Seq<(Seq<char>, Seq<char>)>, key: Seq<char>)
    ensures
        lookup(table, key) is None <==> forall|i: int| 0 <= i < table.len() ==> (#[trigger] table[i]).0 != key,
    decreases table.len(),
{
    if table.len() > 0 {
        lemma_lookup_none(table.drop_last(), key);
        assert forall|i: int| 0 <= i < table.len() - 1 implies table.drop_last()[i] == #[trigger] table[i] by {}
    }
}

/// The name under which the fetched manifest is kept.
pub open spec fn source_name() -> Seq<char> {
    "source.txt"@
}

/// The table after setting `name` to `text`: an entry with that name is
/// replaced in place, otherwise one is added at the end.
pub open spec fn set_file(
    files: Seq<(Seq<char>, Seq<char>)>,
    name: Seq<char>,
    text: Seq<char>,
) -> Seq<(Seq<char>, Seq<char>)> {
    if exists|i: int| 0 <= i < files.len() && (#[trigger] files[i]).0 == name {
        files.update(choose|i: int| 0 <= i < files.len() && (#[trigger] files[i]).0 == name, (name, text))
    } else {
        files.push((name, text))
    }
}

/// The index of the entry named `name`, the first one where there are several.
fn find_file(files: &Vec<(String, String)>, name: &str) -> (r: Option<usize>)
    ensures
        match r {
            Some(i) => i < files@.len() && table_view(files@)[i as int].0 == name@ && forall|j: int|
                0 <= j < i ==> (#[trigger] table_view(files@)[j]).0 != name@,
            None => forall|j: int|
                0 <= j < files@.len() ==> (#[trigger] table_view(files@)[j]).0 != name@,
        },
{
    let mut i: usize = 0;
    while i < files.len()
        invariant
            i <= files@.len(),
            forall|j: int| 0 <= j < i ==> (#[trigger] table_view(files@)[j]).0 != name@,
        decreases files@.len() - i,
    {
        let n = chars_of(files[i].0.as_str());
        if eq_str(n.as_slice(), name) {
            return Some(i);
        }
        i = i + 1;
    }
    None
}

/// What a manifest source holds: its format and the raw files fetched.
#[derive(Debug, Clone)]
pub struct StreamExtractor {
    base_url: Option<String>,
    headers: HashMap<String, String>,
    extractor_type: ExtractorType,
    raw_files: Vec<(String, String)>,
}

impl StreamExtractor {
    pub closed spec fn base(&self) -> Option<Seq<char>> {
        opt_view(self.base_url)
    }

    pub closed spec fn header_map(&self) -> Map<String, String> {
        self.headers@
    }

    pub closed spec fn kind(&self) -> ExtractorType {
        self.extractor_type
    }

    /// The raw files by name (names are distinct).
    pub closed spec fn files(&self) -> Seq<(Seq<char>, Seq<char>)> {
        table_view(self.raw_files@)
    }

    /// No two raw files share a name, and a source whose format is known
    /// holds its manifest.
    pub closed spec fn wf(&self) -> bool {
        &&& forall|i: int, j: int|
            0 <= i < j < self.files().len() ==> (#[trigger] self.files()[i]).0
                != (#[trigger] self.files()[j]).0
        &&& self.kind() != ExtractorType::UNKNOWN ==> exists|i: int|
            0 <= i < self.files().len() && (#[trigger] self.files()[i]).0 == source_name()
    }

    /// A source with nothing fetched yet.
    pub fn new(base_url: Option<String>, headers: HashMap<String, String>) -> (r: Self)
        ensures
            r.base() == opt_view(base_url),
            r.header_map() == headers@,
            r.kind() == ExtractorType::UNKNOWN,
            r.files() == Seq::<(Seq<char>, Seq<char>)>::empty(),
            r.wf(),
    {
        let r = StreamExtractor {
            base_url,
            headers,
            extractor_type: ExtractorType::UNKNOWN,
            raw_files: Vec::new(),
        };
        assert(r.files() =~= Seq::<(Seq<char>, Seq<char>)>::empty());
        r
    }

    /// Records a fetched manifest: tells its format and keeps its text as
    /// `source.txt`.
    pub fn load_source(&mut self, content: String, url: &str)
        requires
            old(self).wf(),
        ensures
            final(self).wf(),
            final(self).kind() == detect_type(content@, url@),
            final(self).files() == set_file(old(self).files(), source_name(), content@),
            final(self).base() == old(self).base(),
            final(self).header_map() == old(self).header_map(),
    {
        let kind = detect_extractor_type(content.as_str(), url);
        let ghost files = self.files();
        assert(files == old(self).files());
        match find_file(&self.raw_files, "source.txt") {
            Some(i) => {
                proof {
                    assert(files[i as int].0 == source_name());
                    let c = choose|k: int| 0 <= k < files.len() && (#[trigger] files[k]).0 == source_name();
                    if c != i {
                        if c < i {
                            assert(files[c].0 != source_name());
                        } else {
                            assert(files[i as int].0 != files[c].0);
                        }
                    }
                }
                let name = String::from_str("source.txt");
                self.raw_files.set(i, (name, content));
                assert(self.files() =~= files.update(i as int, (source_name(), content@)));
                assert forall|a: int, b: int|
                    0 <= a < b < self.files().len() implies (#[trigger] self.files()[a]).0
                        != (#[trigger] self.files()[b]).0 by {
                    assert(files[a].0 != files[b].0);
                }
                assert(self.files()[i as int].0 == source_name());
            },
            None => {
                let name = String::from_str("source.txt");
                self.raw_files.push((name, content));
                assert(self.files() =~= files.push((source_name(), content@)));
                assert forall|a: int, b: int|
                    0 <= a < b < self.files().len() implies (#[trigger] self.files()[a]).0
                        != (#[trigger] self.files()[b]).0 by {
                    if b < files.len() {
                        assert(files[a].0 != files[b].0);
                    }
                }
                assert(self.files()[files.len() as int].0 == source_name());
            },
        }
        self.extractor_type = kind;
    }

    /// The raw files fetched, by name.
    pub fn get_raw_files(&self) -> (r: &Vec<(String, String)>)
        ensures
            table_view(r@) == self.files(),
    {
        &self.raw_files
    }

    /// The format of the loaded manifest.
    pub fn get_extractor_type(&self) -> (r: ExtractorType)
        ensures
            r == self.kind(),
    {
        self.extractor_type
    }

    /// The text of the loaded manifest.
    pub fn source(&self) -> (r: Option<&String>)
        ensures
            match r {
                Some(s) => lookup(self.files(), source_name()) == Some(s@),
                None => lookup(self.files(), source_name()) is None,
            },
    {
        let mut i: usize = self.raw_files.len();
        assert(self.files().take(i as int) =~= self.files());
        while i > 0
            invariant
                i <= self.raw_files@.len(),
                lookup(self.files(), source_name()) == lookup(self.files().take(i as int), source_name()),
            decreases i,
        {
            let entry = &self.raw_files[i - 1];
            let n = chars_of(entry.0.as_str());
            assert(self.files().take(i as int).last() == (entry.0@, entry.1@));
            if eq_str(n.as_slice(), "source.txt") {
                return Some(&entry.1);
            }
            assert(self.files().take(i as int).drop_last() =~= self.files().take(i - 1));
            i = i - 1;
        }
        None
    }

    /// The streams of the loaded HLS manifest, read with this source's
    /// base URL.
    pub fn extract_hls_streams(&self) -> (r: Result<Vec<StreamSpec>, ExtractError>)
        requires
            self.wf(),
            self.kind() == ExtractorType::HTTP_LIVE,
        ensures
            r matches Ok(v) && exists|src: Seq<char>|
                lookup(self.files(), source_name()) == Some(src) && streams_view(v@) == extract(
                    src,
                    self.base(),
                ),
    {
        match self.source() {
            Some(src) => {
                let hls = HLSExtractor::new(clone_opt_string(&self.base_url), self.headers.clone());
                hls.extract_streams(src.as_str())
            },
            None => {
                proof {
                    lemma_lookup_none(self.files(), source_name());
                }
                Err(ExtractError::UnknownStreamType)
            },
        }
    }

    /// The streams of the loaded manifest, by its format: an HLS manifest
    /// is read from the loaded text; a DASH or Smooth Streaming manifest is
    /// the document read from that text's XML, handed over as `mpd` or
    /// `media`; a manifest of unknown format gives `UnknownStreamType`.
    pub fn extract_streams(&self, mpd: Option<&MPD>, media: Option<&SmoothStreamingMedia>) -> (r:
        Result<Vec<StreamSpec>, ExtractError>)
        requires
            self.wf(),
            mpd matches Some(m) ==> numbers_in_range(*m),
            media matches Some(m) ==> manifest_in_range(*m),
        ensures
            self.kind() == ExtractorType::HTTP_LIVE ==> (r matches Ok(v) && exists|src: Seq<char>|
                lookup(self.files(), source_name()) == Some(src) && streams_view(v@) == extract(
                    src,
                    self.base(),
                )),
            self.kind() == ExtractorType::MPEG_DASH ==> match mpd {
                Some(m) => r matches Ok(v) && streams_view(v@) == dash_streams(
                    self.base(),
                    m.period.adaptation_set@,
                ),
                None => r == Err::<Vec<StreamSpec>, ExtractError>(ExtractError::ManifestNotRead),
            },
            self.kind() == ExtractorType::MSS ==> match media {
                Some(m) => r matches Ok(v) && streams_view(v@) == mss_streams(
                    self.base(),
                    m.stream_index@,
                ),
                None => r == Err::<Vec<StreamSpec>, ExtractError>(ExtractError::ManifestNotRead),
            },
            self.kind() == ExtractorType::UNKNOWN ==> r == Err::<Vec<StreamSpec>, ExtractError>(
                ExtractError::UnknownStreamType,
            ),
    {
        match self.extractor_type {
            ExtractorType::HTTP_LIVE => self.extract_hls_streams(),
            ExtractorType::MPEG_DASH => match mpd {
                Some(m) => {
                    let dash = DASHExtractor::new(clone_opt_string(&self.base_url), self.headers.clone());
                    dash.extract_streams(m)
                },
                None => Err(ExtractError::ManifestNotRead),
            },
            ExtractorType::MSS => match media {
                Some(m) => {
                    let mss = MSSExtractor::new(clone_opt_string(&self.base_url), self.headers.clone());
                    mss.extract_streams(m)
                },
                None => Err(ExtractError::ManifestNotRead),
            },
            ExtractorType::UNKNOWN => Err(ExtractError::UnknownStreamType),
        }
    }

    /// Playlists of the streams are not fetched further: the streams stay as
    /// they are.
    pub fn fetch_playlist(&mut self, streams: &mut Vec<StreamSpec>)
        ensures
            final(streams)@ == old(streams)@,
            *final(self) == *old(self),
    {
    }
}


/// A marker in the content decides the format, whatever the URL says.
pub proof fn lemma_content_decides(content: Seq<char>, url: Seq<char>)
    ensures
        contains(content, "#EXTM3U"@) ==> detect_type(content, url) == ExtractorType::HTTP_LIVE,
        !contains(content, "#EXTM3U"@) && contains(content, "<MPD"@) ==> detect_type(content, url)
            == ExtractorType::MPEG_DASH,
        !contains(content, "#EXTM3U"@) && !contains(content, "<MPD"@) && contains(
            content,
            "<SmoothStreamingMedia"@,
        ) ==> detect_type(content, url) == ExtractorType::MSS,
{
}

proof fn lemma_lookup_unique(table: Seq<(Seq<char>, Seq<char>)>, key: Seq<char>, c: int)
    requires
        0 <= c < table.len(),
        table[c].0 == key,
        forall|j: int| 0 <= j < table.len() && j != c ==> (#[trigger] table[j]).0 != key,
    ensures
        lookup(table, key) == Some(table[c].1),
    decreases table.len(),
{
    if c != table.len() - 1 {
        let t = table.drop_last();
        assert forall|j: int| 0 <= j < t.len() && j != c implies (#[trigger] t[j]).0 != key by {
            assert(t[j] == table[j]);
        }
        lemma_lookup_unique(t, key, c);
    }
}

/// What was loaded is what is read back: after `load_source` the source
/// text is the content just recorded.
pub proof fn lemma_source_after_load(files: Seq<(Seq<char>, Seq<char>)>, content: Seq<char>)
    requires
        forall|i: int, j: int|
            0 <= i < j < files.len() ==> (#[trigger] files[i]).0 != (#[trigger] files[j]).0,
    ensures
        lookup(set_file(files, source_name(), content), source_name()) == Some(content),
{
    let t = set_file(files, source_name(), content);
    if exists|i: int| 0 <= i < files.len() && (#[trigger] files[i]).0 == source_name() {
        let c = choose|i: int| 0 <= i < files.len() && (#[trigger] files[i]).0 == source_name();
        assert forall|j: int| 0 <= j < t.len() && j != c implies (#[trigger] t[j]).0 != source_name() by {
            if j < c {
                assert(files[j].0 != files[c].0);
            } else {
                assert(files[c].0 != files[j].0);
            }
        }
        lemma_lookup_unique(t, source_name(), c);
    } else {
        assert(t.last() == (source_name(), content));
    }
}

} // verus!
