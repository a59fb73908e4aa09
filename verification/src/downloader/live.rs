//! Live recording: which segment each round downloads next.
use vstd::prelude::*;
use crate::downloader::{live_segment_file_name, live_segment_name, names_view};
use crate::entity::{opt_view, parts_view, MediaPartView, Playlist};

verus! {

// ---------------------------------------------------------------------------
// Live recording
// ---------------------------------------------------------------------------

/// The first position at or after segment `s` of part `p` (parts in order,
/// segments in order) whose URI was not downloaded yet.
pub open spec fn first_new(
    parts: Seq<MediaPartView>,
    downloaded: Seq<Seq<char>>,
    p: nat,
    s: nat,
) -> Option<(nat, nat)>
    decreases parts.len() - p, parts[p as int].media_segments.len() - s,
{
    if p >= parts.len() {
        None
    } else if s >= parts[p as int].media_segments.len() {
        first_new(parts, downloaded, p + 1, 0)
    } else if !downloaded.contains(parts[p as int].media_segments[s as int].uri) {
        Some((p, s))
    } else {
        first_new(parts, downloaded, p, s + 1)
    }
}

/// One segment to record: its URI and the file it goes to.
#[derive(Debug, Clone)]
pub struct LiveTask {
    pub uri: String,
    pub file_name: String,
}

/// What a recorder knows between rounds and segments.
pub struct LiveState {
    pub downloaded: Seq<Seq<char>>,
    pub index: nat,
    pub part: nat,
    pub seg: nat,
    pub current: Option<Seq<char>>,
}

/// The decisions of recording a live stream: each round walks the
/// playlist from the start, offering every segment not yet downloaded; a
/// round moves on to the next part whenever the count of segments tried
/// reaches a multiple of `take_count`.
#[derive(Debug, Clone)]
pub struct LiveRecorder {
    downloaded: Vec<String>,
    segment_index: u64,
    part: usize,
    seg: usize,
    current: Option<String>,
}

/// The pause between rounds: the given wait, else 5 seconds.
pub open spec fn pause_of(wait_time: Option<u64>) -> u64 {
    match wait_time {
        Some(w) => w,
        None => 5,
    }
}

/// The pause between rounds, in seconds.
pub fn round_pause(wait_time: Option<u64>) -> (r: u64)
    ensures
        r == pause_of(wait_time),
{
    match wait_time {
        Some(w) => w,
        None => 5,
    }
}

/// Whether a recording has run for its limit (both in nanoseconds); a
/// recording without a limit never reaches one.
pub open spec fn limit_reached(elapsed: u128, limit: Option<u128>) -> bool {
    match limit {
        Some(l) => elapsed >= l,
        None => false,
    }
}

/// Whether a recording that has run `elapsed` nanoseconds stops under the
/// limit `limit`.
pub fn record_limit_reached(elapsed: u128, limit: Option<u128>) -> (r: bool)
    ensures
        r == limit_reached(elapsed, limit),
{
    match limit {
        Some(l) => elapsed >= l,
        None => false,
    }
}

fn contains_string(v: &Vec<String>, x: &String) -> (r: bool)
    ensures
        r == names_view(v@).contains(x@),
{
    let mut i: usize = 0;
    while i < v.len()
        invariant
            i <= v@.len(),
            forall|k: int| 0 <= k < i ==> names_view(v@)[k] != x@,
        decreases v@.len() - i,
    {
        if v[i] == *x {
            assert(names_view(v@)[i as int] == x@);
            return true;
        }
        i = i + 1;
    }
    false
}

impl LiveRecorder {
    pub closed spec fn state(&self) -> LiveState {
        LiveState {
            downloaded: names_view(self.downloaded@),
            index: self.segment_index as nat,
            part: self.part as nat,
            seg: self.seg as nat,
            current: opt_view(self.current),
        }
    }

    /// A recorder that has downloaded nothing.
    pub fn new() -> (r: Self)
        ensures
            r.state().downloaded == Seq::<Seq<char>>::empty(),
            r.state().index == 0,
            r.state().part == 0 && r.state().seg == 0,
            r.state().current is None,
    {
        let r = LiveRecorder { downloaded: Vec::new(), segment_index: 0, part: 0, seg: 0, current: None };
        assert(r.state().downloaded =~= Seq::<Seq<char>>::empty());
        r
    }

    /// Starts a round at the first segment of the first part.
    pub fn begin_round(&mut self)
        ensures
            final(self).state() == (LiveState { part: 0, seg: 0, current: None, ..old(self).state() }),
    {
        self.part = 0;
        self.seg = 0;
        self.current = None;
    }

    /// The next segment of this round: the first at or after the round's
    /// position whose URI was not downloaded, going to file
    /// `segment_<count>.ts`; `None` once the round is over.
    pub fn next_segment(&mut self, playlist: &Playlist) -> (r: Option<LiveTask>)
        ensures
            match first_new(
                playlist@.media_parts,
                old(self).state().downloaded,
                old(self).state().part,
                old(self).state().seg,
            ) {
                Some((p, s)) => r matches Some(t) && t.uri@ == playlist@.media_parts[p as int].media_segments[s as int].uri
                    && t.file_name@ == live_segment_name(old(self).state().index)
                    && final(self).state() == (LiveState {
                        part: p,
                        seg: s,
                        current: Some(t.uri@),
                        ..old(self).state()
                    }),
                None => r is None && final(self).state() == (LiveState {
                    current: None,
                    ..old(self).state()
                }),
            },
            r matches Some(t) ==> !old(self).state().downloaded.contains(t.uri@),
    {
        proof {
            lemma_no_repeat_downloads(
                playlist@.media_parts,
                self.state().downloaded,
                self.state().part,
                self.state().seg,
            );
        }
        let parts = &playlist.media_parts;
        let ghost pv = playlist@.media_parts;
        let ghost dl = self.state().downloaded;
        let mut p = self.part;
        let mut s = self.seg;
        loop
            invariant
                pv == playlist@.media_parts,
                pv == parts_view(parts@),
                dl == names_view(self.downloaded@),
                self.state() == old(self).state(),
                first_new(pv, dl, p as nat, s as nat) == first_new(pv, dl, old(self).state().part, old(self).state().seg),
            decreases parts@.len() - p, pv[p as int].media_segments.len() - s,
        {
            if p >= parts.len() {
                self.current = None;
                return None;
            }
            let segs = &parts[p].media_segments;
            assert(pv[p as int] == parts@[p as int]@);
            if s >= segs.len() {
                p = p + 1;
                s = 0;
            } else {
                assert(pv[p as int].media_segments[s as int] == segs@[s as int]@);
                if !contains_string(&self.downloaded, &segs[s].uri) {
                    let uri = segs[s].uri.clone();
                    self.part = p;
                    self.seg = s;
                    self.current = Some(segs[s].uri.clone());
                    let file_name = live_segment_file_name(self.segment_index);
                    return Some(LiveTask { uri, file_name });
                }
                s = s + 1;
            }
        }
    }

    /// Records how the offered segment went: a success adds its URI to the
    /// downloaded ones; either way the count grows by one, and the round
    /// moves to the next part when the count reaches a multiple of
    /// `take_count`, to the next segment otherwise.
    pub fn finish_segment(&mut self, success: bool, take_count: u64)
        requires
            take_count > 0,
            old(self).state().current is Some,
            old(self).state().index < u64::MAX,
        ensures
            final(self).state().downloaded == if success {
                old(self).state().downloaded.push(old(self).state().current->0)
            } else {
                old(self).state().downloaded
            },
            final(self).state().index == old(self).state().index + 1,
            final(self).state().current is None,
            (old(self).state().index + 1) % (take_count as nat) == 0 ==> final(self).state().part
                == (if old(self).state().part < usize::MAX {
                old(self).state().part + 1
            } else {
                old(self).state().part
            }) && final(self).state().seg == 0,
            (old(self).state().index + 1) % (take_count as nat) != 0 ==> final(self).state().part
                == old(self).state().part && final(self).state().seg == (if old(self).state().seg
                < usize::MAX {
                old(self).state().seg + 1
            } else {
                old(self).state().seg
            }),
    {
        let cur = self.current.take();
        match cur {
            Some(uri) => {
                if success {
                    let ghost before = self.downloaded@;
                    self.downloaded.push(uri);
                    assert(names_view(self.downloaded@) =~= names_view(before).push(
                        old(self).state().current->0,
                    ));
                }
            },
            None => {},
        }
        self.segment_index = self.segment_index + 1;
        if self.segment_index % take_count == 0 {
            self.part = if self.part < usize::MAX { self.part + 1 } else { self.part };
            self.seg = 0;
        } else {
            self.seg = if self.seg < usize::MAX { self.seg + 1 } else { self.seg };
        }
    }

    /// The number of segments tried so far, over every round.
    pub fn segments_tried(&self) -> (r: u64)
        ensures
            r == self.state().index,
    {
        self.segment_index
    }
}

/// A round never offers a segment whose URI was already downloaded.
pub proof fn lemma_no_repeat_downloads(
    parts: Seq<MediaPartView>,
    downloaded: Seq<Seq<char>>,
    p: nat,
    s: nat,
)
    ensures
        first_new(parts, downloaded, p, s) matches Some((q, t)) ==> q < parts.len() && t
            < parts[q as int].media_segments.len() && !downloaded.contains(
            parts[q as int].media_segments[t as int].uri,
        ) && (p < q || (p == q && s <= t)),
    decreases parts.len() - p, parts[p as int].media_segments.len() - s,
{
    if p < parts.len() {
        if s >= parts[p as int].media_segments.len() {
            lemma_no_repeat_downloads(parts, downloaded, p + 1, 0);
        } else if downloaded.contains(parts[p as int].media_segments[s as int].uri) {
            lemma_no_repeat_downloads(parts, downloaded, p, s + 1);
        }
    }
}

} // verus!
