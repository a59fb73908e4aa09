//! On-demand downloads: every segment of a playlist to its own file.
use vstd::prelude::*;
use crate::downloader::vod_segment_file_name;
use crate::downloader::vod_segment_name;
use crate::entity::{parts_view, segments_view, MediaPartView, Playlist};

verus! {

// ---------------------------------------------------------------------------
// On-demand downloads
// ---------------------------------------------------------------------------

/// One download: a segment's URI and the file it goes to.
#[derive(Debug, Clone)]
pub struct DownloadTask {
    pub uri: String,
    pub file_name: String,
}

pub open spec fn tasks_view(v: Seq<DownloadTask>) -> Seq<(Seq<char>, Seq<char>)> {
    v.map_values(|t: DownloadTask| (t.uri@, t.file_name@))
}

/// The downloads of one part, segment by segment.
pub open spec fn part_tasks(part: MediaPartView, p: nat) -> Seq<(Seq<char>, Seq<char>)> {
    Seq::new(
        part.media_segments.len(),
        |i: int| (part.media_segments[i].uri, vod_segment_name(p, i as nat)),
    )
}

/// The downloads of a playlist's parts, part by part.
pub open spec fn plan_of(parts: Seq<MediaPartView>) -> Seq<(Seq<char>, Seq<char>)>
    decreases parts.len(),
{
    if parts.len() == 0 {
        Seq::empty()
    } else {
        plan_of(parts.drop_last()) + part_tasks(parts.last(), (parts.len() - 1) as nat)
    }
}

/// The number of segments of a playlist's parts.
pub open spec fn segment_count(parts: Seq<MediaPartView>) -> nat
    decreases parts.len(),
{
    if parts.len() == 0 {
        0
    } else {
        segment_count(parts.drop_last()) + parts.last().media_segments.len()
    }
}

/// The downloads of an on-demand playlist, in playlist order: segment `i`
/// of part `p` goes to `segment_<p>_<i>.ts`.
pub fn download_plan(playlist: &Playlist) -> (r: Vec<DownloadTask>)
    ensures
        tasks_view(r@) == plan_of(playlist@.media_parts),
{
    let parts = &playlist.media_parts;
    let ghost pv = parts_view(parts@);
    let mut r: Vec<DownloadTask> = Vec::new();
    let mut p: usize = 0;
    assert(pv.take(0) =~= Seq::<MediaPartView>::empty());
    assert(tasks_view(r@) =~= Seq::<(Seq<char>, Seq<char>)>::empty());
    while p < parts.len()
        invariant
            p <= parts@.len(),
            pv == parts_view(parts@),
            pv == playlist@.media_parts,
            tasks_view(r@) == plan_of(pv.take(p as int)),
        decreases parts@.len() - p,
    {
        let part = &parts[p];
        let segs = &part.media_segments;
        let ghost before = tasks_view(r@);
        let ghost sv = segments_view(segs@);
        let mut i: usize = 0;
        assert(before + Seq::new(0nat, |k: int| (sv[k].uri, vod_segment_name(p as nat, k as nat))) =~= before);
        while i < segs.len()
            invariant
                i <= segs@.len(),
                sv == segments_view(segs@),
                tasks_view(r@) == before + Seq::new(
                    i as nat,
                    |k: int| (sv[k].uri, vod_segment_name(p as nat, k as nat)),
                ),
            decreases segs@.len() - i,
        {
            let t = DownloadTask {
                uri: segs[i].uri.clone(),
                file_name: vod_segment_file_name(p as u64, i as u64),
            };
            let ghost prev = r@;
            r.push(t);
            assert(tasks_view(r@) =~= tasks_view(prev).push((t.uri@, t.file_name@)));
            i = i + 1;
            assert(tasks_view(r@) =~= before + Seq::new(
                i as nat,
                |k: int| (sv[k].uri, vod_segment_name(p as nat, k as nat)),
            ));
        }
        assert(pv.take(p + 1).drop_last() =~= pv.take(p as int));
        assert(pv.take(p + 1).last() == part@);
        assert(part_tasks(part@, p as nat) =~= Seq::new(
            i as nat,
            |k: int| (sv[k].uri, vod_segment_name(p as nat, k as nat)),
        ));
        assert(tasks_view(r@) =~= plan_of(pv.take(p + 1)));
        p = p + 1;
    }
    assert(pv.take(parts@.len() as int) =~= pv);
    r
}

/// Every segment of the playlist gets exactly one download.
pub proof fn lemma_plan_covers_every_segment(parts: Seq<MediaPartView>)
    ensures
        plan_of(parts).len() == segment_count(parts),
    decreases parts.len(),
{
    if parts.len() > 0 {
        lemma_plan_covers_every_segment(parts.drop_last());
    }
}

} // verus!
