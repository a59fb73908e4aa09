//! The decisions of downloading: which segment goes to which file, when to
//! retry, and in what order segment files are merged.
use vstd::prelude::*;

pub mod live;
pub mod simple;
use crate::entity::{
    parts_view, segments_view, MediaPartView, MediaSegmentView, Playlist, PlaylistView, StreamSpec,
    StreamSpecView, streams_view,
};
use crate::text::{
    chars_of, decimal, decimal_chars, ends_with, ends_with_str, push_all, push_str, starts_with,
    starts_with_str, string_of,
};

verus! {

// ---------------------------------------------------------------------------
// Retries
// ---------------------------------------------------------------------------

/// The number of attempts a segment download gets.
pub open spec fn max_attempts() -> nat {
    3
}

/// What to do after a download attempt.
#[derive(Debug, Clone, Copy, PartialEq, Eq, Structural)]
pub enum RetryAction {
    /// The attempt succeeded.
    Done,
    /// The attempt failed; wait a second and try again.
    RetryAfterPause,
    /// The attempt failed and no attempt is left.
    GiveUp,
}

/// The retry budget of one segment download.
#[derive(Debug, Clone, Copy)]
pub struct Retry {
    retries_left: u32,
}

impl Retry {
    /// Attempts still allowed after the current one fails.
    pub closed spec fn left(&self) -> nat {
        self.retries_left as nat
    }

    /// A fresh budget of three attempts.
    pub fn new() -> (r: Self)
        ensures
            r.left() == max_attempts(),
    {
        Retry { retries_left: 3 }
    }

    /// The budget after an attempt: a success is done; a failure uses one
    /// attempt, and gives up when none is left.
    pub fn on_result(&mut self, success: bool) -> (r: RetryAction)
        requires
            old(self).left() > 0,
        ensures
            success ==> r == RetryAction::Done && final(self).left() == old(self).left(),
            !success ==> final(self).left() == old(self).left() - 1,
            !success ==> (r == RetryAction::GiveUp <==> final(self).left() == 0),
            !success ==> (r == RetryAction::RetryAfterPause <==> final(self).left() > 0),
    {
        if success {
            RetryAction::Done
        } else {
            self.retries_left = self.retries_left - 1;
            if self.retries_left == 0 {
                RetryAction::GiveUp
            } else {
                RetryAction::RetryAfterPause
            }
        }
    }

    /// The number of the failed attempt being reported (1 after the first
    /// failure), out of `max_attempts`.
    pub fn failed_attempts(&self) -> (r: u32)
        requires
            self.left() <= max_attempts(),
        ensures
            r == max_attempts() - self.left(),
    {
        3 - self.retries_left
    }
}

// ---------------------------------------------------------------------------
// File names
// ---------------------------------------------------------------------------

/// `segment_<part>_<index>.ts`, the file of a segment of an on-demand stream.
pub open spec fn vod_segment_name(part: nat, index: nat) -> Seq<char> {
    "segment_"@ + decimal(part) + seq!['_'] + decimal(index) + ".ts"@
}

/// `segment_<index>.ts`, the file of a recorded live segment.
pub open spec fn live_segment_name(index: nat) -> Seq<char> {
    "segment_"@ + decimal(index) + ".ts"@
}

/// The file of a segment of an on-demand stream.
pub fn vod_segment_file_name(part: u64, index: u64) -> (r: String)
    ensures
        r@ == vod_segment_name(part as nat, index as nat),
{
    let mut v = chars_of("segment_");
    let p = decimal_chars(part);
    push_all(&mut v, p.as_slice());
    v.push('_');
    let i = decimal_chars(index);
    push_all(&mut v, i.as_slice());
    push_str(&mut v, ".ts");
    assert(v@ =~= vod_segment_name(part as nat, index as nat));
    string_of(v.as_slice())
}

/// The file of a recorded live segment.
pub fn live_segment_file_name(index: u64) -> (r: String)
    ensures
        r@ == live_segment_name(index as nat),
{
    let mut v = chars_of("segment_");
    let i = decimal_chars(index);
    push_all(&mut v, i.as_slice());
    push_str(&mut v, ".ts");
    assert(v@ =~= live_segment_name(index as nat));
    string_of(v.as_slice())
}

/// `<id><suffix>`: the merged file of a stream.
pub open spec fn merged_name(id: Seq<char>, suffix: Seq<char>) -> Seq<char> {
    id + suffix
}

/// The merged file of a downloaded stream: `<id>.ts`.
pub fn merged_file_name(id: &str) -> (r: String)
    ensures
        r@ == merged_name(id@, ".ts"@),
{
    let mut v = chars_of(id);
    push_str(&mut v, ".ts");
    string_of(v.as_slice())
}

/// The merged file of a recorded stream: `<id>_live.ts`.
pub fn live_merged_file_name(id: &str) -> (r: String)
    ensures
        r@ == merged_name(id@, "_live.ts"@),
{
    let mut v = chars_of(id);
    push_str(&mut v, "_live.ts");
    string_of(v.as_slice())
}

// ---------------------------------------------------------------------------
// Merging
// ---------------------------------------------------------------------------

/// `a` sorts before or equal to `b`: character by character, by code point,
/// a prefix first (the order of file names, whose UTF-8 bytes compare the same).
pub open spec fn lex_le(a: Seq<char>, b: Seq<char>) -> bool
    decreases a.len(),
{
    if a.len() == 0 {
        true
    } else if b.len() == 0 {
        false
    } else if (a[0] as u32) != (b[0] as u32) {
        (a[0] as u32) < (b[0] as u32)
    } else {
        lex_le(a.drop_first(), b.drop_first())
    }
}

pub proof fn lemma_lex_total(a: Seq<char>, b: Seq<char>)
    ensures
        lex_le(a, b) || lex_le(b, a),
    decreases a.len(),
{
    if a.len() > 0 && b.len() > 0 && (a[0] as u32) == (b[0] as u32) {
        lemma_lex_total(a.drop_first(), b.drop_first());
    }
}

pub proof fn lemma_lex_trans(a: Seq<char>, b: Seq<char>, c: Seq<char>)
    requires
        lex_le(a, b),
        lex_le(b, c),
    ensures
        lex_le(a, c),
    decreases a.len(),
{
    if a.len() > 0 && b.len() > 0 && c.len() > 0 && (a[0] as u32) == (b[0] as u32) && (b[0] as u32) == (c[0] as u32) {
        lemma_lex_trans(a.drop_first(), b.drop_first(), c.drop_first());
    }
}

/// The names are in ascending order.
pub open spec fn sorted(s: Seq<Seq<char>>) -> bool {
    forall|i: int, j: int| 0 <= i < j < s.len() ==> lex_le(#[trigger] s[i], #[trigger] s[j])
}

fn lex_le_exec(a: &[char], b: &[char]) -> (r: bool)
    ensures
        r == lex_le(a@, b@),
{
    let mut i: usize = 0;
    assert(a@.skip(0) =~= a@);
    assert(b@.skip(0) =~= b@);
    while i < a.len() && i < b.len() && (a[i] as u32) == (b[i] as u32)
        invariant
            i <= a@.len(),
            i <= b@.len(),
            lex_le(a@, b@) == lex_le(a@.skip(i as int), b@.skip(i as int)),
        decreases a@.len() - i,
    {
        assert(a@.skip(i as int).drop_first() =~= a@.skip(i + 1));
        assert(b@.skip(i as int).drop_first() =~= b@.skip(i + 1));
        i = i + 1;
    }
    if i == a.len() {
        true
    } else if i == b.len() {
        false
    } else {
        (a[i] as u32) < (b[i] as u32)
    }
}

/// A file name of a segment: `segment_…`, and for a live recording also
/// `….ts`.
pub open spec fn is_segment_file(name: Seq<char>, live: bool) -> bool {
    starts_with(name, "segment_"@) && (live ==> ends_with(name, ".ts"@))
}

/// The segment files among the names, in their order.
pub open spec fn segment_files(names: Seq<Seq<char>>, live: bool) -> Seq<Seq<char>>
    decreases names.len(),
{
    if names.len() == 0 {
        Seq::empty()
    } else {
        let prev = segment_files(names.drop_last(), live);
        if is_segment_file(names.last(), live) {
            prev.push(names.last())
        } else {
            prev
        }
    }
}

pub open spec fn names_view(v: Seq<String>) -> Seq<Seq<char>> {
    v.map_values(|s: String| s@)
}

/// Inserts `x` into the sorted `v`, after every name not above it.
fn insert_sorted(v: &mut Vec<String>, x: String)
    requires
        sorted(names_view(old(v)@)),
    ensures
        sorted(names_view(final(v)@)),
        names_view(final(v)@).to_multiset() == names_view(old(v)@).to_multiset().insert(x@),
{
    let ghost old_v = names_view(v@);
    let xc = chars_of(x.as_str());
    let mut j: usize = 0;
    while j < v.len()
        invariant
            j <= v@.len(),
            old_v == names_view(v@),
            xc@ == x@,
            forall|k: int| 0 <= k < j ==> lex_le(#[trigger] old_v[k], x@),
        ensures
            j <= v@.len(),
            old_v == names_view(v@),
            forall|k: int| 0 <= k < j ==> lex_le(#[trigger] old_v[k], x@),
            j < v@.len() ==> !lex_le(old_v[j as int], x@),
        decreases v@.len() - j,
    {
        let yc = chars_of(v[j].as_str());
        if !lex_le_exec(yc.as_slice(), xc.as_slice()) {
            break;
        }
        j = j + 1;
    }
    v.insert(j, x);
    let ghost t = names_view(v@);
    proof {
        assert(t =~= old_v.insert(j as int, x@));
        old_v.insert_ensures(j as int, x@);
        assert forall|a: int, b: int| 0 <= a < b < t.len() implies lex_le(#[trigger] t[a], #[trigger] t[b]) by {
            if b < j {
                assert(t[a] == old_v[a] && t[b] == old_v[b]);
            } else if b == j {
                assert(t[a] == old_v[a]);
            } else if a == j {
                assert(t[b] == old_v[b - 1]);
                lemma_lex_total(old_v[j as int], x@);
                if b - 1 > j {
                    lemma_lex_trans(x@, old_v[j as int], old_v[b - 1]);
                }
            } else if a < j {
                assert(t[a] == old_v[a] && t[b] == old_v[b - 1]);
            } else {
                assert(t[a] == old_v[a - 1] && t[b] == old_v[b - 1]);
            }
        }
        broadcast use vstd::seq_lib::group_to_multiset_ensures;
        assert(t.remove(j as int) =~= old_v);
        assert(t.to_multiset().count(x@) > 0) by {
            assert(t.contains(x@)) by {
                assert(t[j as int] == x@);
            }
        }
        assert(t.to_multiset() =~= old_v.to_multiset().insert(x@));
    }
}


fn is_segment_file_exec(name: &String, live: bool) -> (r: bool)
    ensures
        r == is_segment_file(name@, live),
{
    let n = chars_of(name.as_str());
    starts_with_str(n.as_slice(), "segment_") && (!live || ends_with_str(n.as_slice(), ".ts"))
}

/// The order in which segment files are merged: the segment files among
/// the directory's file names (`segment_…`, and `….ts` for a live
/// recording), sorted by name.
pub fn merge_order(names: &Vec<String>, live: bool) -> (r: Vec<String>)
    ensures
        sorted(names_view(r@)),
        names_view(r@).to_multiset() == segment_files(names_view(names@), live).to_multiset(),
{
    let ghost all = names_view(names@);
    let mut r: Vec<String> = Vec::new();
    let mut i: usize = 0;
    proof {
        broadcast use vstd::seq_lib::group_to_multiset_ensures;
        assert(names_view(r@) =~= Seq::<Seq<char>>::empty());
        assert(all.take(0) =~= Seq::<Seq<char>>::empty());
        assert(names_view(r@).to_multiset() =~= segment_files(all.take(0), live).to_multiset());
    }
    while i < names.len()
        invariant
            i <= names@.len(),
            all == names_view(names@),
            sorted(names_view(r@)),
            names_view(r@).to_multiset() == segment_files(all.take(i as int), live).to_multiset(),
        decreases names@.len() - i,
    {
        proof {
            broadcast use vstd::seq_lib::group_to_multiset_ensures;
            assert(all.take(i + 1).drop_last() =~= all.take(i as int));
            assert(all.take(i + 1).last() == names@[i as int]@);
        }
        if is_segment_file_exec(&names[i], live) {
            let n = names[i].clone();
            insert_sorted(&mut r, n);
        }
        i = i + 1;
    }
    assert(all.take(names@.len() as int) =~= all);
    r
}


} // verus!
