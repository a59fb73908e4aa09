//! Selecting streams by `key=regex` conditions.
use vstd::prelude::*;
use crate::entity::{streams_view, StreamSpec, StreamSpecView};
use crate::text::{chars_of, eq_str, number_text, number_text_chars, split, split_chars, split_once, split_once_chars, string_of, views};

verus! {

/// `regex::Regex::new` accepts the pattern `p`.
pub uninterp spec fn regex_compiles(p: Seq<char>) -> bool;

/// `Regex::is_match` of the regex compiled from `p` finds a match in `t`.
pub uninterp spec fn regex_matches(p: Seq<char>, t: Seq<char>) -> bool;

#[verifier::external_type_specification]
#[verifier::external_body]
pub struct ExRegexError(regex::Error);

/// Compiles `pattern` with `regex::Regex::new` and, where that succeeds,
/// asks `Regex::is_match` whether it matches anywhere in `text`. The outcome
/// is given only as the names `regex_compiles` and `regex_matches`: what a
/// pattern means is the `regex` crate's, and nothing of it is stated here.
#[verifier::external_body]
fn regex_search(pattern: &str, text: &str) -> (r: Result<bool, regex::Error>)
    ensures
        r is Ok <==> regex_compiles(pattern@),
        r matches Ok(b) ==> b == regex_matches(pattern@, text@),
{
    match regex::Regex::new(pattern) {
        Ok(re) => Ok(re.is_match(text)),
        Err(e) => Err(e),
    }
}

/// A condition `p` lets `t` pass: a pattern that does not compile is ignored.
pub open spec fn regex_passes(p: Seq<char>, t: Seq<char>) -> bool {
    regex_compiles(p) ==> regex_matches(p, t)
}

/// A pattern lets an optional field pass only where the field is present.
pub open spec fn regex_passes_opt(p: Seq<char>, t: Option<Seq<char>>) -> bool {
    match t {
        Some(x) => regex_passes(p, x),
        None => false,
    }
}

/// The frame rate as its number prints (see `number_text`).
pub open spec fn printed_frame_rate(f: Option<Seq<char>>) -> Option<Seq<char>> {
    match f {
        Some(t) => Some(number_text(t)),
        None => None,
    }
}

/// The stream meets the condition `key=value`; unknown keys are ignored;
/// `frame` is matched against the frame rate as its number prints.
pub open spec fn condition_holds(s: StreamSpecView, key: Seq<char>, value: Seq<char>) -> bool {
    if key == "id"@ {
        regex_passes(value, s.id)
    } else if key == "lang"@ {
        regex_passes_opt(value, s.language)
    } else if key == "name"@ {
        regex_passes_opt(value, s.name)
    } else if key == "codecs"@ {
        regex_passes(value, s.codecs)
    } else if key == "res"@ {
        regex_passes_opt(value, s.resolution)
    } else if key == "frame"@ {
        regex_passes_opt(value, printed_frame_rate(s.frame_rate))
    } else {
        true
    }
}

/// The stream meets every condition.
pub open spec fn matches_conditions(s: StreamSpecView, conds: Seq<(Seq<char>, Seq<char>)>) -> bool {
    forall|i: int| 0 <= i < conds.len() ==> condition_holds(s, #[trigger] conds[i].0, conds[i].1)
}

/// The `key=value` pairs among the given parts; a part without `=` is skipped.
pub open spec fn conditions_of(parts: Seq<Seq<char>>) -> Seq<(Seq<char>, Seq<char>)>
    decreases parts.len(),
{
    if parts.len() == 0 {
        Seq::empty()
    } else {
        let prev = conditions_of(parts.drop_last());
        match split_once(parts.last(), '=') {
            Some(kv) => prev.push(kv),
            None => prev,
        }
    }
}

/// The conditions of a filter text: `:`-separated `key=value` parts.
pub open spec fn parse_filter_spec(f: Seq<char>) -> Seq<(Seq<char>, Seq<char>)> {
    conditions_of(split(f, ':'))
}

/// The streams that meet the conditions (`keep`) or that fail them (`!keep`),
/// in their order.
pub open spec fn select(
    streams: Seq<StreamSpecView>,
    conds: Seq<(Seq<char>, Seq<char>)>,
    keep: bool,
) -> Seq<StreamSpecView>
    decreases streams.len(),
{
    if streams.len() == 0 {
        Seq::empty()
    } else {
        let prev = select(streams.drop_last(), conds, keep);
        if matches_conditions(streams.last(), conds) == keep {
            prev.push(streams.last())
        } else {
            prev
        }
    }
}

pub open spec fn pairs_view(v: Seq<(String, String)>) -> Seq<(Seq<char>, Seq<char>)> {
    v.map_values(|p: (String, String)| (p.0@, p.1@))
}

/// The conditions of a filter text.
pub fn parse_filter(filter: &str) -> (r: Vec<(String, String)>)
    ensures
        pairs_view(r@) == parse_filter_spec(filter@),
{
    let text = chars_of(filter);
    let parts = split_chars(text.as_slice(), ':');
    let ghost ps = views(parts@);
    let mut r: Vec<(String, String)> = Vec::new();
    let mut i: usize = 0;
    assert(ps.take(0) =~= Seq::<Seq<char>>::empty());
    assert(pairs_view(r@) =~= Seq::<(Seq<char>, Seq<char>)>::empty());
    while i < parts.len()
        invariant
            i <= parts@.len(),
            ps == views(parts@),
            pairs_view(r@) == conditions_of(ps.take(i as int)),
        decreases parts@.len() - i,
    {
        assert(ps.take(i + 1).drop_last() =~= ps.take(i as int));
        assert(ps[i as int] == parts@[i as int]@);
        match split_once_chars(parts[i].as_slice(), '=') {
            Some((k, v)) => {
                let pair = (string_of(k.as_slice()), string_of(v.as_slice()));
                let ghost before = r@;
                r.push(pair);
                assert(pairs_view(r@) =~= pairs_view(before).push((k@, v@)));
            },
            None => {},
        }
        i = i + 1;
    }
    assert(ps.take(parts@.len() as int) =~= ps);
    r
}

fn passes(pattern: &String, text: &String) -> (r: bool)
    ensures
        r == regex_passes(pattern@, text@),
{
    match regex_search(pattern.as_str(), text.as_str()) {
        Ok(b) => b,
        Err(_) => true,
    }
}

fn passes_opt(pattern: &String, text: &Option<String>) -> (r: bool)
    ensures
        r == regex_passes_opt(pattern@, crate::entity::opt_view(*text)),
{
    match text {
        Some(t) => passes(pattern, t),
        None => false,
    }
}

fn condition_holds_exec(s: &StreamSpec, key: &String, value: &String) -> (r: bool)
    ensures
        r == condition_holds(s@, key@, value@),
{
    let k = chars_of(key.as_str());
    let k = k.as_slice();
    if eq_str(k, "id") {
        passes(value, &s.id)
    } else if eq_str(k, "lang") {
        passes_opt(value, &s.language)
    } else if eq_str(k, "name") {
        passes_opt(value, &s.name)
    } else if eq_str(k, "codecs") {
        passes(value, &s.codecs)
    } else if eq_str(k, "res") {
        passes_opt(value, &s.resolution)
    } else if eq_str(k, "frame") {
        match &s.frame_rate {
            Some(f) => {
                let fc = chars_of(f.as_str());
                let printed = string_of(number_text_chars(fc.as_slice()).as_slice());
                passes(value, &printed)
            },
            None => false,
        }
    } else {
        true
    }
}

/// The stream meets every condition.
pub fn matches_filter(s: &StreamSpec, conds: &Vec<(String, String)>) -> (r: bool)
    ensures
        r == matches_conditions(s@, pairs_view(conds@)),
{
    let mut i: usize = 0;
    while i < conds.len()
        invariant
            i <= conds@.len(),
            forall|j: int|
                0 <= j < i ==> condition_holds(
                    s@,
                    #[trigger] pairs_view(conds@)[j].0,
                    pairs_view(conds@)[j].1,
                ),
        decreases conds@.len() - i,
    {
        let (k, v) = &conds[i];
        if !condition_holds_exec(s, k, v) {
            assert(!condition_holds(s@, pairs_view(conds@)[i as int].0, pairs_view(conds@)[i as int].1));
            return false;
        }
        i = i + 1;
    }
    true
}

fn select_exec(streams: &[StreamSpec], conds: &Vec<(String, String)>, keep: bool) -> (r: Vec<
    StreamSpec,
>)
    ensures
        streams_view(r@) == select(streams_view(streams@), pairs_view(conds@), keep),
{
    let ghost all = streams_view(streams@);
    let mut r: Vec<StreamSpec> = Vec::new();
    let mut i: usize = 0;
    assert(all.take(0) =~= Seq::<StreamSpecView>::empty());
    assert(streams_view(r@) =~= Seq::<StreamSpecView>::empty());
    while i < streams.len()
        invariant
            i <= streams@.len(),
            all == streams_view(streams@),
            streams_view(r@) == select(all.take(i as int), pairs_view(conds@), keep),
        decreases streams@.len() - i,
    {
        assert(all.take(i + 1).drop_last() =~= all.take(i as int));
        assert(all.take(i + 1).last() == streams@[i as int]@);
        if matches_filter(&streams[i], conds) == keep {
            let c = streams[i].clone();
            let ghost before = r@;
            r.push(c);
            assert(streams_view(r@) =~= streams_view(before).push(c@));
        }
        i = i + 1;
    }
    assert(all.take(streams@.len() as int) =~= all);
    r
}

/// The streams that meet the filter, in their order; all of them where
/// there is no filter.
pub fn filter_streams(streams: &[StreamSpec], filter: Option<&str>) -> (r: Vec<StreamSpec>)
    ensures
        streams_view(r@) == match filter {
            Some(f) => select(streams_view(streams@), parse_filter_spec(f@), true),
            None => streams_view(streams@),
        },
{
    match filter {
        Some(f) => {
            let conds = parse_filter(f);
            select_exec(streams, &conds, true)
        },
        None => clone_streams(streams),
    }
}

/// The streams that fail the filter, in their order; all of them where
/// there is no filter.
pub fn drop_streams(streams: &[StreamSpec], filter: Option<&str>) -> (r: Vec<StreamSpec>)
    ensures
        streams_view(r@) == match filter {
            Some(f) => select(streams_view(streams@), parse_filter_spec(f@), false),
            None => streams_view(streams@),
        },
{
    match filter {
        Some(f) => {
            let conds = parse_filter(f);
            select_exec(streams, &conds, false)
        },
        None => clone_streams(streams),
    }
}

/// A copy of every stream.
pub fn clone_streams(streams: &[StreamSpec]) -> (r: Vec<StreamSpec>)
    ensures
        streams_view(r@) == streams_view(streams@),
{
    let mut r: Vec<StreamSpec> = Vec::new();
    let mut i: usize = 0;
    while i < streams.len()
        invariant
            i <= streams@.len(),
            streams_view(r@) == streams_view(streams@.take(i as int)),
        decreases streams@.len() - i,
    {
        let c = streams[i].clone();
        let ghost before = r@;
        r.push(c);
        assert(streams_view(r@) =~= streams_view(before).push(c@));
        assert(streams_view(streams@.take(i + 1)) =~= streams_view(streams@.take(i as int)).push(
            streams@[i as int]@,
        ));
        i = i + 1;
    }
    assert(streams@.take(streams@.len() as int) =~= streams@);
    r
}

// ---------------------------------------------------------------------------
// Laws
// ---------------------------------------------------------------------------

/// Filtering and dropping by the same conditions split the streams: every
/// stream lands in exactly one of the two results, as often as it occurs.
pub proof fn lemma_filter_drop_partition(
    streams: Seq<StreamSpecView>,
    conds: Seq<(Seq<char>, Seq<char>)>,
)
    ensures
        select(streams, conds, true).to_multiset().add(select(streams, conds, false).to_multiset())
            == streams.to_multiset(),
        select(streams, conds, true).len() + select(streams, conds, false).len() == streams.len(),
    decreases streams.len(),
{
    broadcast use vstd::seq_lib::group_to_multiset_ensures;

    if streams.len() == 0 {
        assert(select(streams, conds, true).to_multiset() =~= vstd::multiset::Multiset::empty());
        assert(select(streams, conds, false).to_multiset() =~= vstd::multiset::Multiset::empty());
        assert(streams.to_multiset() =~= vstd::multiset::Multiset::empty());
    } else {
        lemma_filter_drop_partition(streams.drop_last(), conds);
        assert(streams.drop_last().push(streams.last()) =~= streams);
        assert(select(streams, conds, true).to_multiset().add(
            select(streams, conds, false).to_multiset(),
        ) =~= streams.to_multiset());
    }
}

/// Every stream kept by a filter meets all of its conditions, and every
/// stream dropped fails one.
pub proof fn lemma_select_sound(
    streams: Seq<StreamSpecView>,
    conds: Seq<(Seq<char>, Seq<char>)>,
    keep: bool,
)
    ensures
        forall|i: int|
            0 <= i < select(streams, conds, keep).len() ==> matches_conditions(
                #[trigger] select(streams, conds, keep)[i],
                conds,
            ) == keep,
    decreases streams.len(),
{
    if streams.len() > 0 {
        lemma_select_sound(streams.drop_last(), conds, keep);
        let prev = select(streams.drop_last(), conds, keep);
        let cur = select(streams, conds, keep);
        assert forall|i: int| 0 <= i < cur.len() implies matches_conditions(
            #[trigger] cur[i],
            conds,
        ) == keep by {
            if i < prev.len() {
                assert(cur[i] == prev[i]);
            }
        }
    }
}

/// A stream meets a list of conditions exactly when it meets each of them:
/// no conditions are always met, one condition is met when it holds, and
/// a list made of two lists is met when both are.
pub proof fn lemma_conditions_conjoin(
    s: StreamSpecView,
    c1: Seq<(Seq<char>, Seq<char>)>,
    c2: Seq<(Seq<char>, Seq<char>)>,
    key: Seq<char>,
    value: Seq<char>,
)
    ensures
        matches_conditions(s, Seq::empty()),
        matches_conditions(s, seq![(key, value)]) == condition_holds(s, key, value),
        matches_conditions(s, c1 + c2) == (matches_conditions(s, c1) && matches_conditions(s, c2)),
{
    let c = c1 + c2;
    if matches_conditions(s, c1) && matches_conditions(s, c2) {
        assert forall|i: int| 0 <= i < c.len() implies condition_holds(s, #[trigger] c[i].0, c[i].1) by {
            if i < c1.len() {
                assert(c[i] == c1[i]);
            } else {
                assert(c[i] == c2[i - c1.len()]);
            }
        }
    }
    if matches_conditions(s, c) {
        assert forall|i: int| 0 <= i < c1.len() implies condition_holds(s, #[trigger] c1[i].0, c1[i].1) by {
            assert(c[i] == c1[i]);
        }
        assert forall|i: int| 0 <= i < c2.len() implies condition_holds(s, #[trigger] c2[i].0, c2[i].1) by {
            assert(c[i + c1.len()] == c2[i]);
        }
    }
    let one = seq![(key, value)];
    assert(one[0] == (key, value));
    if condition_holds(s, key, value) {
        assert forall|i: int| 0 <= i < one.len() implies condition_holds(s, #[trigger] one[i].0, one[i].1) by {
            assert(one[i] == (key, value));
        }
    }
    if matches_conditions(s, one) {
        assert(condition_holds(s, one[0].0, one[0].1));
    }
}

/// What each key of a condition asks of a stream: `id` and `codecs` that
/// the pattern finds a match in the field (a pattern that does not compile
/// asks nothing); `lang`, `name`, `res` and `frame` the same of a field
/// that must be present (the frame rate as its number prints); any other
/// key asks nothing.
pub proof fn lemma_condition_keys(s: StreamSpecView, key: Seq<char>, v: Seq<char>)
    ensures
        key == "id"@ ==> (condition_holds(s, key, v) <==> (regex_compiles(v) ==> regex_matches(
            v,
            s.id,
        ))),
        key == "codecs"@ ==> (condition_holds(s, key, v) <==> (regex_compiles(v) ==> regex_matches(
            v,
            s.codecs,
        ))),
        key == "lang"@ ==> (condition_holds(s, key, v) <==> (s.language matches Some(l) && (
        regex_compiles(v) ==> regex_matches(v, l)))),
        key == "name"@ ==> (condition_holds(s, key, v) <==> (s.name matches Some(l) && (
        regex_compiles(v) ==> regex_matches(v, l)))),
        key == "res"@ ==> (condition_holds(s, key, v) <==> (s.resolution matches Some(l) && (
        regex_compiles(v) ==> regex_matches(v, l)))),
        key == "frame"@ ==> (condition_holds(s, key, v) <==> (s.frame_rate matches Some(f) && (
        regex_compiles(v) ==> regex_matches(v, number_text(f))))),
        key != "id"@ && key != "codecs"@ && key != "lang"@ && key != "name"@ && key != "res"@
            && key != "frame"@ ==> condition_holds(s, key, v),
{
    reveal_strlit("id");
    reveal_strlit("codecs");
    reveal_strlit("lang");
    reveal_strlit("name");
    reveal_strlit("res");
    reveal_strlit("frame");
    let names = seq!["id"@, "lang"@, "name"@, "codecs"@, "res"@, "frame"@];
    assert(names[0].len() == 2 && names[1].len() == 4 && names[2].len() == 4 && names[3].len() == 6
        && names[4].len() == 3 && names[5].len() == 5);
    assert(names[1][0] == 'l' && names[2][0] == 'n');
}

} // verus!
