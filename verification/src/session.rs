//! The decisions of one run: which streams to take, where to put them, and
//! whether to record live.
use vstd::prelude::*;
use crate::entity::{media_type_name, opt_view, streams_view, MediaType, StreamSpec, StreamSpecView};
use crate::text::{chars_of, decimal, decimal_chars, push_all, push_str, string_of};

verus! {

/// Why nothing can be downloaded.
#[derive(Debug, Clone, Copy, PartialEq, Eq, Structural)]
pub enum SessionError {
    /// The manifest has no stream.
    NoStreams,
}

/// The streams to download: the first one (more are not offered yet).
pub fn select_streams(streams: &[StreamSpec]) -> (r: Result<Vec<StreamSpec>, SessionError>)
    ensures
        streams@.len() == 0 ==> r == Err::<Vec<StreamSpec>, SessionError>(SessionError::NoStreams),
        streams@.len() > 0 ==> (r matches Ok(v) && streams_view(v@) == seq![streams@[0]@]),
{
    if streams.len() == 0 {
        Err(SessionError::NoStreams)
    } else {
        let mut v: Vec<StreamSpec> = Vec::new();
        v.push(streams[0].clone());
        assert(streams_view(v@) =~= seq![streams@[0]@]);
        Ok(v)
    }
}

/// Some selected stream's playlist is live.
pub open spec fn any_live(streams: Seq<StreamSpecView>) -> bool {
    exists|i: int|
        0 <= i < streams.len() && ((#[trigger] streams[i]).playlist matches Some(p) && p.is_live)
}

/// Whether the selected streams are to be recorded live.
pub fn is_live(streams: &[StreamSpec]) -> (r: bool)
    ensures
        r == any_live(streams_view(streams@)),
{
    let mut i: usize = 0;
    while i < streams.len()
        invariant
            i <= streams@.len(),
            forall|k: int|
                0 <= k < i ==> !((#[trigger] streams_view(streams@)[k]).playlist matches Some(p)
                    && p.is_live),
        decreases streams@.len() - i,
    {
        match &streams[i].playlist {
            Some(p) => {
                if p.is_live {
                    assert(streams_view(streams@)[i as int].playlist matches Some(q) && q.is_live);
                    return true;
                }
            },
            None => {},
        }
        i = i + 1;
    }
    false
}

/// The temporary directory: the one given, else `<cwd>/<save name>_temp`
/// with `download` as the save name where none is given.
pub open spec fn temp_dir_of(
    tmp_dir: Option<Seq<char>>,
    cwd: Seq<char>,
    save_name: Option<Seq<char>>,
) -> Seq<char> {
    match tmp_dir {
        Some(d) => d,
        None => cwd + seq!['/'] + match save_name {
            Some(n) => n,
            None => "download"@,
        } + "_temp"@,
    }
}

/// The temporary directory of a run.
pub fn temp_dir(tmp_dir: Option<String>, cwd: &str, save_name: Option<String>) -> (r: String)
    ensures
        r@ == temp_dir_of(opt_view(tmp_dir), cwd@, opt_view(save_name)),
{
    match tmp_dir {
        Some(d) => d,
        None => {
            let mut v = chars_of(cwd);
            v.push('/');
            match save_name {
                Some(n) => push_str(&mut v, n.as_str()),
                None => push_str(&mut v, "download"),
            }
            push_str(&mut v, "_temp");
            string_of(v.as_slice())
        },
    }
}

/// `<n>. <id> - <type> - <bandwidth>bps`, how the `n`th stream is listed;
/// a stream of no known type is listed as video.
pub open spec fn summary_text(n: nat, s: StreamSpecView) -> Seq<char> {
    decimal(n) + ". "@ + s.id + " - "@ + media_type_name(
        match s.media_type {
            Some(t) => t,
            None => MediaType::VIDEO,
        },
    ) + " - "@ + decimal(s.bandwidth as nat) + "bps"@
}

/// How the stream at `index` (counted from 0) is listed.
pub fn stream_summary(index: usize, stream: &StreamSpec) -> (r: String)
    requires
        index < usize::MAX,
    ensures
        r@ == summary_text(index as nat + 1, stream@),
{
    let mut v = decimal_chars((index + 1) as u64);
    push_str(&mut v, ". ");
    push_str(&mut v, stream.id.as_str());
    push_str(&mut v, " - ");
    let t = match stream.media_type {
        Some(t) => t,
        None => MediaType::VIDEO,
    };
    let name = t.to_string();
    push_str(&mut v, name.as_str());
    push_str(&mut v, " - ");
    let b = decimal_chars(stream.bandwidth as u64);
    push_all(&mut v, b.as_slice());
    push_str(&mut v, "bps");
    string_of(v.as_slice())
}

} // verus!
