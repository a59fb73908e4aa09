//! The commands that mux streams together with ffmpeg or mkvmerge.
use vstd::prelude::*;

pub mod ffmpeg;
pub mod mkvmerge;
use crate::entity::opt_view;
use crate::text::{chars_of, push_str, string_of, trim, trim_chars};

verus! {

/// A program to run and its arguments.
#[derive(Debug, Clone)]
pub struct MuxCommand {
    pub program: String,
    pub args: Vec<String>,
}

pub open spec fn strings_view(v: Seq<String>) -> Seq<Seq<char>> {
    v.map_values(|s: String| s@)
}

pub open spec fn strs_view(v: Seq<&str>) -> Seq<Seq<char>> {
    v.map_values(|s: &str| s@)
}

/// `-i <path>` for each path, in order.
pub open spec fn input_args(paths: Seq<Seq<char>>) -> Seq<Seq<char>>
    decreases paths.len(),
{
    if paths.len() == 0 {
        Seq::empty()
    } else {
        input_args(paths.drop_last()) + seq!["-i"@, paths.last()]
    }
}

pub(crate) fn push_string(v: &mut Vec<String>, s: &str)
    ensures
        strings_view(final(v)@) == strings_view(old(v)@).push(s@),
{
    let ghost before = v@;
    v.push(String::from_str(s));
    assert(strings_view(v@) =~= strings_view(before).push(s@));
}

pub(crate) fn push_inputs(v: &mut Vec<String>, paths: &[&str])
    ensures
        strings_view(final(v)@) == strings_view(old(v)@) + input_args(strs_view(paths@)),
{
    let ghost start = strings_view(v@);
    let ghost ps = strs_view(paths@);
    let mut i: usize = 0;
    assert(ps.take(0) =~= Seq::<Seq<char>>::empty());
    assert(start + input_args(ps.take(0)) =~= start);
    while i < paths.len()
        invariant
            i <= paths@.len(),
            ps == strs_view(paths@),
            strings_view(v@) == start + input_args(ps.take(i as int)),
        decreases paths@.len() - i,
    {
        push_string(v, "-i");
        push_string(v, paths[i]);
        assert(ps.take(i + 1).drop_last() =~= ps.take(i as int));
        assert(strings_view(v@) =~= start + input_args(ps.take(i + 1)));
        i = i + 1;
    }
    assert(ps.take(paths@.len() as int) =~= ps);
}

/// The path of a program: the one given, else what `which` printed
/// (trimmed), else the bare program name.
pub open spec fn program_path(
    given: Option<Seq<char>>,
    which_output: Option<Seq<char>>,
    name: Seq<char>,
) -> Seq<char> {
    match given {
        Some(p) => p,
        None => match which_output {
            Some(out) => trim(out),
            None => name,
        },
    }
}

pub(crate) fn locate(given: Option<String>, which_output: Option<String>, name: &str) -> (r: String)
    ensures
        r@ == program_path(opt_view(given), opt_view(which_output), name@),
{
    match given {
        Some(p) => p,
        None => match which_output {
            Some(out) => {
                let oc = chars_of(out.as_str());
                let t = trim_chars(oc.as_slice());
                string_of(t.as_slice())
            },
            None => String::from_str(name),
        },
    }
}

/// The message of a failed run: a prefix and what the program printed on
/// standard error.
pub open spec fn failure_text(prefix: Seq<char>, stderr: Seq<char>) -> Seq<char> {
    prefix + stderr
}

} // verus!
