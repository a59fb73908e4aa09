//! mkvmerge as a muxer.
use vstd::prelude::*;
use crate::entity::opt_view;
use crate::muxer::{failure_text, locate, program_path, push_string, strings_view, MuxCommand};
use crate::text::{chars_of, push_str, string_of};

verus! {

/// mkvmerge as a muxer.
#[derive(Debug, Clone)]
pub struct MKVMergeMuxer {
    mkvmerge_path: String,
}

/// The arguments of a mkvmerge mux: `-o <output> <video> <audio>`.
pub open spec fn mkvmerge_args(video: Seq<char>, audio: Seq<char>, output: Seq<char>) -> Seq<
    Seq<char>,
> {
    seq!["-o"@, output, video, audio]
}

impl MKVMergeMuxer {
    pub closed spec fn path(&self) -> Seq<char> {
        self.mkvmerge_path@
    }

    /// A mkvmerge muxer: at the given path, else where `which mkvmerge`
    /// found it (its output, given here where it ran and succeeded), else
    /// `mkvmerge`.
    pub fn new(mkvmerge_path: Option<String>, which_output: Option<String>) -> (r: Self)
        ensures
            r.path() == program_path(
                opt_view(mkvmerge_path),
                opt_view(which_output),
                "mkvmerge"@,
            ),
    {
        MKVMergeMuxer { mkvmerge_path: locate(mkvmerge_path, which_output, "mkvmerge") }
    }

    /// The command that muxes a video and an audio into `output_path`.
    pub fn mux(&self, video_path: &str, audio_path: &str, output_path: &str) -> (r: MuxCommand)
        ensures
            r.program@ == self.path(),
            strings_view(r.args@) == mkvmerge_args(video_path@, audio_path@, output_path@),
    {
        let mut args: Vec<String> = Vec::new();
        assert(strings_view(args@) =~= Seq::<Seq<char>>::empty());
        push_string(&mut args, "-o");
        push_string(&mut args, output_path);
        push_string(&mut args, video_path);
        push_string(&mut args, audio_path);
        assert(strings_view(args@) =~= mkvmerge_args(video_path@, audio_path@, output_path@));
        MuxCommand { program: self.mkvmerge_path.clone(), args }
    }

    /// The message of a failed mkvmerge run.
    pub fn failure_message(&self, stderr: &str) -> (r: String)
        ensures
            r@ == failure_text("MKVMerge混流失败: "@, stderr@),
    {
        let mut v = chars_of("MKVMerge混流失败: ");
        push_str(&mut v, stderr);
        string_of(v.as_slice())
    }
}

} // verus!
