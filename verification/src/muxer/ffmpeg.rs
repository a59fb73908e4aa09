//! ffmpeg as a muxer.
use vstd::prelude::*;
use crate::entity::opt_view;
use crate::muxer::{
    failure_text, input_args, locate, program_path, push_inputs, push_string, strings_view,
    strs_view, MuxCommand,
};
use crate::text::{chars_of, push_str, string_of};

verus! {

/// ffmpeg as a muxer.
#[derive(Debug, Clone)]
pub struct FFmpegMuxer {
    ffmpeg_path: String,
}

/// The arguments of an ffmpeg mux: every input, stream copy (and subtitle
/// copy where there are subtitles), then the output.
pub open spec fn ffmpeg_mux_args(
    video: Option<Seq<char>>,
    audios: Seq<Seq<char>>,
    subtitles: Seq<Seq<char>>,
    output: Seq<char>,
) -> Seq<Seq<char>> {
    (match video {
        Some(v) => seq!["-i"@, v],
        None => Seq::empty(),
    }) + input_args(audios) + input_args(subtitles) + seq!["-c"@, "copy"@] + (if subtitles.len()
        > 0 {
        seq!["-c:s"@, "copy"@]
    } else {
        Seq::empty()
    }) + seq![output]
}

/// The arguments of an ffmpeg run with options: every input, the options,
/// then the output.
pub open spec fn ffmpeg_option_args(
    inputs: Seq<Seq<char>>,
    options: Seq<Seq<char>>,
    output: Seq<char>,
) -> Seq<Seq<char>> {
    input_args(inputs) + options + seq![output]
}

impl FFmpegMuxer {
    pub closed spec fn path(&self) -> Seq<char> {
        self.ffmpeg_path@
    }

    /// An ffmpeg muxer: at the given path, else where `which ffmpeg` found
    /// it (its output, given here where it ran and succeeded), else `ffmpeg`.
    pub fn new(ffmpeg_path: Option<String>, which_output: Option<String>) -> (r: Self)
        ensures
            r.path() == program_path(opt_view(ffmpeg_path), opt_view(which_output), "ffmpeg"@),
    {
        FFmpegMuxer { ffmpeg_path: locate(ffmpeg_path, which_output, "ffmpeg") }
    }

    /// The command that muxes a video, audios and subtitles into `output_path`.
    pub fn mux(
        &self,
        video_path: Option<&str>,
        audio_paths: &[&str],
        subtitle_paths: &[&str],
        output_path: &str,
    ) -> (r: MuxCommand)
        ensures
            r.program@ == self.path(),
            strings_view(r.args@) == ffmpeg_mux_args(
                match video_path {
                    Some(v) => Some(v@),
                    None => None,
                },
                strs_view(audio_paths@),
                strs_view(subtitle_paths@),
                output_path@,
            ),
    {
        let mut args: Vec<String> = Vec::new();
        assert(strings_view(args@) =~= Seq::<Seq<char>>::empty());
        match video_path {
            Some(v) => {
                push_string(&mut args, "-i");
                push_string(&mut args, v);
            },
            None => {},
        }
        let ghost a0 = strings_view(args@);
        push_inputs(&mut args, audio_paths);
        push_inputs(&mut args, subtitle_paths);
        push_string(&mut args, "-c");
        push_string(&mut args, "copy");
        let ghost a1 = strings_view(args@);
        if subtitle_paths.len() > 0 {
            push_string(&mut args, "-c:s");
            push_string(&mut args, "copy");
        }
        push_string(&mut args, output_path);
        assert(strings_view(args@) =~= ffmpeg_mux_args(
            match video_path {
                Some(v) => Some(v@),
                None => None,
            },
            strs_view(audio_paths@),
            strs_view(subtitle_paths@),
            output_path@,
        ));
        MuxCommand { program: self.ffmpeg_path.clone(), args }
    }

    /// The command that runs ffmpeg on the inputs with the given options.
    pub fn mux_with_options(&self, inputs: &[&str], output_path: &str, options: &[&str]) -> (r:
        MuxCommand)
        ensures
            r.program@ == self.path(),
            strings_view(r.args@) == ffmpeg_option_args(
                strs_view(inputs@),
                strs_view(options@),
                output_path@,
            ),
    {
        let mut args: Vec<String> = Vec::new();
        assert(strings_view(args@) =~= Seq::<Seq<char>>::empty());
        push_inputs(&mut args, inputs);
        let ghost a0 = strings_view(args@);
        let ghost os = strs_view(options@);
        let mut i: usize = 0;
        assert(a0 + os.take(0) =~= a0);
        while i < options.len()
            invariant
                i <= options@.len(),
                os == strs_view(options@),
                strings_view(args@) == a0 + os.take(i as int),
            decreases options@.len() - i,
        {
            push_string(&mut args, options[i]);
            assert(strings_view(args@) =~= a0 + os.take(i + 1));
            i = i + 1;
        }
        assert(os.take(options@.len() as int) =~= os);
        push_string(&mut args, output_path);
        assert(strings_view(args@) =~= ffmpeg_option_args(
            strs_view(inputs@),
            strs_view(options@),
            output_path@,
        ));
        MuxCommand { program: self.ffmpeg_path.clone(), args }
    }

    /// The message of a failed ffmpeg run.
    pub fn failure_message(&self, stderr: &str) -> (r: String)
        ensures
            r@ == failure_text("FFmpeg混流失败: "@, stderr@),
    {
        let mut v = chars_of("FFmpeg混流失败: ");
        push_str(&mut v, stderr);
        string_of(v.as_slice())
    }
}

} // verus!
