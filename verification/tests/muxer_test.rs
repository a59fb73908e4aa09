use n_m3u8_re_rust::muxer::ffmpeg::FFmpegMuxer;
use n_m3u8_re_rust::muxer::mkvmerge::MKVMergeMuxer;

#[test]
fn ffmpeg_args() {
    let m = FFmpegMuxer::new(Some("/opt/ffmpeg".to_string()), None);
    let c = m.mux(Some("v.ts"), &["a1.ts", "a2.ts"], &["s.srt"], "out.mkv");
    assert_eq!(c.program, "/opt/ffmpeg");
    assert_eq!(
        c.args,
        vec!["-i", "v.ts", "-i", "a1.ts", "-i", "a2.ts", "-i", "s.srt", "-c", "copy", "-c:s", "copy", "out.mkv"]
    );
    let c = m.mux(None, &["a.ts"], &[], "out.mp4");
    assert_eq!(c.args, vec!["-i", "a.ts", "-c", "copy", "out.mp4"]);
    let c = m.mux_with_options(&["x", "y"], "o", &["-map", "0"]);
    assert_eq!(c.args, vec!["-i", "x", "-i", "y", "-map", "0", "o"]);
    assert_eq!(m.failure_message("boom"), "FFmpeg混流失败: boom");
}

#[test]
fn program_location() {
    assert_eq!(FFmpegMuxer::new(None, Some("/usr/bin/ffmpeg\n".to_string())).mux(None, &[], &[], "o").program, "/usr/bin/ffmpeg");
    assert_eq!(FFmpegMuxer::new(None, None).mux(None, &[], &[], "o").program, "ffmpeg");
    let k = MKVMergeMuxer::new(None, None);
    let c = k.mux("v.mkv", "a.mka", "out.mkv");
    assert_eq!(c.program, "mkvmerge");
    assert_eq!(c.args, vec!["-o", "out.mkv", "v.mkv", "a.mka"]);
    assert_eq!(k.failure_message("bad"), "MKVMerge混流失败: bad");
}
