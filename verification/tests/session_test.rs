use n_m3u8_re_rust::entity::{MediaType, Playlist, StreamSpec};
use n_m3u8_re_rust::logging::{enabled, log_line, parse_log_level, Level, LevelFilter};
use n_m3u8_re_rust::session::{is_live, select_streams, stream_summary, temp_dir, SessionError};

#[test]
fn log_levels() {
    assert_eq!(parse_log_level("DEBUG"), LevelFilter::Debug);
    assert_eq!(parse_log_level("OFF"), LevelFilter::Off);
    assert_eq!(parse_log_level("verbose"), LevelFilter::Info);
    assert!(enabled(Level::Error, LevelFilter::Warn));
    assert!(!enabled(Level::Debug, LevelFilter::Info));
    assert!(!enabled(Level::Error, LevelFilter::Off));
    assert_eq!(log_line(Level::Warn, "careful"), "[WARN] careful");
}

#[test]
fn selection_and_live() {
    assert_eq!(select_streams(&[]).unwrap_err(), SessionError::NoStreams);
    let mut a = StreamSpec::default();
    a.id = "a".to_string();
    let mut b = StreamSpec::default();
    b.id = "b".to_string();
    let mut p = Playlist::default();
    p.is_live = true;
    b.playlist = Some(Box::new(p));
    let sel = select_streams(&[a.clone(), b.clone()]).unwrap();
    assert_eq!(sel.len(), 1);
    assert_eq!(sel[0].id, "a");
    assert!(!is_live(&sel));
    assert!(is_live(&[a, b]));
}

#[test]
fn temp_dirs_and_summaries() {
    assert_eq!(temp_dir(Some("/t".to_string()), "/home", None), "/t");
    assert_eq!(temp_dir(None, "/home", None), "/home/download_temp");
    assert_eq!(temp_dir(None, "/home", Some("show".to_string())), "/home/show_temp");
    let mut s = StreamSpec::default();
    s.id = "v1".to_string();
    s.bandwidth = 800000;
    assert_eq!(stream_summary(0, &s), "1. v1 - VIDEO - 800000bps");
    s.media_type = Some(MediaType::AUDIO);
    assert_eq!(stream_summary(4, &s), "5. v1 - AUDIO - 800000bps");
    assert_eq!(MediaType::SUBTITLES.to_string(), "SUBTITLES");
}
