use n_m3u8_re_rust::downloader::live::{record_limit_reached, round_pause, LiveRecorder};
use n_m3u8_re_rust::downloader::simple::download_plan;
use n_m3u8_re_rust::downloader::{
    live_merged_file_name, live_segment_file_name, merge_order, merged_file_name,
    vod_segment_file_name, Retry, RetryAction,
};
use n_m3u8_re_rust::entity::{MediaPart, MediaSegment, Playlist};

fn playlist(parts: &[&[&str]]) -> Playlist {
    let mut p = Playlist::default();
    for uris in parts {
        let mut part = MediaPart::default();
        for u in uris.iter() {
            let mut s = MediaSegment::default();
            s.uri = u.to_string();
            part.media_segments.push(s);
        }
        p.media_parts.push(part);
    }
    p
}

#[test]
fn retry_gives_up_on_the_third_failure() {
    let mut r = Retry::new();
    assert_eq!(r.on_result(false), RetryAction::RetryAfterPause);
    assert_eq!(r.failed_attempts(), 1);
    assert_eq!(r.on_result(false), RetryAction::RetryAfterPause);
    assert_eq!(r.failed_attempts(), 2);
    assert_eq!(r.on_result(false), RetryAction::GiveUp);
    let mut r = Retry::new();
    assert_eq!(r.on_result(false), RetryAction::RetryAfterPause);
    assert_eq!(r.on_result(true), RetryAction::Done);
}

#[test]
fn file_names() {
    assert_eq!(vod_segment_file_name(0, 12), "segment_0_12.ts");
    assert_eq!(live_segment_file_name(7), "segment_7.ts");
    assert_eq!(merged_file_name("video_1"), "video_1.ts");
    assert_eq!(live_merged_file_name("video_1"), "video_1_live.ts");
}

#[test]
fn plan_covers_every_segment_in_order() {
    let p = playlist(&[&["a", "b"], &[], &["c"]]);
    let plan = download_plan(&p);
    let got: Vec<(String, String)> = plan.iter().map(|t| (t.uri.clone(), t.file_name.clone())).collect();
    assert_eq!(
        got,
        vec![
            ("a".to_string(), "segment_0_0.ts".to_string()),
            ("b".to_string(), "segment_0_1.ts".to_string()),
            ("c".to_string(), "segment_2_0.ts".to_string()),
        ]
    );
}

#[test]
fn merge_order_sorts_by_name() {
    let names: Vec<String> = ["segment_0_2.ts", "init.mp4", "segment_0_10.ts", "segment_0_1.ts", "x.ts"]
        .iter()
        .map(|s| s.to_string())
        .collect();
    assert_eq!(merge_order(&names, false), vec!["segment_0_1.ts", "segment_0_10.ts", "segment_0_2.ts"]);
    let names: Vec<String> = ["segment_3.ts", "segment_1.part", "segment_1.ts", "a_live.ts"]
        .iter()
        .map(|s| s.to_string())
        .collect();
    assert_eq!(merge_order(&names, true), vec!["segment_1.ts", "segment_3.ts"]);
    assert_eq!(merge_order(&names, false), vec!["segment_1.part", "segment_1.ts", "segment_3.ts"]);
}

#[test]
fn live_rounds_skip_downloaded_segments() {
    let p = playlist(&[&["a", "b", "c"], &["d"]]);
    let mut rec = LiveRecorder::new();
    rec.begin_round();
    let t = rec.next_segment(&p).unwrap();
    assert_eq!((t.uri.as_str(), t.file_name.as_str()), ("a", "segment_0.ts"));
    rec.finish_segment(true, 2);
    let t = rec.next_segment(&p).unwrap();
    assert_eq!((t.uri.as_str(), t.file_name.as_str()), ("b", "segment_1.ts"));
    rec.finish_segment(false, 2);
    // two tried: a multiple of the take count, so the round moves to part 2
    let t = rec.next_segment(&p).unwrap();
    assert_eq!((t.uri.as_str(), t.file_name.as_str()), ("d", "segment_2.ts"));
    rec.finish_segment(true, 2);
    assert!(rec.next_segment(&p).is_none());
    rec.begin_round();
    let t = rec.next_segment(&p).unwrap();
    assert_eq!((t.uri.as_str(), t.file_name.as_str()), ("b", "segment_3.ts"));
    rec.finish_segment(true, 2);
    // four tried: the round leaves part 1 before reaching "c"
    assert!(rec.next_segment(&p).is_none());
    rec.begin_round();
    let t = rec.next_segment(&p).unwrap();
    assert_eq!((t.uri.as_str(), t.file_name.as_str()), ("c", "segment_4.ts"));
    rec.finish_segment(true, 2);
    assert!(rec.next_segment(&p).is_none());
    rec.begin_round();
    assert!(rec.next_segment(&p).is_none());
}

#[test]
fn pause() {
    assert_eq!(round_pause(None), 5);
    assert_eq!(round_pause(Some(12)), 12);
}

#[test]
fn record_limit() {
    assert!(!record_limit_reached(10, None));
    assert!(!record_limit_reached(9, Some(10)));
    assert!(record_limit_reached(10, Some(10)));
    assert!(record_limit_reached(11, Some(10)));
}
