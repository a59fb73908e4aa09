use n_m3u8_re_rust::text::number_text_chars;
use n_m3u8_re_rust::entity::StreamSpec;
use n_m3u8_re_rust::utils::filter::{drop_streams, filter_streams, matches_filter, parse_filter};

fn stream(id: &str, lang: Option<&str>, codecs: &str, res: Option<&str>, frame: Option<&str>) -> StreamSpec {
    let mut s = StreamSpec::default();
    s.id = id.to_string();
    s.language = lang.map(|l| l.to_string());
    s.codecs = codecs.to_string();
    s.resolution = res.map(|r| r.to_string());
    s.frame_rate = frame.map(|f| f.to_string());
    s
}

fn sample() -> Vec<StreamSpec> {
    vec![
        stream("video_1080", None, "avc1.640028", Some("1920x1080"), Some("25")),
        stream("audio_en", Some("en"), "mp4a.40.2", None, None),
        stream("audio_ja", Some("ja"), "mp4a.40.2", None, None),
        stream("video_720", None, "hvc1.1.6", Some("1280x720"), Some("50")),
    ]
}

fn ids(v: &[StreamSpec]) -> Vec<String> {
    v.iter().map(|s| s.id.clone()).collect()
}

#[test]
fn parse_filter_pairs() {
    let f = parse_filter("id=video:lang=en:junk:codecs=avc");
    assert_eq!(
        f,
        vec![
            ("id".to_string(), "video".to_string()),
            ("lang".to_string(), "en".to_string()),
            ("codecs".to_string(), "avc".to_string()),
        ]
    );
    assert!(parse_filter("").is_empty());
}

#[test]
fn filter_by_id_and_lang() {
    let s = sample();
    assert_eq!(ids(&filter_streams(&s, Some("id=^audio"))), vec!["audio_en", "audio_ja"]);
    assert_eq!(ids(&filter_streams(&s, Some("lang=ja"))), vec!["audio_ja"]);
    assert_eq!(ids(&filter_streams(&s, Some("res=1080"))), vec!["video_1080"]);
    assert_eq!(ids(&filter_streams(&s, Some("frame=^5"))), vec!["video_720"]);
    assert_eq!(ids(&filter_streams(&s, Some("codecs=mp4a:lang=en"))), vec!["audio_en"]);
}

#[test]
fn no_filter_keeps_everything() {
    let s = sample();
    assert_eq!(ids(&filter_streams(&s, None)), ids(&s));
    assert_eq!(ids(&drop_streams(&s, None)), ids(&s));
}

#[test]
fn filter_and_drop_split_the_streams() {
    let s = sample();
    for f in ["id=video", "lang=en", "codecs=mp4a", "unknown=x", "id=(", "name=x"] {
        let kept = filter_streams(&s, Some(f));
        let dropped = drop_streams(&s, Some(f));
        assert_eq!(kept.len() + dropped.len(), s.len());
        for st in &s {
            let in_kept = kept.iter().any(|k| k.id == st.id);
            let in_dropped = dropped.iter().any(|d| d.id == st.id);
            assert!(in_kept != in_dropped);
        }
    }
}

#[test]
fn invalid_pattern_is_ignored_but_missing_field_fails() {
    let s = sample();
    // An invalid regex lets every stream pass its condition...
    assert_eq!(filter_streams(&s, Some("id=(")).len(), 4);
    // ...but a condition on a field a stream lacks still fails it.
    assert_eq!(ids(&filter_streams(&s, Some("lang=("))), vec!["audio_en", "audio_ja"]);
    assert!(filter_streams(&s, Some("name=.*")).is_empty());
    // Unknown keys are ignored.
    assert_eq!(filter_streams(&s, Some("bogus=zzz")).len(), 4);
}

#[test]
fn matches_filter_all_conditions() {
    let s = stream("a", Some("en"), "c", None, None);
    let conds = vec![("id".to_string(), "a".to_string()), ("lang".to_string(), "fr".to_string())];
    assert!(!matches_filter(&s, &conds));
    assert!(matches_filter(&s, &vec![]));
}

#[test]
fn frame_filter_matches_the_printed_number() {
    let s = vec![
        stream("a", None, "", None, Some("25.000")),
        stream("b", None, "", None, Some("+029.970")),
        stream("c", None, "", None, Some("60.")),
    ];
    assert_eq!(ids(&filter_streams(&s, Some("frame=^25$"))), vec!["a"]);
    assert_eq!(ids(&filter_streams(&s, Some("frame=^29.97$"))), vec!["b"]);
    assert_eq!(ids(&filter_streams(&s, Some("frame=^60$"))), vec!["c"]);
    assert_eq!(ids(&filter_streams(&s, Some("frame=000"))), Vec::<String>::new());
}

#[test]
fn number_texts() {
    let n = |t: &str| -> String {
        let c: Vec<char> = t.chars().collect();
        number_text_chars(&c).into_iter().collect()
    };
    assert_eq!(n("25.000"), "25");
    assert_eq!(n("+025.500"), "25.5");
    assert_eq!(n("-0.0"), "-0");
    assert_eq!(n(".5"), "0.5");
    assert_eq!(n("007"), "7");
    assert_eq!(n("29.97"), "29.97");
    assert_eq!(n("1e3"), "1e3");
    assert_eq!(n("inf"), "inf");
}
