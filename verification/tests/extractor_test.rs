use n_m3u8_re_rust::parser::extractor::{detect_extractor_type, ExtractError, ExtractorType, StreamExtractor};
use std::collections::HashMap;

#[test]
fn detection() {
    assert_eq!(detect_extractor_type("#EXTM3U\n", "x.mpd"), ExtractorType::HTTP_LIVE);
    assert_eq!(detect_extractor_type("<?xml?><MPD>", "x"), ExtractorType::MPEG_DASH);
    assert_eq!(detect_extractor_type("<SmoothStreamingMedia>", "x"), ExtractorType::MSS);
    assert_eq!(detect_extractor_type("", "http://a/b.m3u8"), ExtractorType::HTTP_LIVE);
    assert_eq!(detect_extractor_type("", "http://a/b.mpd"), ExtractorType::MPEG_DASH);
    assert_eq!(detect_extractor_type("", "http://a/b.ism"), ExtractorType::MSS);
    assert_eq!(detect_extractor_type("hello", "http://a/b"), ExtractorType::UNKNOWN);
}

#[test]
fn load_keeps_the_source_and_its_type() {
    let mut ex = StreamExtractor::new(None, HashMap::new());
    assert_eq!(ex.get_extractor_type(), ExtractorType::UNKNOWN);
    assert!(ex.get_raw_files().is_empty());
    ex.load_source("#EXTM3U\n#EXTINF:1,\na.ts\n".to_string(), "http://h/p.m3u8");
    assert_eq!(ex.get_extractor_type(), ExtractorType::HTTP_LIVE);
    assert_eq!(ex.source().map(|s| s.as_str()), Some("#EXTM3U\n#EXTINF:1,\na.ts\n"));
    let streams = ex.extract_hls_streams().unwrap();
    assert_eq!(streams.len(), 1);
    ex.load_source("<MPD/>".to_string(), "http://h/p");
    assert_eq!(ex.get_raw_files().len(), 1);
    assert_eq!(ex.get_raw_files()[0], ("source.txt".to_string(), "<MPD/>".to_string()));
    assert_eq!(ex.get_extractor_type(), ExtractorType::MPEG_DASH);
}

#[test]
fn fetch_playlist_leaves_streams_alone() {
    let mut ex = StreamExtractor::new(None, HashMap::new());
    ex.load_source("#EXTM3U\n#EXTINF:1,\na.ts\n".to_string(), "u");
    let mut streams = ex.extract_hls_streams().unwrap();
    ex.fetch_playlist(&mut streams);
    assert_eq!(streams.len(), 1);
    assert_eq!(streams[0].playlist.as_ref().unwrap().media_parts[0].media_segments[0].uri, "a.ts");
}

#[test]
fn extraction_follows_the_detected_format() {
    let mut ex = StreamExtractor::new(None, HashMap::new());
    assert_eq!(ex.extract_streams(None, None).unwrap_err(), ExtractError::UnknownStreamType);
    ex.load_source("#EXTM3U\n#EXTINF:1,\na.ts\n".to_string(), "u");
    assert_eq!(ex.extract_streams(None, None).unwrap().len(), 1);
    ex.load_source("<MPD></MPD>".to_string(), "u");
    assert_eq!(ex.extract_streams(None, None).unwrap_err(), ExtractError::ManifestNotRead);
    ex.load_source("<SmoothStreamingMedia/>".to_string(), "u");
    assert_eq!(ex.extract_streams(None, None).unwrap_err(), ExtractError::ManifestNotRead);
}
