use n_m3u8_re_rust::entity::{EncryptMethod, MediaType};
use n_m3u8_re_rust::parser::dash::{
    numbers_fit, AdaptationSet, DASHExtractor, Period, Representation, SegmentTemplate, MPD,
};
use n_m3u8_re_rust::parser::hls::HLSExtractor;
use n_m3u8_re_rust::parser::mss::{chunks_fit, MSSExtractor, QualityLevel, SmoothStreamingMedia, StreamIndex};
use std::collections::HashMap;

fn dash_sample() -> MPD {
    // <MPD><Period><AdaptationSet mimeType="video/mp4" codecs="avc1.64001e">
    //   <Representation id="1" bandwidth="2000000" width="1280" height="720">
    //     <SegmentTemplate initialization="init.mp4" media="segment_$Number$.m4s"
    //                      startNumber="1" duration="2"/>
    MPD {
        period: Period {
            adaptation_set: vec![AdaptationSet {
                mime_type: Some("video/mp4".to_string()),
                codecs: Some("avc1.64001e".to_string()),
                lang: None,
                width: None,
                height: None,
                frame_rate: None,
                representation: vec![Representation {
                    id: "1".to_string(),
                    bandwidth: 2000000,
                    codecs: None,
                    width: Some(1280),
                    height: Some(720),
                    frame_rate: None,
                    base_url: None,
                    segment_template: Some(SegmentTemplate {
                        initialization: Some("init.mp4".to_string()),
                        media: Some("segment_$Number$.m4s".to_string()),
                        start_number: Some(1),
                        duration: Some("2".to_string()),
                    }),
                }],
            }],
        },
    }
}

fn mss_sample() -> SmoothStreamingMedia {
    // <SmoothStreamingMedia MajorVersion="2" MinorVersion="0" TimeScale="10000000"
    //   Duration="300000000"><StreamIndex Type="video" QualityLevels="1" Chunks="10">
    //   <QualityLevel Index="0" Bitrate="2000000" Width="1280" Height="720"
    //                 CodecPrivateData="ABCD"/>
    SmoothStreamingMedia {
        major_version: 2,
        minor_version: 0,
        time_scale: 10000000,
        duration: Some("300000000".to_string()),
        is_live: None,
        stream_index: vec![StreamIndex {
            stream_type: "video".to_string(),
            quality_levels: "1".to_string(),
            chunks: "10".to_string(),
            url: None,
            quality_level: vec![QualityLevel {
                index: 0,
                bitrate: 2000000,
                codec_private_data: Some("ABCD".to_string()),
                max_width: None,
                max_height: None,
                frame_rate: None,
                four_cc: None,
            }],
        }],
    }
}

#[test]
fn test_hls_extractor() {
    let headers = HashMap::new();
    let extractor = HLSExtractor::new(None, headers);

    let hls_content = "#EXTM3U
#EXT-X-VERSION:3
#EXT-X-TARGETDURATION:10
#EXT-X-MEDIA-SEQUENCE:0
#EXTINF:10.0,
segment0.ts
#EXTINF:10.0,
segment1.ts
#EXT-X-ENDLIST";

    match extractor.extract_streams(hls_content) {
        Ok(streams) => {
            assert!(!streams.is_empty());
        }
        Err(e) => {
            panic!("HLS parse failed: {:?}", e);
        }
    }
}

#[test]
fn test_dash_extractor() {
    let headers = HashMap::new();
    let extractor = DASHExtractor::new(None, headers);

    match extractor.extract_streams(&dash_sample()) {
        Ok(streams) => {
            assert!(!streams.is_empty());
        }
        Err(e) => {
            panic!("DASH parse failed: {:?}", e);
        }
    }
}

#[test]
fn test_mss_extractor() {
    let headers = HashMap::new();
    let extractor = MSSExtractor::new(None, headers);

    match extractor.extract_streams(&mss_sample()) {
        Ok(streams) => {
            assert!(!streams.is_empty());
        }
        Err(e) => {
            panic!("MSS parse failed: {:?}", e);
        }
    }
}

#[test]
fn hls_media_playlist_gives_one_stream_with_its_segments() {
    let extractor = HLSExtractor::new(None, HashMap::new());
    let content = "#EXTM3U\n#EXT-X-TARGETDURATION:10\n#EXTINF:10.0,\nsegment0.ts\n#EXTINF:9.5,Intro\nsegment1.ts\n#EXT-X-ENDLIST\n";
    let streams = extractor.extract_streams(content).unwrap();
    assert_eq!(streams.len(), 1);
    let s = &streams[0];
    assert_eq!(s.id, "");
    let p = s.playlist.as_ref().unwrap();
    assert!(p.is_ended);
    assert!(!p.is_live);
    assert_eq!(p.target_duration.as_deref(), Some("10"));
    assert_eq!(p.media_parts.len(), 1);
    let segs = &p.media_parts[0].media_segments;
    assert_eq!(segs.len(), 2);
    assert_eq!(segs[0].uri, "segment0.ts");
    assert_eq!(segs[0].duration, "10.0");
    assert_eq!(segs[0].title, None);
    assert_eq!(segs[1].uri, "segment1.ts");
    assert_eq!(segs[1].duration, "9.5");
    assert_eq!(segs[1].title.as_deref(), Some("Intro"));
}

#[test]
fn hls_master_playlist_streams() {
    let extractor = HLSExtractor::new(None, HashMap::new());
    let content = "#EXTM3U\r\n#EXT-X-STREAM-INF:BANDWIDTH=1280000,RESOLUTION=1280x720,FRAME-RATE=29.970,CODECS=\"avc1.4d401f\"\r\nlow/index.m3u8\r\n#EXT-X-STREAM-INF:BANDWIDTH=64000,AUDIO=\"aud\"\r\naudio/index.m3u8\r\n";
    let streams = extractor.extract_streams(content).unwrap();
    assert_eq!(streams.len(), 2);
    assert_eq!(streams[0].id, "low/index.m3u8");
    assert_eq!(streams[0].bandwidth, 1280000);
    assert_eq!(streams[0].resolution.as_deref(), Some("1280x720"));
    assert_eq!(streams[0].frame_rate.as_deref(), Some("29.970"));
    assert_eq!(streams[0].codecs, "avc1.4d401f");
    assert_eq!(streams[0].media_type, Some(MediaType::VIDEO));
    assert!(streams[0].playlist.is_some());
    assert_eq!(streams[1].id, "audio/index.m3u8");
    assert_eq!(streams[1].bandwidth, 64000);
    assert_eq!(streams[1].media_type, Some(MediaType::AUDIO));
}

#[test]
fn hls_bad_attribute_values_are_ignored() {
    let extractor = HLSExtractor::new(None, HashMap::new());
    let content = "#EXT-X-STREAM-INF:BANDWIDTH=99999999999,FRAME-RATE=fast,SUBTITLES=\"s\"\nsub.m3u8\n";
    let streams = extractor.extract_streams(content).unwrap();
    assert_eq!(streams.len(), 1);
    assert_eq!(streams[0].bandwidth, 0);
    assert_eq!(streams[0].frame_rate, None);
    assert_eq!(streams[0].media_type, Some(MediaType::SUBTITLES));
}

#[test]
fn hls_key_and_map_resolve_against_base() {
    let extractor = HLSExtractor::new(Some("https://cdn.example.com/live/main.m3u8".to_string()), HashMap::new());
    let content = "#EXTM3U\n#EXT-X-MAP:URI=\"init.mp4\"\n#EXT-X-KEY:METHOD=AES-128,URI=\"key.bin\",IV=0x000102030405060708090A0B0C0D0E0F\n#EXTINF:4,\nseg1.ts\n#EXTINF:4,\nhttp://other.example.com/seg2.ts\n";
    let streams = extractor.extract_streams(content).unwrap();
    assert_eq!(streams.len(), 1);
    let p = streams[0].playlist.as_ref().unwrap();
    assert_eq!(p.init_segment.as_deref(), Some("https://cdn.example.com/live/init.mp4"));
    let segs = &p.media_parts[0].media_segments;
    assert_eq!(segs[0].uri, "https://cdn.example.com/live/seg1.ts");
    assert_eq!(segs[1].uri, "http://other.example.com/seg2.ts");
    let key = segs[0].encrypt_info.as_ref().unwrap();
    assert_eq!(key.method, EncryptMethod::AES_128);
    assert_eq!(key.key_uri.as_deref(), Some("https://cdn.example.com/live/key.bin"));
    assert_eq!(key.iv.clone().unwrap(), (0u8..16).collect::<Vec<u8>>());
    assert!(segs[1].encrypt_info.is_none());
}

#[test]
fn hls_bad_iv_and_unknown_method() {
    let extractor = HLSExtractor::new(None, HashMap::new());
    let content = "#EXTINF:1,\n#EXT-X-KEY:METHOD=SAMPLE-AES,IV=0xZZ\na.ts\n";
    let streams = extractor.extract_streams(content).unwrap();
    let seg = &streams[0].playlist.as_ref().unwrap().media_parts[0].media_segments[0];
    let key = seg.encrypt_info.as_ref().unwrap();
    assert_eq!(key.method, EncryptMethod::UNKNOWN);
    assert!(key.iv.is_none());
}

#[test]
fn hls_playlist_type_and_empty_input() {
    let extractor = HLSExtractor::new(None, HashMap::new());
    assert!(extractor.extract_streams("").unwrap().is_empty());
    let streams = extractor
        .extract_streams("#EXT-X-PLAYLIST-TYPE:EVENT\n#EXTINF:2,\nx.ts")
        .unwrap();
    assert!(streams[0].playlist.as_ref().unwrap().is_live);
}

#[test]
fn dash_template_gives_ten_numbered_segments() {
    let extractor = DASHExtractor::new(Some("https://media.example.com/dash/manifest.mpd".to_string()), HashMap::new());
    let streams = extractor.extract_streams(&dash_sample()).unwrap();
    assert_eq!(streams.len(), 1);
    let s = &streams[0];
    assert_eq!(s.id, "1");
    assert_eq!(s.media_type, Some(MediaType::VIDEO));
    assert_eq!(s.codecs, "avc1.64001e");
    assert_eq!(s.bandwidth, 2000000);
    assert_eq!(s.resolution.as_deref(), Some("1280x720"));
    let p = s.playlist.as_ref().unwrap();
    assert_eq!(p.init_segment.as_deref(), Some("https://media.example.com/dash/init.mp4"));
    let segs = &p.media_parts[0].media_segments;
    assert_eq!(segs.len(), 10);
    assert_eq!(segs[0].uri, "https://media.example.com/dash/segment_1.m4s");
    assert_eq!(segs[9].uri, "https://media.example.com/dash/segment_10.m4s");
    assert_eq!(segs[3].duration, "2");
}

#[test]
fn dash_defaults_and_media_types() {
    let mut mpd = dash_sample();
    mpd.period.adaptation_set[0].mime_type = Some("application/ttml+xml".to_string());
    mpd.period.adaptation_set[0].codecs = None;
    let rep = &mut mpd.period.adaptation_set[0].representation[0];
    rep.width = None;
    let t = rep.segment_template.as_mut().unwrap();
    t.start_number = None;
    t.duration = None;
    let streams = DASHExtractor::new(None, HashMap::new()).extract_streams(&mpd).unwrap();
    let s = &streams[0];
    assert_eq!(s.media_type, Some(MediaType::SUBTITLES));
    assert_eq!(s.codecs, "");
    assert_eq!(s.resolution, None);
    let segs = &s.playlist.as_ref().unwrap().media_parts[0].media_segments;
    assert_eq!(segs[0].uri, "segment_1.m4s");
    assert_eq!(segs[0].duration, "2");
}

#[test]
fn test_mss_stream_fields() {
    let streams = MSSExtractor::new(None, HashMap::new()).extract_streams(&mss_sample()).unwrap();
    assert_eq!(streams.len(), 1);
    assert_eq!(streams[0].id, "video_0");
    assert_eq!(streams[0].media_type, Some(MediaType::VIDEO));
    assert_eq!(streams[0].codecs, "ABCD");
    assert_eq!(streams[0].bandwidth, 2000000);
    assert!(streams[0].playlist.is_none());
}

#[test]
fn mss_chunk_urls() {
    let mut m = mss_sample();
    m.stream_index[0].url = Some("QualityLevels({bitrate})/Fragments(video={start time})".to_string());
    m.stream_index[0].chunks = "3".to_string();
    let streams = MSSExtractor::new(Some("http://ss.example.com/media.ism/Manifest".to_string()), HashMap::new())
        .extract_streams(&m)
        .unwrap();
    let segs = &streams[0].playlist.as_ref().unwrap().media_parts[0].media_segments;
    assert_eq!(segs.len(), 3);
    assert_eq!(segs[0].uri, "http://ss.example.com/media.ism/QualityLevels(2000000)/Fragments(video=0)");
    assert_eq!(segs[2].uri, "http://ss.example.com/media.ism/QualityLevels(2000000)/Fragments(video=4000)");
    assert_eq!(segs[1].duration, "2");
    m.stream_index[0].chunks = "many".to_string();
    let streams = MSSExtractor::new(None, HashMap::new()).extract_streams(&m).unwrap();
    assert_eq!(streams[0].playlist.as_ref().unwrap().media_parts[0].media_segments.len(), 10);
    m.stream_index[0].stream_type = "text".to_string();
    m.stream_index[0].chunks = "0".to_string();
    let streams = MSSExtractor::new(None, HashMap::new()).extract_streams(&m).unwrap();
    assert_eq!(streams[0].media_type, Some(MediaType::SUBTITLES));
    assert!(streams[0].playlist.as_ref().unwrap().media_parts.is_empty());
}

#[test]
fn dash_numbering_range_check() {
    let mut mpd = dash_sample();
    assert!(numbers_fit(&mpd));
    let t = mpd.period.adaptation_set[0].representation[0].segment_template.as_mut().unwrap();
    t.start_number = Some(u64::MAX - 10);
    assert!(numbers_fit(&mpd));
    let t = mpd.period.adaptation_set[0].representation[0].segment_template.as_mut().unwrap();
    t.start_number = Some(u64::MAX - 9);
    assert!(!numbers_fit(&mpd));
    let t = mpd.period.adaptation_set[0].representation[0].segment_template.as_mut().unwrap();
    t.media = None;
    assert!(numbers_fit(&mpd));
}

#[test]
fn mss_chunk_range_check() {
    let mut media = mss_sample();
    media.stream_index[0].chunks = "4294967295".to_string();
    assert!(chunks_fit(&media));
    media.stream_index[0].url = Some("q/{bitrate}/{start time}".to_string());
    assert!(!chunks_fit(&media));
    media.stream_index[0].chunks = "2147484".to_string();
    assert!(chunks_fit(&media));
    media.stream_index[0].chunks = "2147485".to_string();
    assert!(!chunks_fit(&media));
    media.stream_index[0].chunks = "x".to_string();
    assert!(chunks_fit(&media));
}
