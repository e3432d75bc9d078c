use anchor_player::metadata::{
    data_uri, image_of, images_of, info_of, meta_from_tags, select_meta, track_infos, StdKey, TagEntry,
    TrackParams, Visual,
};
use anchor_player::playlist::{extract_name_with_path, filter_audio_files, new_entries};
use anchor_player::time::{calc_time, format_precise, format_progress, parse_str_time, TimeBase, TimePosition};
use anchor_player::transport::failure_event;

fn tag(key: Option<StdKey>, v: &str) -> TagEntry {
    TagEntry { std_key: key, value: v.to_string() }
}

fn params() -> TrackParams {
    TrackParams {
        codec_names: Some(("MPEG-1 Layer 3".to_string(), "mp3".to_string())),
        sample_rate: Some(44100),
        start_ts: 0,
        time_base: Some(TimeBase { numer: 1, denom: 44100 }),
        n_frames: Some(44100 * 61 + 22050),
        delay: Some(529),
        padding: None,
        sample_format: Some("F32".to_string()),
        bits_per_sample: None,
        channels: Some(3),
        channel_layout: None,
        language: Some("eng".to_string()),
    }
}

#[test]
fn progress_text_rounds_to_tenths() {
    let t = TimePosition { seconds: 3725, frac_numer: 96, frac_denom: 100 };
    assert_eq!(format_progress(t), "1:02:06.0");
    let t = TimePosition { seconds: 59, frac_numer: 97, frac_denom: 100 };
    assert_eq!(format_progress(t), "0:00:60.0");
    let t = TimePosition { seconds: 5, frac_numer: 1, frac_denom: 4 };
    assert_eq!(format_progress(t), "0:00:05.3");
    assert_eq!(format_progress(TimePosition::from_seconds(0)), "0:00:00.0");
    assert_eq!(format_progress(TimePosition::from_seconds(36000 * 3)), "30:00:00.0");
}

#[test]
fn precise_text_has_milliseconds() {
    let t = calc_time(TimeBase { numer: 1, denom: 44100 }, 44100 * 61 + 22050).unwrap();
    assert_eq!(format_precise(t), "0:01:01.500");
}

#[test]
fn calc_time_splits_seconds_and_fraction() {
    let t = calc_time(TimeBase { numer: 1, denom: 1000 }, 1234).unwrap();
    assert_eq!((t.seconds, t.frac_numer, t.frac_denom), (1, 234, 1000));
    assert!(calc_time(TimeBase { numer: u32::MAX, denom: 1 }, u64::MAX).is_none());
}

#[test]
fn parse_time_text() {
    let t = parse_str_time("1:02:03.25").unwrap();
    assert_eq!((t.seconds, t.frac_numer, t.frac_denom), (3723, 25, 100));
    assert!(parse_str_time("1:02:03").is_none());
    assert!(parse_str_time("").is_none());
    assert!(parse_str_time("a:02:03.0").is_none());
    assert!(parse_str_time("1:02:03.0x").is_none());
    assert!(parse_str_time("1:02:03.1234567890").is_none());
    assert_eq!(format_progress(parse_str_time("0:04:07.3").unwrap()), "0:04:07.3");
}

#[test]
fn tags_give_meta_last_value_wins() {
    let tags = vec![
        tag(Some(StdKey::TrackTitle), "First"),
        tag(Some(StdKey::Artist), "Band"),
        tag(None, "ignored"),
        tag(Some(StdKey::Other), "x"),
        tag(Some(StdKey::TrackTitle), "Second"),
    ];
    let m = meta_from_tags(&tags).unwrap();
    assert_eq!(m.title, "Second");
    assert_eq!(m.artist, "Band");
    assert_eq!(m.album, "");
    assert!(meta_from_tags(&vec![]).is_none());
}

#[test]
fn container_tags_win_then_probe_then_fallback() {
    let c = vec![tag(Some(StdKey::Album), "C")];
    let p = vec![tag(Some(StdKey::Album), "P")];
    let none: Vec<TagEntry> = vec![];
    assert_eq!(select_meta(&c, &p, "f".to_string()).album, "C");
    assert_eq!(select_meta(&none, &p, "f".to_string()).album, "P");
    let m = select_meta(&none, &none, "file name".to_string());
    assert_eq!(m.title, "file name");
    assert_eq!(m.artist, "");
}

#[test]
fn picture_becomes_data_uri() {
    let v = Visual { media_type: "Image/JPEG".to_string(), data: vec![1, 2, 3, 4] };
    assert_eq!(image_of(&v).image, "data:image/jpeg;base64, AQIDBA==");
    assert_eq!(data_uri("image/png", "QQ=="), "data:image/png;base64, QQ==");
    let c: Vec<Visual> = vec![];
    let p = vec![v.clone(), Visual { media_type: "image/png".to_string(), data: vec![] }];
    let imgs = images_of(&c, &p);
    assert_eq!(imgs.len(), 2);
    assert_eq!(imgs[1].image, "data:image/png;base64, ");
    let only = images_of(&vec![Visual { media_type: "image/png".to_string(), data: b"M".to_vec() }], &p);
    assert_eq!(only.len(), 1);
    assert_eq!(only[0].image, "data:image/png;base64, TQ==");
}

#[test]
fn one_info_per_track() {
    let infos = track_infos(&vec![params(), params(), params()]);
    assert_eq!(infos.len(), 3);
    assert!(track_infos(&vec![]).is_empty());
}

#[test]
fn info_fields_as_text() {
    let m = info_of(&params());
    assert_eq!(m.codec, "MPEG-1 Layer 3");
    assert_eq!(m.codec_short, "mp3");
    assert_eq!(m.sample_rate, "44100");
    assert_eq!(m.start_time, "");
    assert_eq!(m.duration, "0:01:01.500 (2712150)");
    assert_eq!(m.frames, "");
    assert_eq!(m.time_base, "1/44100");
    assert_eq!(m.encoder_delay, "529");
    assert_eq!(m.encoder_padding, "");
    assert_eq!(m.sample_format, "F32");
    assert_eq!(m.channel, "2");
    assert_eq!(m.channel_map, format!("{:#032b}", 3u32));
    assert_eq!(m.language, "eng");
    let mut p = params();
    p.time_base = None;
    p.start_ts = 7;
    let m = info_of(&p);
    assert_eq!(m.frames, "2712150");
    assert_eq!(m.duration, "");
    assert_eq!(m.start_time, "7");
    let mut p = params();
    p.start_ts = 44100;
    assert_eq!(info_of(&p).start_time, "0:00:01.000 (44100)");
}

#[test]
fn audio_files_are_filtered() {
    let paths: Vec<String> = vec![
        "/m/a.mp3", "/m/.hidden.mp3", "/m/B.FLAC", "/m/cover.jpg", "/m/noext", "/m/c.Mkv", "/m/d.ogg",
    ]
    .into_iter()
    .map(String::from)
    .collect();
    let kept = filter_audio_files(&paths);
    assert_eq!(kept, vec!["/m/a.mp3", "/m/B.FLAC", "/m/c.Mkv", "/m/d.ogg"]);
}

#[test]
fn names_come_from_file_stems() {
    assert_eq!(extract_name_with_path("/music/Artist - Song.mp3".to_string()), "Artist - Song");
    assert_eq!(extract_name_with_path("/".to_string()), "");
    let e = new_entries(vec!["/a/x.wav".to_string(), "/a/y.wav".to_string()]);
    assert_eq!(e.len(), 2);
    assert_eq!(e[1].name, "y");
    assert_ne!(e[0].id, e[1].id);
}

#[test]
fn failure_messages_are_lowercased() {
    let e = failure_event("A".to_string(), "song".to_string(), "IO Error: End Of Stream");
    assert_eq!(e.message, "io error: end of stream");
    assert_eq!(e.id, Some("A".to_string()));
}
