use anchor_player::music::{MusicFile, PlayState};
use anchor_player::playlist::{next_track_id, remove_id};
use anchor_player::state::{EventSource, PauseState, SequenceMode, SequenceTypeState};
use anchor_player::time::TimePosition;
use anchor_player::transport::{Action, Transport, TransportError};

fn entry(id: &str, name: &str) -> MusicFile {
    MusicFile::new(id.to_string(), name.to_string(), format!("/music/{}.mp3", name), None, None, None)
}

fn three() -> Vec<MusicFile> {
    vec![entry("A", "alpha"), entry("B", "beta"), entry("C", "gamma")]
}

fn started(a: &Action) -> (String, Option<TimePosition>) {
    match a {
        Action::Start { id, position } => (id.clone(), *position),
        other => panic!("expected a start, got {:?}", other),
    }
}

#[test]
fn repeat_all_scenario_b_then_c_then_a() {
    let mut t = Transport::new();
    t.files.set(three());
    t.sequence.set(1);
    let next = t.finish(&"B".to_string(), 0);
    assert_eq!(next, Some("C".to_string()));
    let next = t.finish(&"C".to_string(), 0);
    assert_eq!(next, Some("A".to_string()));
}

#[test]
fn repeat_one_replays_same_id() {
    let mut t = Transport::new();
    t.files.set(three());
    t.sequence.set(2);
    assert_eq!(t.finish(&"B".to_string(), 0), Some("B".to_string()));
    let empty: Vec<MusicFile> = vec![];
    assert_eq!(next_track_id(SequenceMode::RepeatOne, &empty, &"X".to_string(), 0), Some("X".to_string()));
}

#[test]
fn random_picks_drawn_position_and_empty_does_nothing() {
    let files = three();
    assert_eq!(next_track_id(SequenceMode::Random, &files, &"A".to_string(), 2), Some("C".to_string()));
    let empty: Vec<MusicFile> = vec![];
    assert_eq!(next_track_id(SequenceMode::Random, &empty, &"A".to_string(), 0), None);
    assert_eq!(next_track_id(SequenceMode::RepeatAll, &empty, &"A".to_string(), 0), None);
}

#[test]
fn advance_after_finish_random_stays_in_playlist() {
    let mut t = Transport::new();
    t.files.set(three());
    t.sequence.set(3);
    for _ in 0..20 {
        let next = t.advance_after_finish(&"A".to_string()).unwrap();
        assert!(["A", "B", "C"].contains(&next.as_str()));
    }
}

#[test]
fn finish_clears_time_position() {
    let mut t = Transport::new();
    t.files.set(three());
    t.time_position.set(Some(TimePosition::from_seconds(12)));
    t.finish(&"A".to_string(), 0);
    assert_eq!(t.time_position.get(), None);
}

#[test]
fn unknown_current_id_advances_from_first() {
    let files = three();
    assert_eq!(next_track_id(SequenceMode::RepeatAll, &files, &"Z".to_string(), 0), Some("B".to_string()));
}

#[test]
fn sequence_codes() {
    let mut s = SequenceTypeState::default();
    assert_eq!(s.get(), 1);
    assert_eq!(s.mode(), SequenceMode::RepeatAll);
    s.set(2);
    assert_eq!(s.mode(), SequenceMode::RepeatOne);
    s.set(3);
    assert_eq!(s.mode(), SequenceMode::Random);
    s.set(7);
    assert_eq!(s.mode(), SequenceMode::RepeatAll);
}

#[test]
fn pause_flag_clearing_drops_deferred_command() {
    let mut p = PauseState::default();
    assert!(p.pause);
    p.set(false, Some(EventSource::Pause("PAUSE".to_string())), None);
    assert!(!p.pause);
    assert!(p.event_source.is_none());
    assert!(p.payload.is_none());
}

#[test]
fn seek_when_stopped_starts_at_time() {
    let mut t = Transport::new();
    t.files.set(three());
    let a = t.seek(TimePosition::from_seconds(90)).unwrap();
    let (id, pos) = started(&a);
    assert_eq!(id, "A");
    assert_eq!(pos, Some(TimePosition::from_seconds(90)));
}

#[test]
fn seek_while_playing_defers() {
    let mut t = Transport::new();
    t.files.set(three());
    t.begin("B".to_string());
    let a = t.seek(TimePosition::from_seconds(5)).unwrap();
    assert!(matches!(a, Action::Deferred));
    assert!(t.pause.pause);
    assert!(matches!(t.pause.event_source, Some(EventSource::Play(_))));
    let q = t.pause.payload.clone().unwrap();
    assert_eq!(q.id, "B");
    assert_eq!(q.time_position, Some(TimePosition::from_seconds(5)));
    let (id, pos) = started(&Transport::resume(&t.pause));
    assert_eq!(id, "B");
    assert_eq!(pos, Some(TimePosition::from_seconds(5)));
}

#[test]
fn seek_and_play_without_tracks_fail() {
    let mut t = Transport::new();
    assert_eq!(t.seek(TimePosition::from_seconds(1)).unwrap_err(), TransportError::NothingToSeek);
    assert_eq!(t.play().unwrap_err(), TransportError::NothingToPlay);
    assert_eq!(t.play_next().unwrap_err(), TransportError::EmptyPlaylist);
    assert_eq!(t.play_previous().unwrap_err(), TransportError::EmptyPlaylist);
    assert_eq!(TransportError::NothingToSeek.message(), "No track available to seek");
    assert_eq!(TransportError::NothingToPlay.message(), "No track available to play");
    assert_eq!(TransportError::EmptyPlaylist.message(), "Music files list is empty");
}

#[test]
fn play_resumes_remembered_position() {
    let mut t = Transport::new();
    t.files.set(three());
    t.id.set(Some("C".to_string()));
    t.time_position.set(Some(TimePosition::from_seconds(42)));
    let (id, pos) = started(&t.play().unwrap());
    assert_eq!(id, "C");
    assert_eq!(pos, Some(TimePosition::from_seconds(42)));
    t.begin("C".to_string());
    assert!(matches!(t.play().unwrap(), Action::Idle));
}

#[test]
fn next_and_previous_wrap() {
    let mut t = Transport::new();
    t.files.set(three());
    t.id.set(Some("C".to_string()));
    assert_eq!(started(&t.play_next().unwrap()).0, "A");
    t.id.set(Some("A".to_string()));
    assert_eq!(started(&t.play_previous().unwrap()).0, "C");
    t.id.set(None);
    assert_eq!(started(&t.play_next().unwrap()).0, "A");
    assert_eq!(started(&t.play_previous().unwrap()).0, "A");
}

#[test]
fn next_while_playing_defers_play_next() {
    let mut t = Transport::new();
    t.files.set(three());
    t.begin("A".to_string());
    assert!(matches!(t.play_next().unwrap(), Action::Deferred));
    assert!(matches!(t.pause.event_source, Some(EventSource::PlayNext(_))));
    assert_eq!(started(&Transport::resume(&t.pause)).0, "B");
    t.begin("A".to_string());
    assert!(matches!(t.play_previous().unwrap(), Action::Deferred));
    assert!(matches!(t.pause.event_source, Some(EventSource::PlayPrev(_))));
    assert_eq!(started(&Transport::resume(&t.pause)).0, "C");
}

#[test]
fn switch_and_pause() {
    let mut t = Transport::new();
    t.files.set(three());
    t.time_position.set(Some(TimePosition::from_seconds(3)));
    assert_eq!(started(&t.switch("B".to_string())), ("B".to_string(), None));
    assert_eq!(t.time_position.get(), None);
    let f = t.begin("B".to_string()).unwrap();
    assert_eq!(f.name, "beta");
    t.request_pause();
    assert!(t.pause.pause);
    assert!(matches!(Transport::resume(&t.pause), Action::Idle));
}

#[test]
fn begin_unknown_track_has_no_entry() {
    let mut t = Transport::new();
    t.files.set(three());
    assert!(t.begin("Q".to_string()).is_none());
    assert_eq!(t.id.get(), Some("Q".to_string()));
    assert!(!t.pause.pause);
}

#[test]
fn now_playing_and_fallback_title() {
    let mut t = Transport::new();
    assert_eq!(t.fallback_title(), "");
    t.files.set(three());
    assert_eq!(t.now_playing(), (String::new(), String::new(), String::new()));
    assert_eq!(t.fallback_title(), "alpha");
    t.id.set(Some("B".to_string()));
    assert_eq!(t.now_playing(), ("B".to_string(), "beta".to_string(), "/music/beta.mp3".to_string()));
    assert_eq!(t.fallback_title(), "beta");
    t.id.set(Some("Q".to_string()));
    assert_eq!(t.now_playing(), ("Q".to_string(), String::new(), String::new()));
    assert_eq!(t.fallback_title(), "alpha");
}

#[test]
fn clear_and_remove() {
    let mut t = Transport::new();
    t.files.set(three());
    t.remove_track(&"B".to_string());
    let ids: Vec<String> = t.files.get().iter().map(|f| f.id.clone()).collect();
    assert_eq!(ids, vec!["A".to_string(), "C".to_string()]);
    let kept = remove_id(&three(), &"Z".to_string());
    assert_eq!(kept.len(), 3);
    t.begin("A".to_string());
    t.clear_playlist();
    assert!(t.files.get().is_empty());
    assert!(t.pause.pause);
    assert_eq!(t.id.get(), None);
}

#[test]
fn add_tracks_appends_fresh_entries() {
    let mut t = Transport::new();
    let stored = vec![entry("A", "alpha")];
    let all = t.add_tracks(stored, vec!["/x/Song One.flac".to_string()]);
    assert_eq!(all.len(), 2);
    assert_eq!(all[0].id, "A");
    assert_eq!(all[1].name, "Song One");
    assert_eq!(all[1].path, "/x/Song One.flac");
    assert_eq!(all[1].id.len(), 36);
    assert!(all[1].image_path.is_none());
    assert_eq!(t.files.get().len(), 2);
}

#[test]
fn lookup_results_land_on_named_entry() {
    let mut t = Transport::new();
    t.files.set(three());
    let found = anchor_player::music::MusicMap::new(
        "beta".to_string(),
        "Artist".to_string(),
        "Album".to_string(),
        "/cache/x.webp".to_string(),
    );
    let f = t.apply_lookup(&found).unwrap();
    assert_eq!(f.id, "B");
    assert_eq!(f.artist, Some("Artist".to_string()));
    assert_eq!(t.files.get()[1].image_path, Some("/cache/x.webp".to_string()));
    let cleared = t.forget_images();
    assert!(cleared.iter().all(|f| f.image_path.is_none()));
    assert_eq!(cleared[1].album, Some("Album".to_string()));
    let missing = anchor_player::music::MusicMap::new(
        "none".to_string(),
        String::new(),
        String::new(),
        String::new(),
    );
    assert!(t.apply_lookup(&missing).is_none());
}

#[test]
fn restore_reads_progress_text() {
    let mut t = Transport::new();
    let stored = PlayState::new(
        "B".to_string(),
        "beta".to_string(),
        "/music/beta.mp3".to_string(),
        "0:01:30.5".to_string(),
        "0:02:00.0".to_string(),
    );
    t.restore_play_state(&stored);
    assert_eq!(t.id.get(), Some("B".to_string()));
    let p = t.time_position.get().unwrap();
    assert_eq!(p.seconds, 90);
    assert_eq!((p.frac_numer, p.frac_denom), (5, 10));
}
