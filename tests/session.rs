use anchor_player::output::{ring_buffer_len, BlockWrite, SinkControl, WritePlan};
use anchor_player::session::{
    exit_status, restart_after_reset, select_track, start_after_seek, LoopEnd, LoopStart, ReadError,
    SeekOutcome, TrackDesc, TrackLoop, FINISHED, STOPPED,
};
use anchor_player::time::{parse_str_time, TimeBase, TimePosition};
use anchor_player::transport::{Action, Transport};
use anchor_player::music::MusicFile;

fn track(id: u32, null: bool) -> TrackDesc {
    TrackDesc {
        id,
        codec_is_null: null,
        time_base: Some(TimeBase { numer: 1, denom: 44100 }),
        start_ts: 0,
        n_frames: Some(44100 * 200),
    }
}

#[test]
fn seek_failure_resumes_from_current_position() {
    // A seek to 00:01:30.0 whose reader fails: playback starts at the
    // stream's position, with no threshold and no error.
    let time = parse_str_time("00:01:30.0").unwrap();
    assert_eq!(time.seconds, 90);
    assert_eq!(time.frac_numer, 0);
    let mut t = Transport::new();
    t.files.set(vec![MusicFile::new("A".into(), "a".into(), "/a.mp3".into(), None, None, None)]);
    let a = t.seek(time).unwrap();
    assert!(matches!(a, Action::Start { position: Some(p), .. } if p == time));
    let tracks = vec![track(0, false)];
    let start = start_after_seek(&tracks, 0, Some(SeekOutcome::Failed));
    assert_eq!(start, Some(LoopStart { track_index: 0, seek_ts: 0 }));
}

#[test]
fn seek_reached_sets_threshold() {
    let tracks = vec![track(0, false)];
    let start = start_after_seek(&tracks, 0, Some(SeekOutcome::Reached { required_ts: 3969000 }));
    assert_eq!(start, Some(LoopStart { track_index: 0, seek_ts: 3969000 }));
    assert_eq!(start_after_seek(&tracks, 0, None), Some(LoopStart { track_index: 0, seek_ts: 0 }));
}

#[test]
fn reset_selects_first_supported_track() {
    let tracks = vec![track(0, true), track(1, false), track(2, false)];
    let start = start_after_seek(&tracks, 2, Some(SeekOutcome::ResetRequired));
    assert_eq!(start, Some(LoopStart { track_index: 1, seek_ts: 0 }));
    assert_eq!(restart_after_reset(&tracks), Some(LoopStart { track_index: 1, seek_ts: 0 }));
    let nulls = vec![track(0, true)];
    assert_eq!(restart_after_reset(&nulls), None);
}

#[test]
fn select_track_prefers_request_then_first_supported() {
    let tracks = vec![track(0, true), track(1, false)];
    assert_eq!(select_track(&tracks, Some(0)), Some(0));
    assert_eq!(select_track(&tracks, Some(5)), Some(1));
    assert_eq!(select_track(&tracks, None), Some(1));
    let empty: Vec<TrackDesc> = vec![];
    assert_eq!(select_track(&empty, None), None);
}

#[test]
fn decode_errors_are_absorbed() {
    let mut lp = TrackLoop::new(&track(7, false), 0, false);
    assert_eq!(lp.check_pause(false), None);
    assert!(lp.accepts(7));
    assert!(!lp.accepts(8));
    assert_eq!(lp.on_decode_error(None), None);
    let d = lp.on_decoded(44100, 1152);
    assert!(d.open_sink);
    assert!(d.write);
    assert_eq!(lp.on_decode_error(None), None);
    let d = lp.on_decoded(88200, 1152);
    assert!(!d.open_sink);
    assert!(d.write);
    assert_eq!(d.progress, "0:00:02.0");
    assert_eq!(lp.on_decode_error(Some("Bad".to_string())), Some(LoopEnd::Failed("Bad".to_string())));
}

#[test]
fn pause_ends_loop_with_stopped_code() {
    let lp = TrackLoop::new(&track(0, false), 0, true);
    let end = lp.check_pause(true).unwrap();
    assert_eq!(end, LoopEnd::Paused);
    assert_eq!(exit_status(end.clone(), false), Ok(STOPPED));
    assert_eq!(exit_status(end, true), Ok(STOPPED));
    assert_ne!(STOPPED, FINISHED);
}

#[test]
fn end_of_stream_finishes_unless_paused() {
    let lp = TrackLoop::new(&track(0, false), 0, true);
    let end = lp.on_read_error(ReadError::EndOfStream);
    assert_eq!(end, LoopEnd::Finished);
    assert_eq!(exit_status(end.clone(), false), Ok(100));
    assert_eq!(exit_status(end, true), Ok(0));
    assert_eq!(lp.on_read_error(ReadError::ResetRequired), LoopEnd::Reset);
    let failed = lp.on_read_error(ReadError::Other("Io".to_string()));
    assert_eq!(exit_status(failed, false), Err("Io".to_string()));
    assert_eq!(exit_status(LoopEnd::NoTrack, false), Ok(0));
}

#[test]
fn packets_before_threshold_are_not_written() {
    let mut lp = TrackLoop::new(&track(0, false), 1000, false);
    let d = lp.on_decoded(999, 100);
    assert!(d.open_sink);
    assert!(!d.write);
    assert_eq!(d.progress, "");
    let d = lp.on_decoded(1000, 100);
    assert!(d.write);
}

#[test]
fn progress_and_left_duration() {
    let desc = TrackDesc {
        id: 0,
        codec_is_null: false,
        time_base: Some(TimeBase { numer: 1, denom: 1000 }),
        start_ts: 0,
        n_frames: Some(3_725_000),
    };
    let mut lp = TrackLoop::new(&desc, 0, true);
    let d = lp.on_decoded(65_350, 10);
    assert_eq!(d.progress, "0:01:05.4");
    assert_eq!(d.left_duration, "1:00:59.7");
    let p = d.position.unwrap();
    assert_eq!(p.seconds, 65);
    assert_eq!((p.frac_numer, p.frac_denom), (350, 1000));
    let d = lp.on_decoded(4_000_000, 10);
    assert_eq!(d.left_duration, "0:00:00.0");
    let no_tb = TrackDesc { time_base: None, ..desc };
    let mut lp = TrackLoop::new(&no_tb, 0, true);
    let d = lp.on_decoded(5, 10);
    assert!(d.write);
    assert_eq!(d.progress, "");
    assert_eq!(d.position, None);
}

#[test]
fn sink_write_plans() {
    let mut s = SinkControl::new();
    assert_eq!(s.plan_write(0, true), WritePlan { stream_running: None, enqueue: false });
    assert!(s.running);
    assert_eq!(s.plan_write(10, true), WritePlan { stream_running: Some(false), enqueue: false });
    assert!(!s.running);
    assert_eq!(s.plan_write(10, false), WritePlan { stream_running: Some(true), enqueue: true });
    s.enqueued_samples(20);
    assert_eq!(s.enqueued, 20);
}

#[test]
fn flush_without_remainder_writes_nothing_and_stops() {
    let mut s = SinkControl::new();
    s.enqueued_samples(8);
    assert_eq!(s.flush(0), 0);
    assert_eq!(s.enqueued, 8);
    assert!(!s.running);
    assert_eq!(s.flush(0), 0);
    assert_eq!(s.enqueued, 8);
    assert!(!s.running);
}

#[test]
fn block_write_runs_to_the_end() {
    let mut w = BlockWrite::new(10);
    assert!(!w.advance(4));
    assert!(!w.advance(0));
    assert!(w.advance(6));
    assert_eq!(w.offset, 10);
}

#[test]
fn ring_buffer_holds_200_ms() {
    assert_eq!(ring_buffer_len(44100, 2), Some(17640));
    assert_eq!(ring_buffer_len(48000, 6), Some(57600));
    assert_eq!(ring_buffer_len(48000, 0), Some(0));
    assert_eq!(ring_buffer_len(44100, usize::MAX), None);
}

#[test]
fn time_position_zero_fraction() {
    let t = TimePosition::from_seconds(3);
    assert_eq!((t.seconds, t.frac_numer, t.frac_denom), (3, 0, 1));
}
