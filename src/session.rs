//! Decisions of the decode loop for one playback session: which track is
//! played, where it starts after a seek, what each packet leads to, and how
//! the session ends. The caller pulls packets, decodes them and writes to the
//! sink; between packets it asks these functions what to do.

use vstd::prelude::*;

use crate::time::{TimeBase, TimePosition, calc_time, clock_text, format_progress, time_of};

verus! {

/// One track of a probed container, as the loop needs it.
#[derive(Debug, Clone, Copy, PartialEq, Eq, Structural)]
pub struct TrackDesc {
    pub id: u32,
    /// The codec is the null placeholder: nothing can decode it.
    pub codec_is_null: bool,
    pub time_base: Option<TimeBase>,
    pub start_ts: u64,
    pub n_frames: Option<u64>,
}

impl TrackDesc {
    pub open spec fn wf(&self) -> bool {
        self.time_base matches Some(tb) ==> tb.wf()
    }
}

/// Index of the first track whose codec is not the null codec.
pub open spec fn is_first_supported(tracks: Seq<TrackDesc>, i: int) -> bool {
    &&& 0 <= i < tracks.len()
    &&& !tracks[i].codec_is_null
    &&& forall|j: int| 0 <= j < i ==> tracks[j].codec_is_null
}

pub open spec fn has_supported(tracks: Seq<TrackDesc>) -> bool {
    exists|i: int| 0 <= i < tracks.len() && !tracks[i].codec_is_null
}

/// The first track with a codec other than the null codec.
pub fn first_supported_track(tracks: &Vec<TrackDesc>) -> (r: Option<usize>)
    ensures
        r matches Some(i) ==> is_first_supported(tracks@, i as int),
        r is None <==> !has_supported(tracks@),
{
    let mut i: usize = 0;
    while i < tracks.len()
        invariant
            i <= tracks@.len(),
            forall|j: int| 0 <= j < i ==> tracks@[j].codec_is_null,
        decreases tracks.len() - i,
    {
        if !tracks[i].codec_is_null {
            return Some(i);
        }
        i = i + 1;
    }
    None
}

/// The track to play: the requested index when the container has it,
/// else the first supported track.
pub fn select_track(tracks: &Vec<TrackDesc>, requested: Option<usize>) -> (r: Option<usize>)
    ensures
        requested matches Some(k) && k < tracks@.len() ==> r == requested,
        !(requested matches Some(k) && k < tracks@.len()) ==> {
            &&& r matches Some(i) ==> is_first_supported(tracks@, i as int)
            &&& r is None <==> !has_supported(tracks@)
        },
{
    match requested {
        Some(k) => {
            if k < tracks.len() {
                return Some(k);
            }
        },
        None => {},
    }
    first_supported_track(tracks)
}

/// What the reader answered to a seek request.
#[derive(Debug, Clone, Copy, PartialEq, Eq, Structural)]
pub enum SeekOutcome {
    /// Packets before `required_ts` only prime the decoder.
    Reached { required_ts: u64 },
    /// The stream changed; tracks must be chosen again.
    ResetRequired,
    /// Any other failure: playback goes on from where the stream is.
    Failed,
}

/// Track and seek threshold that the loop starts with.
#[derive(Debug, Clone, Copy, PartialEq, Eq, Structural)]
pub struct LoopStart {
    pub track_index: usize,
    pub seek_ts: u64,
}

/// Where the loop starts after the seek answered `outcome` (`None`: no seek
/// was asked). A failed seek is no error: the loop starts at the stream's
/// position with no threshold. A reset picks the first supported track again.
pub fn start_after_seek(tracks: &Vec<TrackDesc>, selected: usize, outcome: Option<SeekOutcome>) -> (r: Option<LoopStart>)
    requires
        selected < tracks@.len(),
    ensures
        match outcome {
            Some(SeekOutcome::Reached { required_ts }) => r == Some(LoopStart { track_index: selected, seek_ts: required_ts }),
            Some(SeekOutcome::ResetRequired) => {
                &&& r matches Some(s) ==> s.seek_ts == 0 && is_first_supported(tracks@, s.track_index as int)
                &&& r is None <==> !has_supported(tracks@)
            },
            _ => r == Some(LoopStart { track_index: selected, seek_ts: 0 }),
        },
{
    match outcome {
        Some(SeekOutcome::Reached { required_ts }) => Some(LoopStart { track_index: selected, seek_ts: required_ts }),
        Some(SeekOutcome::ResetRequired) => match first_supported_track(tracks) {
            Some(i) => Some(LoopStart { track_index: i, seek_ts: 0 }),
            None => None,
        },
        _ => Some(LoopStart { track_index: selected, seek_ts: 0 }),
    }
}

/// Where the loop starts again after the reader asked for a reset.
pub fn restart_after_reset(tracks: &Vec<TrackDesc>) -> (r: Option<LoopStart>)
    ensures
        r matches Some(s) ==> s.seek_ts == 0 && is_first_supported(tracks@, s.track_index as int),
        r is None <==> !has_supported(tracks@),
{
    match first_supported_track(tracks) {
        Some(i) => Some(LoopStart { track_index: i, seek_ts: 0 }),
        None => None,
    }
}

/// Why reading the next packet failed.
#[derive(Debug, Clone, PartialEq, Eq)]
pub enum ReadError {
    /// The reader's end-of-stream signal.
    EndOfStream,
    /// The stream's tracks or codecs changed.
    ResetRequired,
    /// Any other failure, with its message.
    Other(String),
}

/// How the packet loop ended.
#[derive(Debug, Clone, PartialEq, Eq)]
pub enum LoopEnd {
    /// The pause flag was found set between packets.
    Paused,
    /// The stream ended by itself.
    Finished,
    /// The stream changed: choose a track again and restart the loop.
    Reset,
    /// Playback cannot go on, with the message of the cause.
    Failed(String),
    /// The container has no track to play.
    NoTrack,
}

/// What one turn of the loop observed.
#[derive(Debug, Clone, PartialEq, Eq)]
pub enum Tick {
    /// The pause flag was set.
    Paused,
    /// Reading the next packet failed.
    ReadFailed(ReadError),
    /// A packet of another track.
    OtherTrack,
    /// A packet of the selected track at `ts` decoded into `frames` frames.
    Decoded { ts: u64, frames: u64 },
    /// The packet could not be decoded, and the decoder can go on.
    DecodeFailed,
    /// The decoder failed for good.
    DecoderFailed(String),
}

pub open spec fn read_end(e: ReadError) -> LoopEnd {
    match e {
        ReadError::EndOfStream => LoopEnd::Finished,
        ReadError::ResetRequired => LoopEnd::Reset,
        ReadError::Other(m) => LoopEnd::Failed(m),
    }
}

/// The end that a turn brings, if it brings one.
pub open spec fn tick_end(t: Tick) -> Option<LoopEnd> {
    match t {
        Tick::Paused => Some(LoopEnd::Paused),
        Tick::ReadFailed(e) => Some(read_end(e)),
        Tick::DecoderFailed(m) => Some(LoopEnd::Failed(m)),
        _ => None,
    }
}

/// The loop over the packets of one track.
#[derive(Debug, Clone, Copy, PartialEq, Eq, Structural)]
pub struct TrackLoop {
    pub track_id: u32,
    /// Packets before this timestamp are decoded but neither shown nor written.
    pub seek_ts: u64,
    pub time_base: Option<TimeBase>,
    /// Timestamp where the track ends, when the container tells.
    pub end_ts: Option<u64>,
    /// The sink has been opened.
    pub sink_open: bool,
}

/// A turn writes the decoded packet to the sink.
pub open spec fn tick_writes(s: TrackLoop, t: Tick) -> bool {
    t matches Tick::Decoded { ts, frames } && ts >= s.seek_ts
}

/// The loop after a turn that did not end it.
pub open spec fn after_tick(s: TrackLoop, t: Tick) -> TrackLoop {
    if t is Decoded {
        TrackLoop { sink_open: true, ..s }
    } else {
        s
    }
}

/// Timestamps of the packets written, and the end, of a loop that observes `ticks`.
pub open spec fn run(s: TrackLoop, ticks: Seq<Tick>) -> (Seq<u64>, Option<LoopEnd>)
    decreases ticks.len(),
{
    if ticks.len() == 0 {
        (Seq::empty(), None)
    } else {
        match tick_end(ticks[0]) {
            Some(e) => (Seq::empty(), Some(e)),
            None => {
                let rest = run(after_tick(s, ticks[0]), ticks.drop_first());
                if tick_writes(s, ticks[0]) {
                    (seq![ticks[0]->ts] + rest.0, rest.1)
                } else {
                    rest
                }
            },
        }
    }
}

/// `ticks` without the recoverable decode errors.
pub open spec fn without_decode_errors(ticks: Seq<Tick>) -> Seq<Tick>
    decreases ticks.len(),
{
    if ticks.len() == 0 {
        ticks
    } else if ticks[0] is DecodeFailed {
        without_decode_errors(ticks.drop_first())
    } else {
        seq![ticks[0]] + without_decode_errors(ticks.drop_first())
    }
}

/// Recoverable decode errors are absorbed: the loop writes the same packets
/// and ends in the same way as it would without them.
pub proof fn lemma_decode_errors_absorbed(s: TrackLoop, ticks: Seq<Tick>)
    ensures
        run(s, ticks) == run(s, without_decode_errors(ticks)),
    decreases ticks.len(),
{
    if ticks.len() > 0 {
        lemma_decode_errors_absorbed(after_tick(s, ticks[0]), ticks.drop_first());
        lemma_decode_errors_absorbed(s, ticks.drop_first());
        if !(ticks[0] is DecodeFailed) {
            let w = without_decode_errors(ticks);
            assert(w[0] == ticks[0]);
            assert(w.drop_first() =~= without_decode_errors(ticks.drop_first()));
        }
    }
}

/// A pause found while the loop runs ends it there: nothing observed after
/// it is written, and the loop ends as paused.
pub proof fn lemma_pause_stops_writes(s: TrackLoop, ticks: Seq<Tick>, k: int)
    requires
        0 <= k < ticks.len(),
        ticks[k] is Paused,
        forall|j: int| 0 <= j < k ==> tick_end(#[trigger] ticks[j]) is None,
    ensures
        run(s, ticks).1 == Some(LoopEnd::Paused),
        run(s, ticks).0 == run(s, ticks.take(k)).0,
    decreases k,
{
    if k > 0 {
        assert(tick_end(ticks[0]) is None);
        let rest = ticks.drop_first();
        assert forall|j: int| 0 <= j < k - 1 implies tick_end(#[trigger] rest[j]) is None by {
            assert(rest[j] == ticks[j + 1]);
        }
        lemma_pause_stops_writes(after_tick(s, ticks[0]), rest, k - 1);
        assert(ticks.take(k).drop_first() =~= rest.take(k - 1));
        assert(ticks.take(k)[0] == ticks[0]);
    }
}

/// What the sink is told after a packet decoded.
#[derive(Debug, Clone)]
pub struct Decoded {
    /// Open the sink first, from this buffer's signal spec and capacity.
    pub open_sink: bool,
    /// The packet is at or past the seek threshold: publish `progress`, keep
    /// `position` and write the audio.
    pub write: bool,
    pub progress: String,
    pub left_duration: String,
    pub position: Option<TimePosition>,
}

/// Elapsed time of `ts` as progress text, empty without a time base.
pub open spec fn progress_text(s: TrackLoop, ts: nat) -> Seq<char> {
    match s.time_base {
        Some(tb) => match time_of(tb, ts) {
            Some(t) => clock_text(t, 1, 10),
            None => Seq::empty(),
        },
        None => Seq::empty(),
    }
}

/// Time left after `ts` as progress text, empty without a time base or an end.
pub open spec fn left_text(s: TrackLoop, ts: nat) -> Seq<char> {
    match (s.time_base, s.end_ts) {
        (Some(tb), Some(end)) => match time_of(tb, if end >= ts { (end - ts) as nat } else { 0 }) {
            Some(t) => clock_text(t, 1, 10),
            None => Seq::empty(),
        },
        _ => Seq::empty(),
    }
}

pub open spec fn position_of(s: TrackLoop, ts: nat) -> Option<TimePosition> {
    match s.time_base {
        Some(tb) => time_of(tb, ts),
        None => None,
    }
}

fn progress_of(tb: Option<TimeBase>, ts: u64) -> (r: (String, Option<TimePosition>))
    requires
        tb matches Some(b) ==> b.wf(),
    ensures
        r.1 == match tb {
            Some(b) => time_of(b, ts as nat),
            None => None,
        },
        r.0@ == match r.1 {
            Some(t) => clock_text(t, 1, 10),
            None => Seq::empty(),
        },
{
    match tb {
        Some(b) => match calc_time(b, ts) {
            Some(t) => (format_progress(t), Some(t)),
            None => (String::new(), None),
        },
        None => (String::new(), None),
    }
}

impl TrackLoop {
    pub open spec fn wf(&self) -> bool {
        self.time_base matches Some(tb) ==> tb.wf()
    }

    /// The loop over `track`, whose packets before `seek_ts` are not written;
    /// `sink_open` tells whether an earlier loop of the session opened the sink.
    pub fn new(track: &TrackDesc, seek_ts: u64, sink_open: bool) -> (r: TrackLoop)
        requires
            track.wf(),
        ensures
            r.wf(),
            r.track_id == track.id,
            r.seek_ts == seek_ts,
            r.time_base == track.time_base,
            r.end_ts == match track.n_frames {
                Some(n) => if track.start_ts + n <= u64::MAX { Some((track.start_ts + n) as u64) } else { None },
                None => None,
            },
            r.sink_open == sink_open,
    {
        let end_ts = match track.n_frames {
            Some(n) => track.start_ts.checked_add(n),
            None => None,
        };
        TrackLoop { track_id: track.id, seek_ts, time_base: track.time_base, end_ts, sink_open }
    }

    /// The check between packets: a set pause flag ends the loop.
    pub fn check_pause(&self, paused: bool) -> (r: Option<LoopEnd>)
        ensures
            paused ==> r == tick_end(Tick::Paused),
            !paused ==> r is None,
    {
        if paused {
            Some(LoopEnd::Paused)
        } else {
            None
        }
    }

    /// Reading a packet failed: the end-of-stream signal ends the loop
    /// normally, a reset restarts it, anything else is fatal.
    pub fn on_read_error(&self, e: ReadError) -> (r: LoopEnd)
        ensures
            Some(r) == tick_end(Tick::ReadFailed(e)),
    {
        match e {
            ReadError::EndOfStream => LoopEnd::Finished,
            ReadError::ResetRequired => LoopEnd::Reset,
            ReadError::Other(m) => LoopEnd::Failed(m),
        }
    }

    /// A packet belongs to the selected track; others are skipped.
    pub fn accepts(&self, packet_track: u32) -> (r: bool)
        ensures
            r == (packet_track == self.track_id),
    {
        packet_track == self.track_id
    }

    /// A decode error: one the decoder can go on from (`fatal` is `None`) is
    /// absorbed and the loop goes on; any other ends it.
    pub fn on_decode_error(&self, fatal: Option<String>) -> (r: Option<LoopEnd>)
        ensures
            match fatal {
                None => r == tick_end(Tick::DecodeFailed) && r is None,
                Some(m) => r == tick_end(Tick::DecoderFailed(m)),
            },
    {
        match fatal {
            None => None,
            Some(m) => Some(LoopEnd::Failed(m)),
        }
    }

    /// A packet at `ts` decoded into `frames` frames.
    pub fn on_decoded(&mut self, ts: u64, frames: u64) -> (r: Decoded)
        requires
            old(self).wf(),
        ensures
            *final(self) == after_tick(*old(self), Tick::Decoded { ts, frames }),
            r.open_sink == !old(self).sink_open,
            r.write == tick_writes(*old(self), Tick::Decoded { ts, frames }),
            r.write ==> r.progress@ == progress_text(*old(self), ts as nat)
                && r.left_duration@ == left_text(*old(self), ts as nat)
                && r.position == position_of(*old(self), ts as nat),
            !r.write ==> r.progress@.len() == 0 && r.left_duration@.len() == 0 && r.position is None,
    {
        let open_sink = !self.sink_open;
        self.sink_open = true;
        if ts < self.seek_ts {
            return Decoded { open_sink, write: false, progress: String::new(), left_duration: String::new(), position: None };
        }
        let (progress, position) = progress_of(self.time_base, ts);
        let left_duration = match self.end_ts {
            Some(end) => {
                let (text, _) = progress_of(self.time_base, end.saturating_sub(ts));
                text
            },
            None => String::new(),
        };
        Decoded { open_sink, write: true, progress, left_duration, position }
    }
}

/// Code of a session whose track reached its end while not paused: play the next one.
pub const FINISHED: i32 = 100;

/// Code of a session that stopped on a pause, or had nothing to play: stay stopped.
pub const STOPPED: i32 = 0;

/// The result of a session whose loop ended with `end`; `paused` is the pause
/// flag read after the sink was flushed. Only a natural end while not paused
/// gives `FINISHED`; a failure is handed back as its message.
pub open spec fn exit_of(end: LoopEnd, paused: bool) -> Result<i32, String> {
    match end {
        LoopEnd::Finished => if paused {
            Ok(STOPPED)
        } else {
            Ok(FINISHED)
        },
        LoopEnd::Failed(m) => Err(m),
        _ => Ok(STOPPED),
    }
}

pub fn exit_status(end: LoopEnd, paused: bool) -> (r: Result<i32, String>)
    ensures
        r == exit_of(end, paused),
{
    match end {
        LoopEnd::Finished => if paused {
            Ok(STOPPED)
        } else {
            Ok(FINISHED)
        },
        LoopEnd::Failed(m) => Err(m),
        _ => Ok(STOPPED),
    }
}

/// A session that found the pause flag set exits with `STOPPED`, never with `FINISHED`.
pub proof fn lemma_pause_exits_stopped(s: TrackLoop, ticks: Seq<Tick>, k: int, paused_after_flush: bool)
    requires
        0 <= k < ticks.len(),
        ticks[k] is Paused,
        forall|j: int| 0 <= j < k ==> tick_end(#[trigger] ticks[j]) is None,
    ensures
        run(s, ticks).1 matches Some(e) && exit_of(e, paused_after_flush) == Ok::<i32, String>(STOPPED),
        run(s, ticks).0 == run(s, ticks.take(k)).0,
{
    lemma_pause_stops_writes(s, ticks, k);
}

} // verus!
