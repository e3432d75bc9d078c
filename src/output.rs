//! Errors of the audio sink.

use vstd::prelude::*;

verus! {

/// Why an audio sink could not be opened or written.
#[derive(Debug, Clone, Copy, PartialEq, Eq, Structural)]
pub enum AudioOutputError {
    OpenStreamError,
    PlayStreamError,
    StreamClosedError,
}

/// Number of interleaved samples the ring buffer holds: 200 ms of audio
/// at `sample_rate` with `channels` channels.
pub open spec fn ring_len_spec(sample_rate: nat, channels: nat) -> nat {
    ((200 * sample_rate) / 1000) * channels
}

/// Capacity of the sink's ring buffer, or `None` where it does not fit in a `usize`.
pub fn ring_buffer_len(sample_rate: u32, channels: usize) -> (r: Option<usize>)
    ensures
        r matches Some(n) ==> n as nat == ring_len_spec(sample_rate as nat, channels as nat),
        r is None ==> ring_len_spec(sample_rate as nat, channels as nat) > usize::MAX,
{
    let frames: u64 = (200 * sample_rate as u64) / 1000;
    if channels == 0 {
        return Some(0);
    }
    if frames > (usize::MAX / channels) as u64 {
        proof {
            assert(frames * channels >= (usize::MAX / channels + 1) * channels) by (nonlinear_arith)
                requires frames >= usize::MAX / channels + 1, channels > 0;
            assert((usize::MAX / channels + 1) * channels > usize::MAX) by (nonlinear_arith)
                requires channels > 0;
        }
        return None;
    }
    proof {
        assert(frames * channels <= (usize::MAX / channels) * channels) by (nonlinear_arith)
            requires frames <= usize::MAX / channels, channels > 0;
        assert((usize::MAX / channels) * channels <= usize::MAX) by (nonlinear_arith)
            requires channels > 0;
    }
    Some(frames as usize * channels)
}

/// What a sink does with a decoded buffer of `frames` frames when the pause
/// flag reads `paused`.
#[derive(Debug, Clone, Copy, PartialEq, Eq, Structural)]
pub struct WritePlan {
    /// Set the hardware stream running (`Some(true)`) or paused (`Some(false)`).
    pub stream_running: Option<bool>,
    /// Enqueue the buffer's samples.
    pub enqueue: bool,
}

/// State of the hardware stream behind a sink.
#[derive(Debug, Clone, Copy, PartialEq, Eq, Structural)]
pub struct SinkControl {
    pub running: bool,
    /// Samples enqueued so far.
    pub enqueued: u64,
}

impl SinkControl {
    /// A sink whose stream was just started.
    pub fn new() -> (r: SinkControl)
        ensures
            r.running,
            r.enqueued == 0,
    {
        SinkControl { running: true, enqueued: 0 }
    }

    /// Decides a write: an empty buffer changes nothing; otherwise the stream
    /// follows the pause flag, and only a buffer written while not paused is
    /// enqueued (nothing skipped while paused is kept for later).
    pub fn plan_write(&mut self, frames: u64, paused: bool) -> (r: WritePlan)
        ensures
            frames == 0 ==> r == (WritePlan { stream_running: None, enqueue: false }) && *final(self) == *old(self),
            frames > 0 ==> r == (WritePlan { stream_running: Some(!paused), enqueue: !paused })
                && final(self).running == !paused && final(self).enqueued == old(self).enqueued,
    {
        if frames == 0 {
            return WritePlan { stream_running: None, enqueue: false };
        }
        self.running = !paused;
        WritePlan { stream_running: Some(!paused), enqueue: !paused }
    }

    /// Records that `n` samples went into the ring buffer.
    pub fn enqueued_samples(&mut self, n: u64)
        requires
            old(self).enqueued + n <= u64::MAX,
        ensures
            final(self).enqueued == old(self).enqueued + n,
            final(self).running == old(self).running,
    {
        self.enqueued = self.enqueued + n;
    }

    /// Ends the session: the resampler's `remainder` samples are to be
    /// enqueued, then the stream is paused. Returns how many samples to enqueue.
    pub fn flush(&mut self, remainder: u64) -> (r: u64)
        requires
            old(self).enqueued + remainder <= u64::MAX,
        ensures
            r == remainder,
            *final(self) == flushed(*old(self), remainder),
    {
        self.enqueued = self.enqueued + remainder;
        self.running = false;
        remainder
    }
}

/// The sink after a flush that enqueued `remainder` samples.
pub open spec fn flushed(s: SinkControl, remainder: u64) -> SinkControl {
    SinkControl { running: false, enqueued: (s.enqueued + remainder) as u64 }
}

/// Flushing with no resampler remainder enqueues nothing and leaves the
/// stream paused; flushing again changes nothing more.
pub proof fn lemma_flush_without_remainder(s: SinkControl)
    ensures
        flushed(s, 0).enqueued == s.enqueued,
        !flushed(s, 0).running,
        flushed(flushed(s, 0), 0) == flushed(s, 0),
{
}

/// Progress of writing a block of samples into a ring buffer that may take
/// only part of it at a time: nothing accepted is dropped, and the write
/// goes on until the whole block is in.
#[derive(Debug, Clone, Copy, PartialEq, Eq, Structural)]
pub struct BlockWrite {
    pub len: usize,
    pub offset: usize,
}

impl BlockWrite {
    pub open spec fn wf(&self) -> bool {
        self.offset <= self.len
    }

    pub fn new(len: usize) -> (r: BlockWrite)
        ensures
            r.wf(),
            r.len == len,
            r.offset == 0,
    {
        BlockWrite { len, offset: 0 }
    }

    /// The ring buffer took `written` more samples; returns whether the block is all in.
    pub fn advance(&mut self, written: usize) -> (done: bool)
        requires
            old(self).wf(),
            written <= old(self).len - old(self).offset,
        ensures
            final(self).wf(),
            final(self).len == old(self).len,
            final(self).offset == old(self).offset + written,
            done == (final(self).offset == final(self).len),
    {
        self.offset = self.offset + written;
        self.offset == self.len
    }
}

} // verus!
