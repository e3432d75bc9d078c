//! Rate conversion of interleaved 16-bit PCM by linear interpolation.
//!
//! Output frame `k` stands at input position `k * in_rate / out_rate`; its
//! samples blend the two input frames around that position. Input is kept
//! across calls until the frames an output frame needs have arrived, and
//! `flush` hands out what the last frames still give.

use vstd::prelude::*;

verus! {

/// Input frame on which output frame `k` stands.
pub open spec fn src_pos(k: int, in_rate: int, out_rate: int) -> int {
    (k * in_rate) / out_rate
}

/// Distance of output frame `k` past its input frame, in units of `1 / out_rate` frames.
pub open spec fn src_rem(k: int, in_rate: int, out_rate: int) -> int {
    (k * in_rate) % out_rate
}

/// A sample moved to the range `0..=65535`.
pub open spec fn biased(x: i16) -> int {
    x as int + 32768
}

/// `a` and `b` blended with weight `r / d` on `b`, rounded down.
pub open spec fn blend(a: int, b: int, r: int, d: int) -> int {
    (a * (d - r) + b * r) / d
}

/// Sample `c` of output frame `k` of the input `input` (`fed` frames of `ch`
/// channels); past the last input frame the last one is held.
pub open spec fn out_sample(input: Seq<i16>, fed: int, ch: int, in_rate: int, out_rate: int, k: int, c: int) -> int {
    let i = src_pos(k, in_rate, out_rate);
    let r = src_rem(k, in_rate, out_rate);
    let a = biased(input[i * ch + c]);
    let b = if i + 1 < fed {
        biased(input[(i + 1) * ch + c])
    } else {
        a
    };
    blend(a, b, r, out_rate) - 32768
}

/// Output frames `k0 .. k1`, interleaved.
pub open spec fn emitted(input: Seq<i16>, fed: int, ch: int, in_rate: int, out_rate: int, k0: int, k1: int) -> Seq<i16>
    decreases k1 - k0,
{
    if k1 <= k0 {
        Seq::empty()
    } else {
        emitted(input, fed, ch, in_rate, out_rate, k0, k1 - 1) + Seq::new(
            ch as nat,
            |c: int| out_sample(input, fed, ch, in_rate, out_rate, k1 - 1, c) as i16,
        )
    }
}

/// Largest number of input frames a resampler takes in all.
pub const MAX_FRAMES: u64 = 0x1_0000_0000_0000;

/// Largest channel count.
pub const MAX_CHANNELS: usize = 64;

pub struct Resampler {
    pub in_rate: u32,
    pub out_rate: u32,
    pub channels: usize,
    /// Input from frame `start` on, interleaved.
    pub buffer: Vec<i16>,
    pub start: u64,
    /// Frames taken in so far.
    pub fed: u64,
    /// Output frames handed out so far.
    pub produced: u128,
    /// `src_pos` and `src_rem` of the next output frame.
    pub next_pos: u64,
    pub next_rem: u64,
    /// Every sample taken in so far.
    pub input: Ghost<Seq<i16>>,
}

impl Resampler {
    pub open spec fn wf(&self) -> bool {
        let ch = self.channels as int;
        &&& self.in_rate > 0
        &&& self.out_rate > 0
        &&& 0 < self.channels <= MAX_CHANNELS
        &&& self.fed <= MAX_FRAMES
        &&& self.input@.len() == self.fed * ch
        &&& self.start <= self.fed
        &&& self.start <= self.next_pos
        &&& self.buffer@ == self.input@.subrange(self.start * ch, self.fed * ch)
        &&& self.produced * (self.in_rate as int) == self.next_pos * (self.out_rate as int) + self.next_rem
        &&& self.next_rem < self.out_rate
        &&& self.next_pos <= self.fed + self.in_rate + 1
        &&& self.produced > 0 ==> (self.produced - 1) * (self.in_rate as int) < self.fed * (self.out_rate as int)
    }

    /// The next output frame has both input frames it blends.
    pub open spec fn ready(&self) -> bool {
        self.next_pos + 1 < self.fed
    }

    /// The next output frame stands on an input frame.
    pub open spec fn flushable(&self) -> bool {
        self.next_pos < self.fed
    }

    /// Output frames of the input so far from `k0` up to `k1`.
    pub open spec fn frames(&self, k0: int, k1: int) -> Seq<i16> {
        emitted(self.input@, self.fed as int, self.channels as int, self.in_rate as int, self.out_rate as int, k0, k1)
    }

    /// A resampler from `in_rate` to `out_rate` for `channels` channels.
    pub fn new(in_rate: u32, out_rate: u32, channels: usize) -> (r: Resampler)
        requires
            in_rate > 0,
            out_rate > 0,
            0 < channels <= MAX_CHANNELS,
        ensures
            r.wf(),
            r.in_rate == in_rate,
            r.out_rate == out_rate,
            r.channels == channels,
            r.fed == 0,
            r.produced == 0,
    {
        let r = Resampler {
            in_rate,
            out_rate,
            channels,
            buffer: Vec::new(),
            start: 0,
            fed: 0,
            produced: 0,
            next_pos: 0,
            next_rem: 0,
            input: Ghost(Seq::empty()),
        };
        assert(r.buffer@ =~= r.input@.subrange(0, 0));
        assert(0 * (channels as int) == 0 && 0 * (in_rate as int) == 0 && 0 * (out_rate as int) == 0) by (nonlinear_arith);
        r
    }

    /// Appends the samples of output frame `produced` and moves to the next.
    fn emit_frame(&mut self, out: &mut Vec<i16>)
        requires
            old(self).wf(),
            old(self).flushable(),
        ensures
            final(self).wf(),
            final(self).produced == old(self).produced + 1,
            final(self).fed == old(self).fed,
            final(self).input == old(self).input,
            final(self).in_rate == old(self).in_rate,
            final(self).out_rate == old(self).out_rate,
            final(self).channels == old(self).channels,
            final(out)@ == old(out)@ + Seq::new(
                old(self).channels as nat,
                |c: int| out_sample(old(self).input@, old(self).fed as int, old(self).channels as int,
                    old(self).in_rate as int, old(self).out_rate as int, old(self).produced as int, c) as i16,
            ),
    {
        let ghost input = self.input@;
        let ch = self.channels;
        let ghost chi = ch as int;
        let in_rate = self.in_rate as u64;
        let out_rate = self.out_rate as u64;
        let blen = self.buffer.len();
        proof {
            assert(self.start * chi <= self.fed * chi) by (nonlinear_arith)
                requires self.start <= self.fed, chi > 0;
            assert(self.buffer@.len() == (self.fed - self.start) * chi) by (nonlinear_arith)
                requires self.buffer@.len() == self.fed * chi - self.start * chi;
            assert(self.fed - self.start <= (self.fed - self.start) * chi) by (nonlinear_arith)
                requires self.fed >= self.start, chi >= 1;
        }
        let li = (self.next_pos - self.start) as usize;
        let has_next = self.next_pos + 1 < self.fed;
        proof {
            vstd::arithmetic::div_mod::lemma_fundamental_div_mod_converse(
                self.produced * (self.in_rate as int), self.out_rate as int, self.next_pos as int, self.next_rem as int);
            assert((li as int + 1) * chi <= (self.fed - self.start) * chi) by (nonlinear_arith)
                requires li as int + 1 <= self.fed - self.start, chi > 0;
            assert((self.fed - self.start) * chi <= MAX_FRAMES * MAX_CHANNELS) by (nonlinear_arith)
                requires self.fed - self.start <= MAX_FRAMES, chi <= MAX_CHANNELS, chi > 0;
            assert((self.start + li as int) * chi == self.start * chi + li as int * chi) by (nonlinear_arith);
            assert((self.start + li as int + 1) * chi == self.start * chi + li as int * chi + chi) by (nonlinear_arith);
            if has_next {
                assert((li as int + 2) * chi <= (self.fed - self.start) * chi) by (nonlinear_arith)
                    requires li as int + 2 <= self.fed - self.start, chi > 0;
            }
        }
        assert(li * chi <= (li as int + 1) * chi) by (nonlinear_arith)
            requires chi > 0;
        assert((li as int + 1) * chi == li as int * chi + chi) by (nonlinear_arith);
        assert((self.next_pos + 1) * chi <= self.fed * chi) by (nonlinear_arith)
            requires self.next_pos + 1 <= self.fed, chi > 0;
        assert(has_next ==> (self.next_pos + 2) * chi <= self.fed * chi) by (nonlinear_arith)
            requires has_next ==> self.next_pos + 2 <= self.fed, chi > 0;
        assert((self.next_pos + 1) * chi == self.next_pos * chi + chi) by (nonlinear_arith);
        assert((self.next_pos + 2) * chi == self.next_pos * chi + chi + chi) by (nonlinear_arith);
        let base: usize = li * ch;
        let mut c: usize = 0;
        let ghost out0 = out@;
        while c < ch
            invariant
                self.wf(),
                self.input@ == input,
                0 <= c <= ch,
                ch == self.channels,
                chi == ch as int,
                base == li * chi,
                li == self.next_pos - self.start,
                in_rate == self.in_rate,
                out_rate == self.out_rate,
                has_next == (self.next_pos + 1 < self.fed),
                self.next_pos < self.fed,
                (li as int + 1) * chi <= self.buffer@.len(),
                (li as int + 1) * chi == li as int * chi + chi,
                blen == self.buffer@.len(),
                (self.next_pos + 1) * chi <= self.fed * chi,
                has_next ==> (self.next_pos + 2) * chi <= self.fed * chi,
                (self.next_pos + 1) * chi == self.next_pos * chi + chi,
                (self.next_pos + 2) * chi == self.next_pos * chi + chi + chi,
                has_next ==> (li as int + 2) * chi <= self.buffer@.len(),
                (self.start + li as int) * chi == self.start * chi + li as int * chi,
                (self.start + li as int + 1) * chi == self.start * chi + li as int * chi + chi,
                src_pos(self.produced as int, in_rate as int, out_rate as int) == self.next_pos,
                src_rem(self.produced as int, in_rate as int, out_rate as int) == self.next_rem,
                out@ == out0 + Seq::new(c as nat, |j: int| out_sample(input, self.fed as int, chi,
                    in_rate as int, out_rate as int, self.produced as int, j) as i16),
            decreases ch - c,
        {
            let a = self.buffer[base + c];
            let b = if has_next { self.buffer[base + ch + c] } else { a };
            proof {
                assert(self.buffer@[base + c] == input[self.next_pos * chi + c]);
                if has_next {
                    assert(self.buffer@[base + ch + c] == input[(self.next_pos + 1) * chi + c]);
                }
            }
            let ab: u64 = (a as i32 + 32768) as u64;
            let bb: u64 = (b as i32 + 32768) as u64;
            let r = self.next_rem;
            assert(ab * (out_rate - r) + bb * r <= 65535 * out_rate) by (nonlinear_arith)
                requires ab <= 65535, bb <= 65535, r < out_rate;
            let num: u64 = ab * (out_rate - r) + bb * r;
            let v: u64 = num / out_rate;
            assert(v <= 65535) by (nonlinear_arith)
                requires v == num / out_rate, num <= 65535 * out_rate, out_rate > 0;
            let s = (v as i32 - 32768) as i16;
            out.push(s);
            c = c + 1;
            assert(out@ =~= out0 + Seq::new(c as nat, |j: int| out_sample(input, self.fed as int, chi,
                in_rate as int, out_rate as int, self.produced as int, j) as i16));
        }
        let p0 = self.next_pos;
        let r0 = self.next_rem;
        let total: u64 = self.next_rem + in_rate;
        proof {
            assert(self.produced * (self.in_rate as int) <= (self.fed + self.in_rate + 1) * (self.out_rate as int) + self.out_rate) by (nonlinear_arith)
                requires self.produced * (self.in_rate as int) == self.next_pos * (self.out_rate as int) + self.next_rem,
                    self.next_pos <= self.fed + self.in_rate + 1, self.next_rem < self.out_rate;
            assert((self.fed + self.in_rate + 1) * (self.out_rate as int) + self.out_rate <= 0x1_0000_0001_0000_0002 * 0x1_0000_0000) by (nonlinear_arith)
                requires self.fed <= MAX_FRAMES, self.in_rate <= u32::MAX, self.out_rate <= u32::MAX;
            assert(self.produced <= self.produced * (self.in_rate as int)) by (nonlinear_arith)
                requires self.in_rate >= 1;
        }
        self.next_pos = self.next_pos + total / out_rate;
        self.next_rem = total % out_rate;
        self.produced = self.produced + 1;
        proof {
            assert(self.produced * (self.in_rate as int) == (self.produced - 1) * (self.in_rate as int) + self.in_rate) by (nonlinear_arith);
            assert((total / out_rate) * out_rate + total % out_rate == total) by (nonlinear_arith)
                requires out_rate > 0;
            assert(total / out_rate <= in_rate + 1) by (nonlinear_arith)
                requires total == r0 + in_rate, r0 < out_rate, out_rate > 0;
            assert((p0 + total / out_rate) * out_rate == p0 * out_rate + (total / out_rate) * out_rate) by (nonlinear_arith);
            assert((self.produced - 1) * (self.in_rate as int) < self.fed * (self.out_rate as int)) by (nonlinear_arith)
                requires (self.produced - 1) * (self.in_rate as int) == p0 * (self.out_rate as int) + r0,
                    r0 < self.out_rate, p0 + 1 <= self.fed;
        }
    }
}

impl Resampler {
    /// Hands out every output frame whose two input frames are in.
    fn drain_ready(&mut self, out: &mut Vec<i16>, final_pass: bool)
        requires
            old(self).wf(),
            old(out)@ == old(self).frames(old(self).produced as int, old(self).produced as int),
        ensures
            final(self).wf(),
            final(self).fed == old(self).fed,
            final(self).input == old(self).input,
            final(self).in_rate == old(self).in_rate,
            final(self).out_rate == old(self).out_rate,
            final(self).channels == old(self).channels,
            old(self).produced <= final(self).produced,
            final_pass ==> !final(self).flushable(),
            !final_pass ==> !final(self).ready(),
            final_pass && !old(self).flushable() ==> final(self).produced == old(self).produced,
            final(out)@ == final(self).frames(old(self).produced as int, final(self).produced as int),
    {
        let ghost p0 = self.produced as int;
        let ghost bound: int = (self.fed as int) * (self.out_rate as int) + (self.out_rate as int) + (self.in_rate as int);
        proof {
            assert(self.produced <= bound) by (nonlinear_arith)
                requires
                    self.produced > 0 ==> (self.produced - 1) * (self.in_rate as int) < (self.fed as int) * (self.out_rate as int),
                    self.in_rate >= 1,
                    bound == (self.fed as int) * (self.out_rate as int) + (self.out_rate as int) + (self.in_rate as int);
        }
        while (final_pass && self.next_pos < self.fed) || (!final_pass && self.next_pos + 1 < self.fed)
            invariant
                self.wf(),
                self.fed == old(self).fed,
                self.input == old(self).input,
                self.in_rate == old(self).in_rate,
                self.out_rate == old(self).out_rate,
                self.channels == old(self).channels,
                p0 <= self.produced,
                out@ == self.frames(p0, self.produced as int),
                bound == (self.fed as int) * (self.out_rate as int) + (self.out_rate as int) + (self.in_rate as int),
                self.produced as int <= bound,
                final_pass && !old(self).flushable() ==> self.produced == old(self).produced && self.next_pos == old(self).next_pos,
            decreases bound - self.produced,
        {
            let ghost before = self.produced;
            proof {
                assert(self.produced * (self.in_rate as int) < self.fed * (self.out_rate as int) + self.out_rate) by (nonlinear_arith)
                    requires self.produced * (self.in_rate as int) == self.next_pos * (self.out_rate as int) + self.next_rem,
                        self.next_pos < self.fed, self.next_rem < self.out_rate;
            }
            self.emit_frame(out);
            proof {
                assert(self.produced * (self.in_rate as int) == before * (self.in_rate as int) + self.in_rate) by (nonlinear_arith)
                    requires self.produced == before + 1;
                assert(self.produced <= bound) by (nonlinear_arith)
                    requires
                        self.produced * (self.in_rate as int) == before * (self.in_rate as int) + self.in_rate,
                        before * (self.in_rate as int) < (self.fed as int) * (self.out_rate as int) + self.out_rate,
                        self.in_rate >= 1,
                        bound == (self.fed as int) * (self.out_rate as int) + (self.out_rate as int) + (self.in_rate as int);
            }
        }
    }
}

impl Resampler {
    /// Drops the buffered frames that no output frame needs any more.
    fn trim(&mut self)
        requires
            old(self).wf(),
        ensures
            final(self).wf(),
            final(self).fed == old(self).fed,
            final(self).input == old(self).input,
            final(self).in_rate == old(self).in_rate,
            final(self).out_rate == old(self).out_rate,
            final(self).channels == old(self).channels,
            final(self).produced == old(self).produced,
            final(self).next_pos == old(self).next_pos,
            final(self).next_rem == old(self).next_rem,
    {
        let ch = self.channels;
        let ghost chi = ch as int;
        let new_start = if self.next_pos < self.fed { self.next_pos } else { self.fed };
        let blen = self.buffer.len();
        proof {
            assert(self.start * chi <= new_start * chi && new_start * chi <= self.fed * chi) by (nonlinear_arith)
                requires self.start <= new_start <= self.fed, chi > 0;
            assert((new_start - self.start) * chi == new_start * chi - self.start * chi) by (nonlinear_arith);
            assert(self.buffer@.len() == self.fed * chi - self.start * chi);
            assert(new_start - self.start <= (new_start - self.start) * chi) by (nonlinear_arith)
                requires new_start >= self.start, chi >= 1;
        }
        let skip: usize = ((new_start - self.start) as usize) * ch;
        let mut kept: Vec<i16> = Vec::new();
        let mut i: usize = skip;
        while i < blen
            invariant
                skip <= blen,
                blen == self.buffer@.len(),
                skip <= i <= blen,
                kept@ == self.buffer@.subrange(skip as int, i as int),
            decreases blen - i,
        {
            kept.push(self.buffer[i]);
            i = i + 1;
            assert(kept@ =~= self.buffer@.subrange(skip as int, i as int));
        }
        proof {
            assert(kept@ =~= self.input@.subrange(new_start * chi, self.fed * chi));
        }
        self.buffer = kept;
        self.start = new_start;
    }

    /// Takes in `samples` (whole interleaved frames) and hands out the output
    /// frames they complete; `None` when they complete none yet.
    pub fn resample(&mut self, samples: &Vec<i16>) -> (r: Option<Vec<i16>>)
        requires
            old(self).wf(),
            samples@.len() % (old(self).channels as nat) == 0,
            old(self).fed + samples@.len() / (old(self).channels as nat) <= MAX_FRAMES,
        ensures
            final(self).wf(),
            final(self).in_rate == old(self).in_rate,
            final(self).out_rate == old(self).out_rate,
            final(self).channels == old(self).channels,
            final(self).input@ == old(self).input@ + samples@,
            final(self).fed == old(self).fed + samples@.len() / (old(self).channels as nat),
            old(self).produced <= final(self).produced,
            !final(self).ready(),
            r is None <==> final(self).produced == old(self).produced,
            r matches Some(v) ==> v@ == final(self).frames(old(self).produced as int, final(self).produced as int),
    {
        let ch = self.channels;
        let ghost chi = ch as int;
        let ghost b0 = self.buffer@;
        let ghost p0 = self.produced as int;
        let n = samples.len();
        let mut i: usize = 0;
        while i < n
            invariant
                n == samples@.len(),
                i <= n,
                self.buffer@ == b0 + samples@.take(i as int),
                self.in_rate == old(self).in_rate,
                self.out_rate == old(self).out_rate,
                self.channels == old(self).channels,
                self.fed == old(self).fed,
                self.start == old(self).start,
                self.produced == old(self).produced,
                self.next_pos == old(self).next_pos,
                self.next_rem == old(self).next_rem,
                self.input == old(self).input,
            decreases n - i,
        {
            self.buffer.push(samples[i]);
            i = i + 1;
            assert(self.buffer@ =~= b0 + samples@.take(i as int));
        }
        let frames = (n / ch) as u64;
        proof {
            vstd::arithmetic::div_mod::lemma_fundamental_div_mod(n as int, chi);
            assert(frames * chi == n) by (nonlinear_arith)
                requires n as int == chi * (n as int / chi) + n as int % chi, n as int % chi == 0, frames == n as int / chi;
            assert((self.fed + frames) * chi == self.fed * chi + frames * chi) by (nonlinear_arith);
            assert(self.start * chi <= self.fed * chi) by (nonlinear_arith)
                requires self.start <= self.fed, chi > 0;
            assert(samples@.take(n as int) =~= samples@);
            self.input = Ghost(self.input@ + samples@);
            assert(self.buffer@ =~= self.input@.subrange(self.start * chi, (self.fed + frames) * chi));
            assert(self.produced > 0 ==> (self.produced - 1) * (self.in_rate as int) < (self.fed + frames) * (self.out_rate as int)) by (nonlinear_arith)
                requires
                    self.produced > 0 ==> (self.produced - 1) * (self.in_rate as int) < self.fed * (self.out_rate as int),
                    frames >= 0,
                    self.out_rate > 0;
        }
        self.fed = self.fed + frames;
        let mut out: Vec<i16> = Vec::new();
        self.drain_ready(&mut out, false);
        self.trim();
        proof {
            lemma_emitted_len(self.input@, self.fed as int, chi, self.in_rate as int, self.out_rate as int,
                old(self).produced as int, self.produced as int);
            assert((self.produced - p0) * chi > 0 || self.produced == p0) by (nonlinear_arith)
                requires self.produced >= p0, chi > 0;
        }
        if out.len() == 0 {
            None
        } else {
            Some(out)
        }
    }

    /// Hands out the output frames that the last input frames still give.
    /// Once nothing is left, a further flush hands out nothing.
    pub fn flush(&mut self) -> (r: Vec<i16>)
        requires
            old(self).wf(),
        ensures
            final(self).wf(),
            final(self).in_rate == old(self).in_rate,
            final(self).out_rate == old(self).out_rate,
            final(self).channels == old(self).channels,
            final(self).input == old(self).input,
            final(self).fed == old(self).fed,
            !final(self).flushable(),
            r@ == final(self).frames(old(self).produced as int, final(self).produced as int),
            !old(self).flushable() ==> final(self).produced == old(self).produced && r@.len() == 0,
    {
        let mut out: Vec<i16> = Vec::new();
        self.drain_ready(&mut out, true);
        self.trim();
        out
    }
}

/// Output frames `k0 .. k1` hold `(k1 - k0) * ch` samples.
pub proof fn lemma_emitted_len(input: Seq<i16>, fed: int, ch: int, in_rate: int, out_rate: int, k0: int, k1: int)
    requires
        k0 <= k1,
        ch >= 0,
    ensures
        emitted(input, fed, ch, in_rate, out_rate, k0, k1).len() == (k1 - k0) * ch,
    decreases k1 - k0,
{
    if k1 > k0 {
        lemma_emitted_len(input, fed, ch, in_rate, out_rate, k0, k1 - 1);
        assert(emitted(input, fed, ch, in_rate, out_rate, k0, k1) == emitted(input, fed, ch, in_rate, out_rate, k0, k1 - 1)
            + Seq::new(ch as nat, |c: int| out_sample(input, fed, ch, in_rate, out_rate, k1 - 1, c) as i16));
        assert((k1 - k0) * ch == (k1 - 1 - k0) * ch + ch) by (nonlinear_arith);
    } else {
        assert((k1 - k0) * ch == 0) by (nonlinear_arith)
            requires k1 == k0;
    }
}

/// After a flush, the output frames handed out in all are the input frames
/// times `out_rate / in_rate`, rounded up: within one frame of that ratio.
pub proof fn lemma_flush_total(r: Resampler)
    requires
        r.wf(),
        !r.flushable(),
    ensures
        (r.fed as int) * (r.out_rate as int) <= (r.produced as int) * (r.in_rate as int),
        (r.produced as int) * (r.in_rate as int) < (r.fed as int) * (r.out_rate as int) + r.in_rate,
{
    assert((r.fed as int) * (r.out_rate as int) <= (r.next_pos as int) * (r.out_rate as int)) by (nonlinear_arith)
        requires r.fed <= r.next_pos, r.out_rate > 0;
    if r.produced > 0 {
        assert((r.produced as int) * (r.in_rate as int) < (r.fed as int) * (r.out_rate as int) + r.in_rate) by (nonlinear_arith)
            requires (r.produced - 1) * (r.in_rate as int) < (r.fed as int) * (r.out_rate as int), r.produced > 0;
    } else {
        assert((r.produced as int) * (r.in_rate as int) == 0 && (r.fed as int) * (r.out_rate as int) >= 0) by (nonlinear_arith)
            requires r.produced == 0, r.fed >= 0, r.out_rate >= 0;
    }
}

} // verus!
