//! Time positions derived from packet timestamps, and their text forms.

use vstd::prelude::*;

verus! {

/// Rational factor converting an integer timestamp into seconds.
#[derive(Debug, Clone, Copy, PartialEq, Eq, Structural)]
pub struct TimeBase {
    pub numer: u32,
    pub denom: u32,
}

impl TimeBase {
    pub open spec fn wf(&self) -> bool {
        self.numer > 0 && self.denom > 0
    }
}

/// A point in a track: whole seconds plus the fraction `frac_numer / frac_denom`.
#[derive(Debug, Clone, Copy, PartialEq, Eq, Structural)]
pub struct TimePosition {
    pub seconds: u64,
    pub frac_numer: u32,
    pub frac_denom: u32,
}

impl TimePosition {
    pub open spec fn wf(&self) -> bool {
        self.frac_denom > 0 && self.frac_numer < self.frac_denom
    }

    /// A position of whole seconds.
    pub fn from_seconds(seconds: u64) -> (r: TimePosition)
        ensures
            r.wf(),
            r.seconds == seconds,
            r.frac_numer == 0,
    {
        TimePosition { seconds, frac_numer: 0, frac_denom: 1 }
    }
}

/// Whole seconds of `ts` ticks of `tb`.
pub open spec fn seconds_of(tb: TimeBase, ts: nat) -> nat {
    (ts * (tb.numer as nat)) / (tb.denom as nat)
}

/// The time of `ts` ticks of `tb`: whole seconds and the remainder over the
/// denominator; `None` where the whole seconds exceed a `u64`.
pub open spec fn time_of(tb: TimeBase, ts: nat) -> Option<TimePosition> {
    if seconds_of(tb, ts) > u64::MAX {
        None
    } else {
        Some(
            TimePosition {
                seconds: seconds_of(tb, ts) as u64,
                frac_numer: ((ts * (tb.numer as nat)) % (tb.denom as nat)) as u32,
                frac_denom: tb.denom,
            },
        )
    }
}

/// The time of `ts` ticks of `tb`.
pub fn calc_time(tb: TimeBase, ts: u64) -> (r: Option<TimePosition>)
    requires
        tb.wf(),
    ensures
        r == time_of(tb, ts as nat),
        r matches Some(t) ==> t.wf(),
{
    assert(ts as nat * (tb.numer as nat) <= u64::MAX as nat * u32::MAX as nat) by (nonlinear_arith)
        requires ts <= u64::MAX, tb.numer <= u32::MAX;
    let dividend: u128 = ts as u128 * tb.numer as u128;
    let quotient: u128 = dividend / tb.denom as u128;
    let rem: u128 = dividend % tb.denom as u128;
    if quotient > u64::MAX as u128 {
        return None;
    }
    Some(TimePosition { seconds: quotient as u64, frac_numer: rem as u32, frac_denom: tb.denom })
}

/// The decimal digit `d` as a character.
pub open spec fn digit_char(d: nat) -> char {
    if d == 0 {
        '0'
    } else if d == 1 {
        '1'
    } else if d == 2 {
        '2'
    } else if d == 3 {
        '3'
    } else if d == 4 {
        '4'
    } else if d == 5 {
        '5'
    } else if d == 6 {
        '6'
    } else if d == 7 {
        '7'
    } else if d == 8 {
        '8'
    } else {
        '9'
    }
}

/// Decimal notation of `n`, without leading zeros.
pub open spec fn decimal(n: nat) -> Seq<char>
    decreases n,
{
    if n < 10 {
        seq![digit_char(n)]
    } else {
        decimal(n / 10).push(digit_char(n % 10))
    }
}

/// `s` preceded by as many zeros as bring it to `width` characters.
pub open spec fn zero_padded(s: Seq<char>, width: nat) -> Seq<char> {
    if s.len() >= width {
        s
    } else {
        Seq::new((width - s.len()) as nat, |i: int| '0') + s
    }
}

/// `value / denom` rounded to the nearest integer, halves upward.
pub open spec fn rounded_div(value: nat, denom: nat) -> nat {
    (2 * value + denom) / (2 * denom)
}

/// Seconds within the minute of `t`, in units of `1 / scale` seconds, rounded.
pub open spec fn scaled_seconds(t: TimePosition, scale: nat) -> nat {
    (t.seconds as nat % 60) * scale + rounded_div(t.frac_numer as nat * scale, t.frac_denom as nat)
}

/// `H:MM:SS` followed by `places` decimals of the second, as playback
/// progress and durations are shown.
pub open spec fn clock_text(t: TimePosition, places: nat, scale: nat) -> Seq<char> {
    let s = t.seconds as nat;
    let v = scaled_seconds(t, scale);
    decimal(s / 3600) + seq![':'] + zero_padded(decimal((s % 3600) / 60), 2) + seq![':']
        + zero_padded(decimal(v / scale), 2) + seq!['.'] + zero_padded(decimal(v % scale), places)
}

/// The one-character literal of a decimal digit.
fn digit_str(d: u64) -> (r: &'static str)
    requires
        d < 10,
    ensures
        r@ == seq![digit_char(d as nat)],
{
    if d == 0 {
        proof { reveal_strlit("0"); }
        assert("0"@ =~= seq!['0']);
        "0"
    } else if d == 1 {
        proof { reveal_strlit("1"); }
        assert("1"@ =~= seq!['1']);
        "1"
    } else if d == 2 {
        proof { reveal_strlit("2"); }
        assert("2"@ =~= seq!['2']);
        "2"
    } else if d == 3 {
        proof { reveal_strlit("3"); }
        assert("3"@ =~= seq!['3']);
        "3"
    } else if d == 4 {
        proof { reveal_strlit("4"); }
        assert("4"@ =~= seq!['4']);
        "4"
    } else if d == 5 {
        proof { reveal_strlit("5"); }
        assert("5"@ =~= seq!['5']);
        "5"
    } else if d == 6 {
        proof { reveal_strlit("6"); }
        assert("6"@ =~= seq!['6']);
        "6"
    } else if d == 7 {
        proof { reveal_strlit("7"); }
        assert("7"@ =~= seq!['7']);
        "7"
    } else if d == 8 {
        proof { reveal_strlit("8"); }
        assert("8"@ =~= seq!['8']);
        "8"
    } else {
        proof { reveal_strlit("9"); }
        assert("9"@ =~= seq!['9']);
        "9"
    }
}

/// Appends the decimal notation of `n`.
pub fn push_decimal(s: &mut String, n: u64)
    ensures
        final(s)@ == old(s)@ + decimal(n as nat),
    decreases n,
{
    if n >= 10 {
        push_decimal(s, n / 10);
    }
    s.append(digit_str(n % 10));
    assert(s@ =~= old(s)@ + decimal(n as nat));
}

/// Appends the decimal notation of `n`, padded with zeros to `width` characters.
pub fn push_padded(s: &mut String, n: u64, width: usize)
    ensures
        final(s)@ == old(s)@ + zero_padded(decimal(n as nat), width as nat),
{
    let mut digits = String::new();
    push_decimal(&mut digits, n);
    assert(digits@ =~= decimal(n as nat));
    let len = digits.as_str().unicode_len();
    let mut i: usize = len;
    while i < width
        invariant
            len == decimal(n as nat).len(),
            len <= i <= width || (i == len && len >= width),
            s@ == old(s)@ + Seq::new((i - len) as nat, |j: int| '0'),
        decreases width - i,
    {
        proof { reveal_strlit("0"); }
        s.append("0");
        i = i + 1;
        assert(s@ =~= old(s)@ + Seq::new((i - len) as nat, |j: int| '0'));
    }
    s.append(digits.as_str());
    if len >= width {
        assert(s@ =~= old(s)@ + zero_padded(decimal(n as nat), width as nat));
    } else {
        assert(s@ =~= old(s)@ + zero_padded(decimal(n as nat), width as nat));
    }
}

/// Formats `t` as `H:MM:SS` with `places` decimals of the second, where
/// `scale` is ten to the power `places`.
pub fn format_clock(t: TimePosition, places: usize, scale: u64) -> (r: String)
    requires
        t.wf(),
        (places == 1 && scale == 10) || (places == 3 && scale == 1000),
    ensures
        r@ == clock_text(t, places as nat, scale as nat),
{
    let s = t.seconds;
    assert(t.frac_numer as nat * scale as nat <= u32::MAX as nat * 1000) by (nonlinear_arith)
        requires t.frac_numer <= u32::MAX, scale <= 1000;
    let scaled_frac: u64 = t.frac_numer as u64 * scale;
    let den: u64 = t.frac_denom as u64;
    let rounded: u64 = (2 * scaled_frac + den) / (2 * den);
    assert(rounded <= scale) by (nonlinear_arith)
        requires
            rounded == (2 * scaled_frac + den) / (2 * den),
            scaled_frac == t.frac_numer * scale,
            t.frac_numer < den,
            den > 0,
            scale > 0;
    let v: u64 = (s % 60) * scale + rounded;
    let mut r = String::new();
    push_decimal(&mut r, s / 3600);
    proof { reveal_strlit(":"); reveal_strlit("."); }
    r.append(":");
    push_padded(&mut r, (s % 3600) / 60, 2);
    r.append(":");
    push_padded(&mut r, v / scale, 2);
    r.append(".");
    push_padded(&mut r, v % scale, places);
    assert(r@ =~= clock_text(t, places as nat, scale as nat));
    r
}

/// Progress text with tenths of a second: `H:MM:SS.s`.
pub fn format_progress(t: TimePosition) -> (r: String)
    requires
        t.wf(),
    ensures
        r@ == clock_text(t, 1, 10),
{
    format_clock(t, 1, 10)
}

/// Duration text with milliseconds: `H:MM:SS.sss`.
pub fn format_precise(t: TimePosition) -> (r: String)
    requires
        t.wf(),
    ensures
        r@ == clock_text(t, 3, 1000),
{
    format_clock(t, 3, 1000)
}

pub open spec fn is_digit(c: char) -> bool {
    '0' <= c && c <= '9'
}

pub open spec fn digit_value(c: char) -> nat {
    (c as u32 - '0' as u32) as nat
}

/// First index at or after `i` that does not hold a decimal digit.
pub open spec fn digits_end(s: Seq<char>, i: int) -> int
    decreases s.len() - i,
{
    if i < 0 || i >= s.len() || !is_digit(s[i]) {
        i
    } else {
        digits_end(s, i + 1)
    }
}

/// Value of the decimal digits `s`.
pub open spec fn digits_value(s: Seq<char>) -> nat
    decreases s.len(),
{
    if s.len() == 0 {
        0
    } else {
        digits_value(s.drop_last()) * 10 + digit_value(s.last())
    }
}

pub open spec fn pow10(n: nat) -> nat
    decreases n,
{
    if n == 0 {
        1
    } else {
        10 * pow10((n - 1) as nat)
    }
}

/// The position that the text `H:MM:SS.f` stands for: hours, minutes and
/// seconds are runs of decimal digits and `f` holds one to nine decimals of
/// the second. Any other text, or a time whose seconds exceed a `u64`, is `None`.
pub open spec fn parse_clock(s: Seq<char>) -> Option<TimePosition> {
    let a = digits_end(s, 0);
    let b = digits_end(s, a + 1);
    let c = digits_end(s, b + 1);
    let d = digits_end(s, c + 1);
    let total = digits_value(s.subrange(0, a)) * 3600 + digits_value(s.subrange(a + 1, b)) * 60
        + digits_value(s.subrange(b + 1, c));
    if 0 < a && a < s.len() && s[a] == ':' && a + 1 < b && b < s.len() && s[b] == ':' && b + 1 < c
        && c < s.len() && s[c] == '.' && c + 1 < d && d == s.len() && d - c - 1 <= 9 && total
        <= u64::MAX {
        Some(
            TimePosition {
                seconds: total as u64,
                frac_numer: digits_value(s.subrange(c + 1, d)) as u32,
                frac_denom: pow10((d - c - 1) as nat) as u32,
            },
        )
    } else {
        None
    }
}

proof fn lemma_digits_end_bounds(s: Seq<char>, i: int)
    requires
        0 <= i <= s.len(),
    ensures
        i <= digits_end(s, i) <= s.len(),
        forall|j: int| i <= j < digits_end(s, i) ==> is_digit(#[trigger] s[j]),
        digits_end(s, i) < s.len() ==> !is_digit(s[digits_end(s, i)]),
    decreases s.len() - i,
{
    if i < s.len() && is_digit(s[i]) {
        lemma_digits_end_bounds(s, i + 1);
    }
}

proof fn lemma_pow10_positive(n: nat)
    ensures
        pow10(n) >= 1,
    decreases n,
{
    if n > 0 {
        lemma_pow10_positive((n - 1) as nat);
    }
}

/// Reads the run of digits of `s` from `i`: where it ends, and its value
/// when that stays below 2^64.
fn read_digits(s: &str, i: usize) -> (r: (usize, Option<u64>))
    requires
        i <= s@.len(),
    ensures
        r.0 as int == digits_end(s@, i as int),
        i <= r.0 <= s@.len(),
        forall|k: int| i <= k < r.0 ==> is_digit(#[trigger] s@[k]),
        r.1 matches Some(v) ==> v as nat == digits_value(s@.subrange(i as int, r.0 as int)),
        r.1 is None ==> digits_value(s@.subrange(i as int, r.0 as int)) > u64::MAX,
{
    proof { lemma_digits_end_bounds(s@, i as int); }
    let len = s.unicode_len();
    let mut j: usize = i;
    let mut v: u128 = 0;
    let mut over = false;
    while j < len && is_digit_char(s.get_char(j))
        invariant
            len == s@.len(),
            i <= j <= digits_end(s@, i as int),
            digits_end(s@, i as int) <= s@.len(),
            forall|k: int| i <= k < digits_end(s@, i as int) ==> is_digit(#[trigger] s@[k]),
            digits_end(s@, i as int) < s@.len() ==> !is_digit(s@[digits_end(s@, i as int)]),
            !over ==> v == digits_value(s@.subrange(i as int, j as int)) && v <= u64::MAX,
            over ==> digits_value(s@.subrange(i as int, j as int)) > u64::MAX,
        decreases len - j,
    {
        let c = s.get_char(j);
        let ghost prev = s@.subrange(i as int, j as int);
        assert(s@.subrange(i as int, j as int + 1).drop_last() =~= prev);
        assert(s@.subrange(i as int, j as int + 1).last() == c);
        let d = (c as u32 - '0' as u32) as u128;
        if !over {
            v = v * 10 + d;
            if v > u64::MAX as u128 {
                over = true;
            }
        } else {
            assert(digits_value(s@.subrange(i as int, j as int + 1)) >= digits_value(prev));
        }
        j = j + 1;
    }
    if over {
        (j, None)
    } else {
        (j, Some(v as u64))
    }
}

fn is_digit_char(c: char) -> (r: bool)
    ensures
        r == is_digit(c),
{
    '0' <= c && c <= '9'
}

/// Reads back a position written as `H:MM:SS.f`.
pub fn parse_str_time(time: &str) -> (r: Option<TimePosition>)
    ensures
        r == parse_clock(time@),
        r matches Some(t) ==> t.wf(),
{
    let ghost s = time@;
    let len = time.unicode_len();
    let (a, hv) = read_digits(time, 0);
    if a == 0 || a >= len || time.get_char(a) != ':' {
        return None;
    }
    let (b, mv) = read_digits(time, a + 1);
    if b <= a + 1 || b >= len || time.get_char(b) != ':' {
        return None;
    }
    let (c, sv) = read_digits(time, b + 1);
    if c <= b + 1 || c >= len || time.get_char(c) != '.' {
        return None;
    }
    let (d, fv) = read_digits(time, c + 1);
    if d <= c + 1 || d != len || d - c - 1 > 9 {
        return None;
    }
    proof {
        let fs = s.subrange(c as int + 1, d as int);
        assert forall|j: int| 0 <= j < fs.len() implies is_digit(#[trigger] fs[j]) by {
            assert(fs[j] == s[c as int + 1 + j]);
        }
        lemma_digits_below_pow10(fs);
        lemma_pow10_bound(fs.len());
        if hv is None || mv is None || sv is None {
            assert(parse_clock(s) is None);
        }
    }
    let (h, m, sec, f) = match (hv, mv, sv, fv) {
        (Some(h), Some(m), Some(sec), Some(f)) => (h, m, sec, f),
        _ => return None,
    };
    let total: u128 = h as u128 * 3600 + m as u128 * 60 + sec as u128;
    if total > u64::MAX as u128 {
        return None;
    }
    let mut denom: u32 = 1;
    let mut k: usize = 0;
    while k < d - c - 1
        invariant
            k <= d - c - 1 <= 9,
            denom as nat == pow10(k as nat),
        decreases d - c - 1 - k,
    {
        proof { lemma_pow10_positive(k as nat); }
        assert(pow10(k as nat + 1) == 10 * pow10(k as nat));
        assert(pow10(k as nat) <= 100000000) by {
            lemma_pow10_bound(k as nat);
        }
        denom = denom * 10;
        k = k + 1;
    }
    proof {
        lemma_pow10_positive(k as nat);
    }
    Some(TimePosition { seconds: total as u64, frac_numer: f as u32, frac_denom: denom })
}

proof fn lemma_pow10_bound(n: nat)
    requires
        n <= 9,
    ensures
        pow10(n) <= 1000000000,
        n <= 8 ==> pow10(n) <= 100000000,
{
    reveal_with_fuel(pow10, 10);
    if n == 0 {
    } else if n == 1 {
    } else if n == 2 {
    } else if n == 3 {
    } else if n == 4 {
    } else if n == 5 {
    } else if n == 6 {
    } else if n == 7 {
    } else if n == 8 {
    } else {
    }
}

proof fn lemma_digits_below_pow10(s: Seq<char>)
    requires
        forall|j: int| 0 <= j < s.len() ==> is_digit(#[trigger] s[j]),
    ensures
        digits_value(s) < pow10(s.len()),
    decreases s.len(),
{
    if s.len() > 0 {
        let t = s.drop_last();
        assert forall|j: int| 0 <= j < t.len() implies is_digit(#[trigger] t[j]) by {
            assert(t[j] == s[j]);
        }
        lemma_digits_below_pow10(t);
        assert(is_digit(s[s.len() - 1]));
    }
}

} // verus!
