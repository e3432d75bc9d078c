//! What observers learn of a probed file: one record per track, the title,
//! artist and album from its tags, and its embedded pictures.

use vstd::prelude::*;

use crate::music::{MusicImage, MusicInfo, MusicMeta};
use crate::text::{base64_encode, base64_of, lower_of, lowercase};
use crate::time::{TimeBase, calc_time, clock_text, decimal, digit_char, format_precise, push_decimal, time_of, zero_padded};

verus! {

/// Standard keys of the tags that the player reads.
#[derive(Debug, Clone, Copy, PartialEq, Eq, Structural)]
pub enum StdKey {
    Album,
    Artist,
    TrackTitle,
    Other,
}

/// One tag of a metadata revision; `std_key` is `None` for a tag no standard key names.
#[derive(Debug, Clone)]
pub struct TagEntry {
    pub std_key: Option<StdKey>,
    pub value: String,
}

/// Value of the last tag with the standard key `key`, empty when none has it.
pub open spec fn last_value(tags: Seq<TagEntry>, key: StdKey) -> Seq<char>
    decreases tags.len(),
{
    if tags.len() == 0 {
        Seq::empty()
    } else if tags.last().std_key == Some(key) {
        tags.last().value@
    } else {
        last_value(tags.drop_last(), key)
    }
}

/// `m` holds the title, artist and album that `tags` give.
pub open spec fn meta_of_tags(m: MusicMeta, tags: Seq<TagEntry>) -> bool {
    &&& m.title@ == last_value(tags, StdKey::TrackTitle)
    &&& m.artist@ == last_value(tags, StdKey::Artist)
    &&& m.album@ == last_value(tags, StdKey::Album)
}

fn value_of(tags: &Vec<TagEntry>, key: StdKey) -> (r: String)
    ensures
        r@ == last_value(tags@, key),
{
    let mut r = String::new();
    let mut i: usize = 0;
    while i < tags.len()
        invariant
            i <= tags@.len(),
            r@ == last_value(tags@.take(i as int), key),
        decreases tags.len() - i,
    {
        assert(tags@.take(i as int + 1).drop_last() =~= tags@.take(i as int));
        if tags[i].std_key == Some(key) {
            r = tags[i].value.clone();
        }
        i = i + 1;
    }
    assert(tags@.take(i as int) =~= tags@);
    r
}

/// Title, artist and album from a revision's tags; `None` when it has no tags.
pub fn meta_from_tags(tags: &Vec<TagEntry>) -> (r: Option<MusicMeta>)
    ensures
        tags@.len() == 0 <==> r is None,
        r matches Some(m) ==> meta_of_tags(m, tags@),
{
    if tags.len() == 0 {
        return None;
    }
    Some(MusicMeta {
        title: value_of(tags, StdKey::TrackTitle),
        artist: value_of(tags, StdKey::Artist),
        album: value_of(tags, StdKey::Album),
    })
}

/// The one metadata record of a session start: from the container's tags
/// when it has any, else from the tags found while probing, else a record
/// titled `fallback` (the playlist's display name).
pub fn select_meta(container: &Vec<TagEntry>, probed: &Vec<TagEntry>, fallback: String) -> (r: MusicMeta)
    ensures
        container@.len() > 0 ==> meta_of_tags(r, container@),
        container@.len() == 0 && probed@.len() > 0 ==> meta_of_tags(r, probed@),
        container@.len() == 0 && probed@.len() == 0 ==> r.title == fallback && r.artist@.len() == 0
            && r.album@.len() == 0,
{
    match meta_from_tags(container) {
        Some(m) => m,
        None => match meta_from_tags(probed) {
            Some(m) => m,
            None => MusicMeta::new(fallback),
        },
    }
}

/// An embedded picture: its declared media type and its bytes.
#[derive(Debug, Clone)]
pub struct Visual {
    pub media_type: String,
    pub data: Vec<u8>,
}

/// The `data:` URI of a picture, from its lowercased media type and its base64 text.
pub open spec fn data_uri_text(media_type: Seq<char>, encoded: Seq<char>) -> Seq<char> {
    "data:"@ + media_type + ";base64, "@ + encoded
}

/// Puts a lowercased media type and base64 text together into a `data:` URI.
pub fn data_uri(media_type: &str, encoded: &str) -> (r: String)
    ensures
        r@ == data_uri_text(media_type@, encoded@),
{
    let mut r = String::from_str("data:");
    r.append(media_type);
    r.append(";base64, ");
    r.append(encoded);
    r
}

pub open spec fn encodable(v: Visual) -> bool {
    4 * ((v.data@.len() + 2) / 3) <= usize::MAX
}

/// The picture as an image record.
pub fn image_of(v: &Visual) -> (r: MusicImage)
    requires
        encodable(*v),
    ensures
        r.image@ == data_uri_text(lower_of(v.media_type@), base64_of(v.data@)),
{
    let media = lowercase(v.media_type.as_str());
    let encoded = base64_encode(&v.data);
    MusicImage::new(data_uri(media.as_str(), encoded.as_str()))
}

/// One image record per picture: the container's pictures when it has any,
/// else those found while probing.
pub fn images_of(container: &Vec<Visual>, probed: &Vec<Visual>) -> (r: Vec<MusicImage>)
    requires
        forall|i: int| 0 <= i < container@.len() ==> encodable(#[trigger] container@[i]),
        forall|i: int| 0 <= i < probed@.len() ==> encodable(#[trigger] probed@[i]),
    ensures
        ({
            let chosen = if container@.len() > 0 { container@ } else { probed@ };
            &&& r@.len() == chosen.len()
            &&& forall|i: int| 0 <= i < chosen.len() ==> (#[trigger] r@[i]).image@ == data_uri_text(
                lower_of(chosen[i].media_type@),
                base64_of(chosen[i].data@),
            )
        }),
{
    let chosen = if container.len() > 0 { container } else { probed };
    let mut r: Vec<MusicImage> = Vec::new();
    let mut i: usize = 0;
    while i < chosen.len()
        invariant
            i <= chosen@.len(),
            chosen@ == if container@.len() > 0 { container@ } else { probed@ },
            forall|j: int| 0 <= j < chosen@.len() ==> encodable(#[trigger] chosen@[j]),
            r@.len() == i,
            forall|j: int| 0 <= j < i ==> (#[trigger] r@[j]).image@ == data_uri_text(
                lower_of(chosen@[j].media_type@),
                base64_of(chosen@[j].data@),
            ),
        decreases chosen.len() - i,
    {
        r.push(image_of(&chosen[i]));
        i = i + 1;
    }
    r
}

/// Codec parameters of one track, as plain values.
#[derive(Debug, Clone)]
pub struct TrackParams {
    /// Long and short name of the codec, when the codec registry knows it.
    pub codec_names: Option<(String, String)>,
    pub sample_rate: Option<u32>,
    pub start_ts: u64,
    pub time_base: Option<TimeBase>,
    pub n_frames: Option<u64>,
    pub delay: Option<u32>,
    pub padding: Option<u32>,
    /// The sample format's name.
    pub sample_format: Option<String>,
    pub bits_per_sample: Option<u32>,
    /// The channel bit mask.
    pub channels: Option<u32>,
    /// The channel layout's name.
    pub channel_layout: Option<String>,
    pub language: Option<String>,
}

impl TrackParams {
    pub open spec fn wf(&self) -> bool {
        self.time_base matches Some(tb) ==> tb.wf()
    }
}

/// Number of bits set in `b`.
pub open spec fn popcount(b: nat) -> nat
    decreases b,
{
    if b == 0 {
        0
    } else {
        b % 2 + popcount(b / 2)
    }
}

/// Binary notation of `n`, without leading zeros.
pub open spec fn binary(n: nat) -> Seq<char>
    decreases n,
{
    if n < 2 {
        seq![digit_char(n)]
    } else {
        binary(n / 2).push(digit_char(n % 2))
    }
}

/// A channel mask as text: `0b` and thirty binary digits at least.
pub open spec fn mask_text(bits: nat) -> Seq<char> {
    "0b"@ + zero_padded(binary(bits), 30)
}

pub open spec fn opt_u32_decimal(v: Option<u32>) -> Seq<char> {
    match v {
        Some(n) => decimal(n as nat),
        None => Seq::empty(),
    }
}

pub open spec fn opt_text(v: Option<String>) -> Seq<char> {
    match v {
        Some(s) => s@,
        None => Seq::empty(),
    }
}

/// A timestamp as a duration with milliseconds, then the raw count in parentheses.
pub open spec fn ts_text(tb: TimeBase, ts: nat) -> Seq<char> {
    let t = match time_of(tb, ts) {
        Some(t) => clock_text(t, 3, 1000),
        None => Seq::empty(),
    };
    t + " ("@ + decimal(ts) + ")"@
}

/// `m` is the record that describes a track with parameters `p`.
pub open spec fn describes(m: MusicInfo, p: TrackParams) -> bool {
    &&& m.codec@ == match p.codec_names { Some(n) => n.0@, None => Seq::empty() }
    &&& m.codec_short@ == match p.codec_names { Some(n) => n.1@, None => Seq::empty() }
    &&& m.sample_rate@ == opt_u32_decimal(p.sample_rate)
    &&& m.start_time@ == if p.start_ts == 0 {
        Seq::empty()
    } else {
        match p.time_base {
            Some(tb) => ts_text(tb, p.start_ts as nat),
            None => decimal(p.start_ts as nat),
        }
    }
    &&& m.duration@ == match (p.n_frames, p.time_base) {
        (Some(n), Some(tb)) => ts_text(tb, n as nat),
        _ => Seq::empty(),
    }
    &&& m.frames@ == match (p.n_frames, p.time_base) {
        (Some(n), None) => decimal(n as nat),
        _ => Seq::empty(),
    }
    &&& m.time_base@ == match p.time_base {
        Some(tb) => decimal(tb.numer as nat) + "/"@ + decimal(tb.denom as nat),
        None => Seq::empty(),
    }
    &&& m.encoder_delay@ == opt_u32_decimal(p.delay)
    &&& m.encoder_padding@ == opt_u32_decimal(p.padding)
    &&& m.sample_format@ == opt_text(p.sample_format)
    &&& m.bits_per_sample@ == opt_u32_decimal(p.bits_per_sample)
    &&& m.channel@ == match p.channels { Some(c) => decimal(popcount(c as nat)), None => Seq::empty() }
    &&& m.channel_map@ == match p.channels { Some(c) => mask_text(c as nat), None => Seq::empty() }
    &&& m.channel_layout@ == opt_text(p.channel_layout)
    &&& m.language@ == opt_text(p.language)
}

proof fn lemma_popcount_bound(b: nat)
    ensures
        popcount(b) <= b,
    decreases b,
{
    if b > 0 {
        lemma_popcount_bound(b / 2);
    }
}

/// Number of channels in a channel mask.
fn count_channels(bits: u32) -> (r: u32)
    ensures
        r as nat == popcount(bits as nat),
    decreases bits,
{
    if bits == 0 {
        0
    } else {
        let rest = count_channels(bits / 2);
        proof { lemma_popcount_bound(bits as nat / 2); }
        bits % 2 + rest
    }
}

fn push_binary(s: &mut String, n: u32)
    ensures
        final(s)@ == old(s)@ + binary(n as nat),
    decreases n,
{
    if n >= 2 {
        push_binary(s, n / 2);
    }
    if n % 2 == 0 {
        proof { reveal_strlit("0"); }
        s.append("0");
    } else {
        proof { reveal_strlit("1"); }
        s.append("1");
    }
    assert(s@ =~= old(s)@ + binary(n as nat));
}

fn mask_string(bits: u32) -> (r: String)
    ensures
        r@ == mask_text(bits as nat),
{
    let mut digits = String::new();
    push_binary(&mut digits, bits);
    let len = digits.as_str().unicode_len();
    let mut r = String::from_str("0b");
    let ghost start = r@;
    let mut i: usize = len;
    while i < 30
        invariant
            len == binary(bits as nat).len(),
            start == "0b"@,
            len <= i <= 30 || (i == len && len >= 30),
            r@ == start + Seq::new((i - len) as nat, |j: int| '0'),
        decreases 30 - i,
    {
        proof { reveal_strlit("0"); }
        r.append("0");
        i = i + 1;
        assert(r@ =~= start + Seq::new((i - len) as nat, |j: int| '0'));
    }
    r.append(digits.as_str());
    assert(r@ =~= mask_text(bits as nat));
    r
}

fn decimal_string(n: u64) -> (r: String)
    ensures
        r@ == decimal(n as nat),
{
    let mut r = String::new();
    push_decimal(&mut r, n);
    assert(r@ =~= decimal(n as nat));
    r
}

fn opt_decimal_string(v: Option<u32>) -> (r: String)
    ensures
        r@ == opt_u32_decimal(v),
{
    match v {
        Some(n) => decimal_string(n as u64),
        None => String::new(),
    }
}

fn opt_string(v: &Option<String>) -> (r: String)
    ensures
        r@ == opt_text(*v),
{
    match v {
        Some(s) => s.clone(),
        None => String::new(),
    }
}

fn ts_string(tb: TimeBase, ts: u64) -> (r: String)
    requires
        tb.wf(),
    ensures
        r@ == ts_text(tb, ts as nat),
{
    let mut r = match calc_time(tb, ts) {
        Some(t) => format_precise(t),
        None => String::new(),
    };
    r.append(" (");
    push_decimal(&mut r, ts);
    r.append(")");
    r
}

/// The record that describes one track.
pub fn info_of(p: &TrackParams) -> (r: MusicInfo)
    requires
        p.wf(),
    ensures
        describes(r, *p),
{
    let mut m = MusicInfo::new();
    match &p.codec_names {
        Some((long_name, short_name)) => {
            m.codec = long_name.clone();
            m.codec_short = short_name.clone();
        },
        None => {},
    }
    m.sample_rate = opt_decimal_string(p.sample_rate);
    if p.start_ts > 0 {
        m.start_time = match p.time_base {
            Some(tb) => ts_string(tb, p.start_ts),
            None => decimal_string(p.start_ts),
        };
    }
    match p.n_frames {
        Some(n) => match p.time_base {
            Some(tb) => {
                m.duration = ts_string(tb, n);
            },
            None => {
                m.frames = decimal_string(n);
            },
        },
        None => {},
    }
    match p.time_base {
        Some(tb) => {
            let mut t = decimal_string(tb.numer as u64);
            t.append("/");
            push_decimal(&mut t, tb.denom as u64);
            assert(t@ =~= decimal(tb.numer as nat) + "/"@ + decimal(tb.denom as nat));
            m.time_base = t;
        },
        None => {},
    }
    m.encoder_delay = opt_decimal_string(p.delay);
    m.encoder_padding = opt_decimal_string(p.padding);
    m.sample_format = opt_string(&p.sample_format);
    m.bits_per_sample = opt_decimal_string(p.bits_per_sample);
    match p.channels {
        Some(c) => {
            m.channel = decimal_string(count_channels(c) as u64);
            m.channel_map = mask_string(c);
        },
        None => {},
    }
    m.channel_layout = opt_string(&p.channel_layout);
    m.language = opt_string(&p.language);
    m
}

/// One record per track of a probed file, in the container's order: a file
/// with N tracks gives exactly N records.
pub fn track_infos(tracks: &Vec<TrackParams>) -> (r: Vec<MusicInfo>)
    requires
        forall|i: int| 0 <= i < tracks@.len() ==> (#[trigger] tracks@[i]).wf(),
    ensures
        r@.len() == tracks@.len(),
        forall|i: int| 0 <= i < tracks@.len() ==> describes(#[trigger] r@[i], tracks@[i]),
{
    let mut r: Vec<MusicInfo> = Vec::new();
    let mut i: usize = 0;
    while i < tracks.len()
        invariant
            i <= tracks@.len(),
            forall|j: int| 0 <= j < tracks@.len() ==> (#[trigger] tracks@[j]).wf(),
            r@.len() == i,
            forall|j: int| 0 <= j < i ==> describes(#[trigger] r@[j], tracks@[j]),
        decreases tracks.len() - i,
    {
        r.push(info_of(&tracks[i]));
        i = i + 1;
    }
    r
}

/// What observers receive when a file has been probed, before any audio of
/// it is written: its pictures, one record per track, and one metadata record.
#[derive(Debug, Clone)]
pub struct ProbeEvents {
    pub images: Vec<MusicImage>,
    pub infos: Vec<MusicInfo>,
    pub meta: MusicMeta,
}

/// The events of a probed file with `tracks`, the tags and pictures of its
/// container and of the probe, and `fallback` as display name.
pub fn probe_events(
    tracks: &Vec<TrackParams>,
    container_tags: &Vec<TagEntry>,
    probed_tags: &Vec<TagEntry>,
    container_visuals: &Vec<Visual>,
    probed_visuals: &Vec<Visual>,
    fallback: String,
) -> (r: ProbeEvents)
    requires
        forall|i: int| 0 <= i < tracks@.len() ==> (#[trigger] tracks@[i]).wf(),
        forall|i: int| 0 <= i < container_visuals@.len() ==> encodable(#[trigger] container_visuals@[i]),
        forall|i: int| 0 <= i < probed_visuals@.len() ==> encodable(#[trigger] probed_visuals@[i]),
    ensures
        r.infos@.len() == tracks@.len(),
        forall|i: int| 0 <= i < tracks@.len() ==> describes(#[trigger] r.infos@[i], tracks@[i]),
        r.images@.len() == if container_visuals@.len() > 0 { container_visuals@.len() } else { probed_visuals@.len() },
        container_tags@.len() > 0 ==> meta_of_tags(r.meta, container_tags@),
        container_tags@.len() == 0 && probed_tags@.len() > 0 ==> meta_of_tags(r.meta, probed_tags@),
        container_tags@.len() == 0 && probed_tags@.len() == 0 ==> r.meta.title == fallback,
{
    let images = images_of(container_visuals, probed_visuals);
    let infos = track_infos(tracks);
    let meta = select_meta(container_tags, probed_tags, fallback);
    ProbeEvents { images, infos, meta }
}

} // verus!
