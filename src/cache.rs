//! Records of the online catalogue that cover art and tags are looked up in.

use vstd::prelude::*;

verus! {

/// One answer of a catalogue search, with the name of the track it was made for.
#[derive(Debug, Clone)]
pub struct MusicDataRes {
    pub music_name: String,
    pub result_count: u32,
    pub results: Vec<Body>,
}

/// One result of a catalogue search.
#[derive(Debug, Clone)]
pub struct Body {
    pub wrapper_type: Option<String>,
    pub kind: Option<String>,
    pub artist_id: Option<i64>,
    pub collection_id: Option<i64>,
    pub track_id: Option<i64>,
    pub artist_name: Option<String>,
    pub collection_name: Option<String>,
    pub track_name: Option<String>,
    pub collection_censored_name: Option<String>,
    pub track_censored_name: Option<String>,
    pub artist_view_url: Option<String>,
    pub collection_view_url: Option<String>,
    pub track_view_url: Option<String>,
    pub preview_url: Option<String>,
    pub artwork_url30: Option<String>,
    pub artwork_url60: Option<String>,
    pub artwork_url100: Option<String>,
    pub release_date: Option<String>,
    pub collection_explicitness: Option<String>,
    pub track_explicitness: Option<String>,
    pub disc_count: Option<i32>,
    pub disc_number: Option<i32>,
    pub track_count: Option<i32>,
    pub track_number: Option<i32>,
    pub track_time_millis: Option<i64>,
    pub country: Option<String>,
    pub currency: Option<String>,
    pub primary_genre_name: Option<String>,
    pub is_streamable: Option<bool>,
}

/// A result describes a song track.
pub open spec fn is_song_track(b: Body) -> bool {
    &&& b.kind matches Some(k) && k@ == "song"@
    &&& b.wrapper_type matches Some(w) && w@ == "track"@
}

impl Body {
    /// Whether this result is a song track, the only kind whose artwork is used.
    pub fn is_song_track(&self) -> (r: bool)
        ensures
            r == is_song_track(*self),
    {
        let song = match &self.kind {
            Some(k) => *k == String::from_str("song"),
            None => false,
        };
        let track = match &self.wrapper_type {
            Some(w) => *w == String::from_str("track"),
            None => false,
        };
        song && track
    }
}

/// Positions of the song tracks among `results`, in order.
pub fn song_tracks(results: &Vec<Body>) -> (r: Vec<usize>)
    ensures
        forall|j: int| 0 <= j < r@.len() ==> (#[trigger] r@[j]) < results@.len() && is_song_track(results@[r@[j] as int]),
        forall|i: int| 0 <= i < results@.len() && is_song_track(results@[i]) ==> r@.contains(i as usize),
        forall|j: int, k: int| 0 <= j < k < r@.len() ==> r@[j] < r@[k],
{
    let mut r: Vec<usize> = Vec::new();
    let mut i: usize = 0;
    while i < results.len()
        invariant
            i <= results@.len(),
            forall|j: int| 0 <= j < r@.len() ==> (#[trigger] r@[j]) < i && is_song_track(results@[r@[j] as int]),
            forall|m: int| 0 <= m < i && is_song_track(results@[m]) ==> r@.contains(m as usize),
            forall|j: int, k: int| 0 <= j < k < r@.len() ==> r@[j] < r@[k],
        decreases results.len() - i,
    {
        let ghost before = r@;
        let song = results[i].is_song_track();
        if song {
            r.push(i);
        }
        proof {
            assert forall|m: int| 0 <= m < i + 1 && is_song_track(results@[m]) implies r@.contains(m as usize) by {
                if m < i {
                    let j = choose|j: int| 0 <= j < before.len() && before[j] == m as usize;
                    assert(r@[j] == m as usize);
                } else {
                    assert(r@[r@.len() - 1] == i);
                }
            }
        }
        i = i + 1;
    }
    r
}

} // verus!
