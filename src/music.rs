//! Records handed to observers and the playlist entry.

use vstd::prelude::*;

verus! {

/// An error event: the track it concerns, its display name and a lowercased message.
#[derive(Debug, Clone)]
pub struct MusicError {
    pub id: Option<String>,
    pub name: String,
    pub message: String,
}

impl MusicError {
    pub fn new(id: Option<String>, name: String, message: String) -> (r: Self)
        ensures
            r.id == id,
            r.name == name,
            r.message == message,
    {
        MusicError { id, name, message }
    }
}

/// Container-level description of one track: codec parameters as text.
#[derive(Debug, Clone)]
pub struct MusicInfo {
    pub codec: String,
    pub codec_short: String,
    pub sample_rate: String,
    pub start_time: String,
    pub duration: String,
    pub frames: String,
    pub time_base: String,
    pub encoder_delay: String,
    pub encoder_padding: String,
    pub sample_format: String,
    pub bits_per_sample: String,
    pub channel: String,
    pub channel_map: String,
    pub channel_layout: String,
    pub language: String,
}

impl MusicInfo {
    /// A record with every field empty.
    pub open spec fn is_blank(&self) -> bool {
        &&& self.codec@ == Seq::<char>::empty()
        &&& self.codec_short@ == Seq::<char>::empty()
        &&& self.sample_rate@ == Seq::<char>::empty()
        &&& self.start_time@ == Seq::<char>::empty()
        &&& self.duration@ == Seq::<char>::empty()
        &&& self.frames@ == Seq::<char>::empty()
        &&& self.time_base@ == Seq::<char>::empty()
        &&& self.encoder_delay@ == Seq::<char>::empty()
        &&& self.encoder_padding@ == Seq::<char>::empty()
        &&& self.sample_format@ == Seq::<char>::empty()
        &&& self.bits_per_sample@ == Seq::<char>::empty()
        &&& self.channel@ == Seq::<char>::empty()
        &&& self.channel_map@ == Seq::<char>::empty()
        &&& self.channel_layout@ == Seq::<char>::empty()
        &&& self.language@ == Seq::<char>::empty()
    }

    pub fn new() -> (r: Self)
        ensures
            r.is_blank(),
    {
        MusicInfo {
            codec: String::new(),
            codec_short: String::new(),
            sample_rate: String::new(),
            start_time: String::new(),
            duration: String::new(),
            frames: String::new(),
            time_base: String::new(),
            encoder_delay: String::new(),
            encoder_padding: String::new(),
            sample_format: String::new(),
            bits_per_sample: String::new(),
            channel: String::new(),
            channel_map: String::new(),
            channel_layout: String::new(),
            language: String::new(),
        }
    }
}

/// A progress snapshot: which track plays, and elapsed and remaining time as text.
#[derive(Debug, Clone)]
pub struct PlayState {
    pub id: Option<String>,
    pub name: Option<String>,
    pub path: Option<String>,
    pub progress: Option<String>,
    pub left_duration: Option<String>,
}

impl PlayState {
    pub fn new(id: String, name: String, path: String, progress: String, left_duration: String) -> (r: Self)
        ensures
            r.id == Some(id),
            r.name == Some(name),
            r.path == Some(path),
            r.progress == Some(progress),
            r.left_duration == Some(left_duration),
    {
        PlayState {
            id: Some(id),
            name: Some(name),
            path: Some(path),
            progress: Some(progress),
            left_duration: Some(left_duration),
        }
    }
}

/// Title, artist and album of the track being played.
#[derive(Debug, Clone)]
pub struct MusicMeta {
    pub title: String,
    pub artist: String,
    pub album: String,
}

impl MusicMeta {
    pub fn new(title: String) -> (r: Self)
        ensures
            r.title == title,
            r.artist@.len() == 0,
            r.album@.len() == 0,
    {
        MusicMeta { title, artist: String::new(), album: String::new() }
    }
}

/// An embedded picture as a `data:` URI.
#[derive(Debug, Clone)]
pub struct MusicImage {
    pub image: String,
}

impl MusicImage {
    pub fn new(image: String) -> (r: Self)
        ensures
            r.image == image,
    {
        MusicImage { image }
    }
}

/// One playlist entry.
#[derive(Debug)]
pub struct MusicFile {
    pub id: String,
    pub name: String,
    pub path: String,
    pub image_path: Option<String>,
    pub artist: Option<String>,
    pub album: Option<String>,
}

impl MusicFile {
    pub fn new(
        id: String,
        name: String,
        path: String,
        image_path: Option<String>,
        artist: Option<String>,
        album: Option<String>,
    ) -> (r: Self)
        ensures
            r.id == id,
            r.name == name,
            r.path == path,
            r.image_path == image_path,
            r.artist == artist,
            r.album == album,
    {
        MusicFile { id, name, path, image_path, artist, album }
    }
}

fn clone_opt(s: &Option<String>) -> (r: Option<String>)
    ensures
        r == *s,
{
    match s {
        Some(v) => Some(v.clone()),
        None => None,
    }
}

impl Clone for MusicFile {
    fn clone(&self) -> (r: Self)
        ensures
            r == *self,
    {
        MusicFile {
            id: self.id.clone(),
            name: self.name.clone(),
            path: self.path.clone(),
            image_path: clone_opt(&self.image_path),
            artist: clone_opt(&self.artist),
            album: clone_opt(&self.album),
        }
    }
}

/// Looked-up metadata of a track, keyed by its display name.
#[derive(Debug, Clone)]
pub struct MusicMap {
    pub name: String,
    pub artist: String,
    pub album: String,
    pub image_path: String,
}

impl MusicMap {
    pub fn new(name: String, artist: String, album: String, image_path: String) -> (r: Self)
        ensures
            r.name == name,
            r.artist == artist,
            r.album == album,
            r.image_path == image_path,
    {
        MusicMap { name, artist, album, image_path }
    }
}

} // verus!
