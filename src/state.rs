//! The cells shared between command handlers and the decode loop.

use vstd::prelude::*;

use crate::music::MusicFile;
use crate::time::TimePosition;

verus! {

/// Id of the track that is current, if any.
#[derive(Debug, Clone)]
pub struct IdState(pub Option<String>);

impl IdState {
    fn new(id: Option<String>) -> (r: Self)
        ensures
            r.0 == id,
    {
        IdState(id)
    }

    pub fn default() -> (r: Self)
        ensures
            r.0 is None,
    {
        Self::new(None)
    }

    pub fn set(&mut self, id: Option<String>)
        ensures
            final(self).0 == id,
    {
        self.0 = id;
    }

    pub fn get(&self) -> (r: Option<String>)
        ensures
            r == self.0,
    {
        match &self.0 {
            Some(id) => Some(id.clone()),
            None => None,
        }
    }
}

/// The command that asked for the pause; it carries a marker text.
#[derive(Debug, Clone)]
pub enum EventSource {
    Play(String),
    Pause(String),
    PlayNext(String),
    PlayPrev(String),
}

/// What to play once the running session has stopped.
#[derive(Debug, Clone)]
pub struct Payload {
    pub id: String,
    pub time_position: Option<TimePosition>,
}

impl Payload {
    pub fn new(id: String, time_position: Option<TimePosition>) -> (r: Self)
        ensures
            r.id == id,
            r.time_position == time_position,
    {
        Payload { id, time_position }
    }
}

/// The pause flag and the command deferred until the running session stops.
#[derive(Debug, Clone)]
pub struct PauseState {
    pub pause: bool,
    pub event_source: Option<EventSource>,
    pub payload: Option<Payload>,
}

impl PauseState {
    /// A running session has no deferred command.
    pub open spec fn wf(&self) -> bool {
        !self.pause ==> self.event_source is None && self.payload is None
    }

    pub fn default() -> (r: Self)
        ensures
            r.wf(),
            r.pause,
            r.event_source is None,
            r.payload is None,
    {
        PauseState { pause: true, event_source: None, payload: None }
    }

    /// Sets the flag and the deferred command; clearing the flag drops the command.
    pub fn set(&mut self, pause: bool, event_source: Option<EventSource>, payload: Option<Payload>)
        ensures
            final(self).wf(),
            final(self).pause == pause,
            pause ==> final(self).event_source == event_source && final(self).payload == payload,
    {
        self.pause = pause;
        if pause {
            self.event_source = event_source;
            self.payload = payload;
        } else {
            self.event_source = None;
            self.payload = None;
        }
    }
}

/// The playlist.
#[derive(Debug, Clone)]
pub struct MusicFilesState(pub Vec<MusicFile>);

impl MusicFilesState {
    fn new(music_files: Vec<MusicFile>) -> (r: Self)
        ensures
            r.0@ == music_files@,
    {
        MusicFilesState(music_files)
    }

    pub fn default() -> (r: Self)
        ensures
            r.0@.len() == 0,
    {
        Self::new(Vec::new())
    }

    pub fn set(&mut self, music_files: Vec<MusicFile>)
        ensures
            final(self).0@ == music_files@,
    {
        self.0 = music_files;
    }

    pub fn get(&self) -> (r: Vec<MusicFile>)
        ensures
            r@ == self.0@,
    {
        let r = self.0.clone();
        assert(r@ =~= self.0@);
        r
    }
}

/// How the next track is chosen when one ends by itself.
#[derive(Debug, Clone, Copy, PartialEq, Eq, Structural)]
pub enum SequenceMode {
    RepeatAll,
    RepeatOne,
    Random,
}

/// The mode that a stored code stands for: 2 repeats one track, 3 picks at
/// random, and any other code repeats the whole playlist.
pub open spec fn mode_of(code: u32) -> SequenceMode {
    if code == 2 {
        SequenceMode::RepeatOne
    } else if code == 3 {
        SequenceMode::Random
    } else {
        SequenceMode::RepeatAll
    }
}

/// The sequence mode, as its stored code.
#[derive(Debug, Clone)]
pub struct SequenceTypeState(pub u32);

impl SequenceTypeState {
    fn new(sequence_type: u32) -> (r: Self)
        ensures
            r.0 == sequence_type,
    {
        SequenceTypeState(sequence_type)
    }

    pub fn default() -> (r: Self)
        ensures
            r.0 == 1,
            mode_of(r.0) == SequenceMode::RepeatAll,
    {
        Self::new(1)
    }

    pub fn set(&mut self, sequence_type: u32)
        ensures
            final(self).0 == sequence_type,
    {
        self.0 = sequence_type;
    }

    pub fn get(&self) -> (r: u32)
        ensures
            r == self.0,
    {
        self.0
    }

    pub fn mode(&self) -> (r: SequenceMode)
        ensures
            r == mode_of(self.0),
    {
        if self.0 == 2 {
            SequenceMode::RepeatOne
        } else if self.0 == 3 {
            SequenceMode::Random
        } else {
            SequenceMode::RepeatAll
        }
    }
}

/// Time of the last packet written, cleared when a track starts.
#[derive(Debug, Clone)]
pub struct TimePositionState(pub Option<TimePosition>);

impl TimePositionState {
    fn new(time_position: Option<TimePosition>) -> (r: Self)
        ensures
            r.0 == time_position,
    {
        TimePositionState(time_position)
    }

    pub fn default() -> (r: Self)
        ensures
            r.0 is None,
    {
        Self::new(None)
    }

    pub fn set(&mut self, time_position: Option<TimePosition>)
        ensures
            final(self).0 == time_position,
    {
        self.0 = time_position;
    }

    pub fn get(&self) -> (r: Option<TimePosition>)
        ensures
            r == self.0,
    {
        self.0
    }
}

} // verus!
