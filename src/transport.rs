//! Transport commands: the decisions of play, pause, seek, switch, next and
//! previous over the shared cells. A command either starts a session, defers
//! its wish to the running session through the pause state, or does nothing.

use vstd::prelude::*;

use crate::music::{MusicError, MusicFile, MusicMap, PlayState};
use crate::playlist::{
    contains_id, current_index, current_position, fresh_entry, is_first_index, merge_playlist,
    new_entries, next_after_finish, next_index, next_position, next_track_id, position,
    position_by_name, previous_index, previous_position, remove_id, without_id,
};
use crate::text::{lower_of, lowercase, random_below};
use crate::state::{
    EventSource, IdState, MusicFilesState, PauseState, Payload, SequenceTypeState,
    TimePositionState, mode_of,
};
use crate::time::{TimePosition, parse_clock, parse_str_time};

verus! {

/// What the caller does after a command.
#[derive(Debug, Clone)]
pub enum Action {
    /// Start a session for the track `id`, seeking to `position` when given.
    Start { id: String, position: Option<TimePosition> },
    /// The running session was asked to stop; the wish waits in the pause state.
    Deferred,
    /// Nothing to do.
    Idle,
}

/// Why a command could not run.
#[derive(Debug, Clone, Copy, PartialEq, Eq, Structural)]
pub enum TransportError {
    NothingToSeek,
    NothingToPlay,
    EmptyPlaylist,
}

pub open spec fn error_text(e: TransportError) -> Seq<char> {
    match e {
        TransportError::NothingToSeek => "No track available to seek"@,
        TransportError::NothingToPlay => "No track available to play"@,
        TransportError::EmptyPlaylist => "Music files list is empty"@,
    }
}

impl TransportError {
    pub fn message(&self) -> (r: String)
        ensures
            r@ == error_text(*self),
    {
        match self {
            TransportError::NothingToSeek => String::from_str("No track available to seek"),
            TransportError::NothingToPlay => String::from_str("No track available to play"),
            TransportError::EmptyPlaylist => String::from_str("Music files list is empty"),
        }
    }
}

/// The state shared by command handlers and the decode loop.
#[derive(Debug, Clone)]
pub struct Transport {
    pub id: IdState,
    pub pause: PauseState,
    pub files: MusicFilesState,
    pub sequence: SequenceTypeState,
    pub time_position: TimePositionState,
}

/// `a` starts the track `id` at `position`.
pub open spec fn starts(a: Action, id: Seq<char>, position: Option<TimePosition>) -> bool {
    a matches Action::Start { id: i, position: p } && i@ == id && p == position
}

/// The pause state asks the running session to stop and then play `id` at `position`.
pub open spec fn defers_play(p: PauseState, id: Seq<char>, position: Option<TimePosition>) -> bool {
    &&& p.pause
    &&& p.event_source matches Some(EventSource::Play(_))
    &&& p.payload matches Some(q) && q.id@ == id && q.time_position == position
}

/// The pause state asks the running session to stop and then play `id` from
/// its start, as a step to the next (`forward`) or previous entry.
pub open spec fn defers_step(p: PauseState, id: Seq<char>, forward: bool) -> bool {
    &&& p.pause
    &&& if forward {
        p.event_source matches Some(EventSource::PlayNext(_))
    } else {
        p.event_source matches Some(EventSource::PlayPrev(_))
    }
    &&& p.payload matches Some(q) && q.id@ == id && q.time_position is None
}

impl Transport {
    pub open spec fn wf(&self) -> bool {
        &&& self.pause.wf()
        &&& self.time_position.0 matches Some(t) ==> t.wf()
    }

    pub open spec fn playlist(&self) -> Seq<MusicFile> {
        self.files.0@
    }

    /// The current track, or the first of the playlist when none is current.
    pub open spec fn current_or_first(&self) -> Option<Seq<char>> {
        match self.id.0 {
            Some(id) => Some(id@),
            None => if self.playlist().len() > 0 {
                Some(self.playlist()[0].id@)
            } else {
                None
            },
        }
    }

    /// Cells other than the pause state and the time position are as in `o`.
    pub open spec fn same_selection(&self, o: &Transport) -> bool {
        &&& self.id == o.id
        &&& self.files.0@ == o.files.0@
        &&& self.sequence == o.sequence
    }

    pub fn new() -> (r: Self)
        ensures
            r.wf(),
            r.id.0 is None,
            r.pause.pause,
            r.pause.event_source is None,
            r.playlist().len() == 0,
            r.sequence.0 == 1,
            r.time_position.0 is None,
    {
        Transport {
            id: IdState::default(),
            pause: PauseState::default(),
            files: MusicFilesState::default(),
            sequence: SequenceTypeState::default(),
            time_position: TimePositionState::default(),
        }
    }

    fn current_or_first_id(&self) -> (r: Option<String>)
        ensures
            r matches Some(s) ==> self.current_or_first() == Some(s@),
            r is None ==> self.current_or_first() is None,
    {
        match self.id.get() {
            Some(id) => Some(id),
            None => {
                if self.files.0.len() > 0 {
                    Some(self.files.0[0].id.clone())
                } else {
                    None
                }
            },
        }
    }

    /// A session for `id` begins: it becomes current and the pause flag is
    /// cleared. Returns its playlist entry, if the playlist has it.
    pub fn begin(&mut self, id: String) -> (r: Option<MusicFile>)
        requires
            old(self).wf(),
        ensures
            final(self).wf(),
            final(self).id.0 == Some(id),
            !final(self).pause.pause,
            final(self).files.0@ == old(self).files.0@,
            final(self).sequence == old(self).sequence,
            final(self).time_position == old(self).time_position,
            r matches Some(f) ==> f == old(self).playlist()[current_index(old(self).playlist(), id@)],
            r is None <==> !contains_id(old(self).playlist(), id@),
    {
        let found = position(&self.files.0, &id);
        let r = match found {
            Some(i) => {
                let k = current_position(&self.files.0, &id);
                Some(self.files.0[k].clone())
            },
            None => None,
        };
        self.id.set(Some(id));
        self.pause.set(false, None, None);
        r
    }

    /// Asks the running session to stop, with no command to follow.
    pub fn request_pause(&mut self)
        requires
            old(self).wf(),
        ensures
            final(self).wf(),
            final(self).pause.pause,
            final(self).pause.event_source matches Some(EventSource::Pause(_)),
            final(self).pause.payload is None,
            final(self).same_selection(old(self)),
            final(self).time_position == old(self).time_position,
    {
        self.pause.set(true, Some(EventSource::Pause(String::from_str("PAUSE"))), None);
    }

    /// Seeks the current (or first) track to `time`: starts it there when
    /// stopped, else defers the start to the running session.
    pub fn seek(&mut self, time: TimePosition) -> (r: Result<Action, TransportError>)
        requires
            old(self).wf(),
            time.wf(),
        ensures
            final(self).wf(),
            final(self).same_selection(old(self)),
            final(self).time_position == old(self).time_position,
            old(self).current_or_first() is None ==> r == Err::<Action, TransportError>(TransportError::NothingToSeek)
                && final(self).pause == old(self).pause,
            old(self).current_or_first() matches Some(id) ==> {
                if old(self).pause.pause {
                    r matches Ok(a) && starts(a, id, Some(time)) && final(self).pause == old(self).pause
                } else {
                    r matches Ok(Action::Deferred) && defers_play(final(self).pause, id, Some(time))
                }
            },
    {
        let id = match self.current_or_first_id() {
            Some(id) => id,
            None => return Err(TransportError::NothingToSeek),
        };
        if self.pause.pause {
            Ok(Action::Start { id, position: Some(time) })
        } else {
            self.pause.set(true, Some(EventSource::Play(String::from_str("PLAY"))), Some(Payload::new(id, Some(time))));
            Ok(Action::Deferred)
        }
    }

    /// Switches to the track `id` from its start.
    pub fn switch(&mut self, id: String) -> (r: Action)
        requires
            old(self).wf(),
        ensures
            final(self).wf(),
            final(self).same_selection(old(self)),
            final(self).time_position.0 is None,
            old(self).pause.pause ==> starts(r, id@, None) && final(self).pause == old(self).pause,
            !old(self).pause.pause ==> r is Deferred && defers_play(final(self).pause, id@, None),
    {
        self.time_position.set(None);
        if self.pause.pause {
            Action::Start { id, position: None }
        } else {
            self.pause.set(true, Some(EventSource::Play(String::from_str("PLAY"))), Some(Payload::new(id, None)));
            Action::Deferred
        }
    }

    /// Plays the current (or first) track from the remembered position when stopped.
    pub fn play(&mut self) -> (r: Result<Action, TransportError>)
        requires
            old(self).wf(),
        ensures
            *final(self) == *old(self),
            old(self).current_or_first() is None ==> r == Err::<Action, TransportError>(TransportError::NothingToPlay),
            old(self).current_or_first() matches Some(id) ==> {
                if old(self).pause.pause {
                    r matches Ok(a) && starts(a, id, old(self).time_position.0)
                } else {
                    r matches Ok(Action::Idle)
                }
            },
    {
        let id = match self.current_or_first_id() {
            Some(id) => id,
            None => return Err(TransportError::NothingToPlay),
        };
        if self.pause.pause {
            Ok(Action::Start { id, position: self.time_position.get() })
        } else {
            Ok(Action::Idle)
        }
    }

    /// Goes to the entry after the current one (or to the first entry when
    /// none is current), from its start.
    pub fn play_next(&mut self) -> (r: Result<Action, TransportError>)
        requires
            old(self).wf(),
        ensures
            final(self).wf(),
            final(self).same_selection(old(self)),
            old(self).playlist().len() == 0 ==> r == Err::<Action, TransportError>(TransportError::EmptyPlaylist)
                && *final(self) == *old(self),
            old(self).playlist().len() > 0 ==> {
                let files = old(self).playlist();
                let target = match old(self).id.0 {
                    Some(cur) => files[next_index(files, cur@)].id@,
                    None => files[0].id@,
                };
                &&& final(self).time_position.0 is None
                &&& old(self).pause.pause ==> (r matches Ok(a) && starts(a, target, None))
                    && final(self).pause == old(self).pause
                &&& !old(self).pause.pause ==> (r matches Ok(Action::Deferred))
                    && defers_step(final(self).pause, target, true)
            },
    {
        if self.files.0.len() == 0 {
            return Err(TransportError::EmptyPlaylist);
        }
        let target = match &self.id.0 {
            Some(cur) => {
                let k = next_position(&self.files.0, cur);
                self.files.0[k].id.clone()
            },
            None => self.files.0[0].id.clone(),
        };
        self.time_position.set(None);
        if self.pause.pause {
            Ok(Action::Start { id: target, position: None })
        } else {
            self.pause.set(
                true,
                Some(EventSource::PlayNext(String::from_str("PLAY_NEXT"))),
                Some(Payload::new(target, None)),
            );
            Ok(Action::Deferred)
        }
    }

    /// Goes to the entry before the current one (or to the first entry when
    /// none is current), from its start.
    pub fn play_previous(&mut self) -> (r: Result<Action, TransportError>)
        requires
            old(self).wf(),
        ensures
            final(self).wf(),
            final(self).same_selection(old(self)),
            old(self).playlist().len() == 0 ==> r == Err::<Action, TransportError>(TransportError::EmptyPlaylist)
                && *final(self) == *old(self),
            old(self).playlist().len() > 0 ==> {
                let files = old(self).playlist();
                let target = match old(self).id.0 {
                    Some(cur) => files[previous_index(files, cur@)].id@,
                    None => files[0].id@,
                };
                &&& final(self).time_position.0 is None
                &&& old(self).pause.pause ==> (r matches Ok(a) && starts(a, target, None))
                    && final(self).pause == old(self).pause
                &&& !old(self).pause.pause ==> (r matches Ok(Action::Deferred))
                    && defers_step(final(self).pause, target, false)
            },
    {
        if self.files.0.len() == 0 {
            return Err(TransportError::EmptyPlaylist);
        }
        let target = match &self.id.0 {
            Some(cur) => {
                let k = previous_position(&self.files.0, cur);
                self.files.0[k].id.clone()
            },
            None => self.files.0[0].id.clone(),
        };
        self.time_position.set(None);
        if self.pause.pause {
            Ok(Action::Start { id: target, position: None })
        } else {
            self.pause.set(
                true,
                Some(EventSource::PlayPrev(String::from_str("PLAY_PREV"))),
                Some(Payload::new(target, None)),
            );
            Ok(Action::Deferred)
        }
    }

    /// What to do once a session stopped on a pause: run the command it deferred.
    pub fn resume(pending: &PauseState) -> (r: Action)
        ensures
            match (pending.event_source, pending.payload) {
                (Some(EventSource::Play(_)), Some(q)) => starts(r, q.id@, q.time_position),
                (Some(EventSource::PlayNext(_)), Some(q)) => starts(r, q.id@, None),
                (Some(EventSource::PlayPrev(_)), Some(q)) => starts(r, q.id@, None),
                _ => r is Idle,
            },
    {
        match (&pending.event_source, &pending.payload) {
            (Some(EventSource::Play(_)), Some(q)) => Action::Start { id: q.id.clone(), position: q.time_position },
            (Some(EventSource::PlayNext(_)), Some(q)) => Action::Start { id: q.id.clone(), position: None },
            (Some(EventSource::PlayPrev(_)), Some(q)) => Action::Start { id: q.id.clone(), position: None },
            _ => Action::Idle,
        }
    }

    /// Empties the playlist and forgets the current track and position.
    pub fn clear_playlist(&mut self)
        requires
            old(self).wf(),
        ensures
            final(self).wf(),
            final(self).pause.pause,
            final(self).pause.event_source is None,
            final(self).pause.payload is None,
            final(self).time_position.0 is None,
            final(self).id.0 is None,
            final(self).playlist().len() == 0,
            final(self).sequence == old(self).sequence,
    {
        self.pause.set(true, None, None);
        self.time_position.set(None);
        self.id.set(None);
        self.files.set(Vec::new());
    }

    /// The track `finished` ended by itself: forgets the position and picks
    /// the next track by the sequence mode, `pick` being the drawn position
    /// for random mode.
    pub fn finish(&mut self, finished: &String, pick: usize) -> (r: Option<String>)
        requires
            old(self).wf(),
            mode_of(old(self).sequence.0) == crate::state::SequenceMode::Random && old(self).playlist().len() > 0
                ==> pick < old(self).playlist().len(),
        ensures
            final(self).wf(),
            final(self).same_selection(old(self)),
            final(self).pause == old(self).pause,
            final(self).time_position.0 is None,
            r matches Some(s) ==> next_after_finish(mode_of(old(self).sequence.0), old(self).playlist(), finished@, pick as int) == Some(s@),
            r is None ==> next_after_finish(mode_of(old(self).sequence.0), old(self).playlist(), finished@, pick as int) is None,
    {
        self.time_position.set(None);
        next_track_id(self.sequence.mode(), &self.files.0, finished, pick)
    }

    /// Id, display name and path of the current track for a progress
    /// snapshot; the name and path are empty when the playlist lacks it.
    pub fn now_playing(&self) -> (r: (String, String, String))
        ensures
            self.id.0 is None ==> r.0@.len() == 0 && r.1@.len() == 0 && r.2@.len() == 0,
            self.id.0 matches Some(id) ==> r.0@ == id@ && if contains_id(self.playlist(), id@) {
                let f = self.playlist()[current_index(self.playlist(), id@)];
                r.1@ == f.name@ && r.2@ == f.path@
            } else {
                r.1@.len() == 0 && r.2@.len() == 0
            },
    {
        match &self.id.0 {
            None => (String::new(), String::new(), String::new()),
            Some(id) => {
                match position(&self.files.0, id) {
                    Some(i) => {
                        let k = current_position(&self.files.0, id);
                        assert(k == i) by {
                            assert(is_first_index(self.playlist(), id@, i as int));
                        }
                        (id.clone(), self.files.0[i].name.clone(), self.files.0[i].path.clone())
                    },
                    None => (id.clone(), String::new(), String::new()),
                }
            },
        }
    }

    /// Display name to show when a file carries no tags: that of the current
    /// entry, or of the first entry when none is current; empty without a playlist.
    pub fn fallback_title(&self) -> (r: String)
        ensures
            self.playlist().len() == 0 ==> r@.len() == 0,
            self.playlist().len() > 0 ==> r@ == match self.id.0 {
                Some(id) => self.playlist()[current_index(self.playlist(), id@)].name@,
                None => self.playlist()[0].name@,
            },
    {
        if self.files.0.len() == 0 {
            return String::new();
        }
        match &self.id.0 {
            Some(id) => {
                let k = current_position(&self.files.0, id);
                self.files.0[k].name.clone()
            },
            None => self.files.0[0].name.clone(),
        }
    }

    /// Plays the track `finished` ended by itself: like `finish`, with the
    /// position for random mode drawn at random.
    pub fn advance_after_finish(&mut self, finished: &String) -> (r: Option<String>)
        requires
            old(self).wf(),
        ensures
            final(self).wf(),
            final(self).same_selection(old(self)),
            final(self).pause == old(self).pause,
            final(self).time_position.0 is None,
            exists|pick: int|
                (old(self).playlist().len() > 0 ==> 0 <= pick < old(self).playlist().len()) && match r {
                    Some(s) => next_after_finish(mode_of(old(self).sequence.0), old(self).playlist(), finished@, pick)
                        == Some(s@),
                    None => next_after_finish(mode_of(old(self).sequence.0), old(self).playlist(), finished@, pick) is None,
                },
    {
        let n = self.files.0.len();
        let pick = if n > 0 { random_below(n) } else { 0 };
        let r = self.finish(finished, pick);
        assert((old(self).playlist().len() > 0 ==> 0 <= pick < old(self).playlist().len()));
        r
    }

    /// Drops every entry with the id `id` from the playlist.
    pub fn remove_track(&mut self, id: &String)
        requires
            old(self).wf(),
        ensures
            final(self).wf(),
            final(self).playlist() == without_id(old(self).playlist(), id@),
            final(self).id == old(self).id,
            final(self).pause == old(self).pause,
            final(self).sequence == old(self).sequence,
            final(self).time_position == old(self).time_position,
    {
        let kept = remove_id(&self.files.0, id);
        self.files.set(kept);
    }

    /// The playlist becomes `stored` followed by a fresh entry for each of
    /// `files`; returns it.
    pub fn add_tracks(&mut self, stored: Vec<MusicFile>, files: Vec<String>) -> (r: Vec<MusicFile>)
        requires
            old(self).wf(),
        ensures
            final(self).wf(),
            r@ == final(self).playlist(),
            r@.len() == stored@.len() + files@.len(),
            r@.take(stored@.len() as int) == stored@,
            forall|i: int| 0 <= i < files@.len() ==> fresh_entry(#[trigger] r@[stored@.len() + i], files@[i]@),
            final(self).id == old(self).id,
            final(self).pause == old(self).pause,
            final(self).sequence == old(self).sequence,
            final(self).time_position == old(self).time_position,
    {
        let added = new_entries(files);
        let merged = merge_playlist(stored, added);
        assert(merged@.take(stored@.len() as int) =~= stored@);
        assert forall|i: int| 0 <= i < files@.len() implies fresh_entry(#[trigger] merged@[stored@.len() + i], files@[i]@) by {
            assert(merged@[stored@.len() + i] == added@[i]);
        }
        self.files.set(merged);
        self.files.get()
    }

    /// Stores looked-up metadata on the first entry whose display name is
    /// `found.name`; returns that entry as updated.
    pub fn apply_lookup(&mut self, found: &MusicMap) -> (r: Option<MusicFile>)
        requires
            old(self).wf(),
        ensures
            final(self).wf(),
            final(self).id == old(self).id,
            final(self).pause == old(self).pause,
            final(self).sequence == old(self).sequence,
            final(self).time_position == old(self).time_position,
            final(self).playlist().len() == old(self).playlist().len(),
            r is None ==> final(self).playlist() == old(self).playlist()
                && forall|j: int| 0 <= j < old(self).playlist().len() ==> old(self).playlist()[j].name@ != found.name@,
            r matches Some(f) ==> exists|i: int| {
                &&& 0 <= i < old(self).playlist().len()
                &&& old(self).playlist()[i].name@ == found.name@
                &&& forall|j: int| 0 <= j < i ==> old(self).playlist()[j].name@ != found.name@
                &&& f == final(self).playlist()[i]
                &&& f.id == old(self).playlist()[i].id
                &&& f.name == old(self).playlist()[i].name
                &&& f.path == old(self).playlist()[i].path
                &&& f.artist == Some(found.artist)
                &&& f.album == Some(found.album)
                &&& f.image_path == Some(found.image_path)
                &&& final(self).playlist() == old(self).playlist().update(i, f)
            },
    {
        let found_at = position_by_name(&self.files.0, &found.name);
        match found_at {
            Some(i) => {
                let mut files = self.files.get();
                let old_entry = files[i].clone();
                let updated = MusicFile::new(
                    old_entry.id,
                    old_entry.name,
                    old_entry.path,
                    Some(found.image_path.clone()),
                    Some(found.artist.clone()),
                    Some(found.album.clone()),
                );
                files.set(i, updated.clone());
                self.files.set(files);
                assert(self.playlist() =~= old(self).playlist().update(i as int, updated));
                assert(self.playlist()[i as int] == updated);
                Some(updated)
            },
            None => None,
        }
    }

    /// Forgets every entry's cached picture; returns the playlist.
    pub fn forget_images(&mut self) -> (r: Vec<MusicFile>)
        requires
            old(self).wf(),
        ensures
            final(self).wf(),
            r@ == final(self).playlist(),
            r@.len() == old(self).playlist().len(),
            forall|i: int| 0 <= i < r@.len() ==> (#[trigger] r@[i]).image_path is None && r@[i].id == old(self).playlist()[i].id
                && r@[i].name == old(self).playlist()[i].name && r@[i].path == old(self).playlist()[i].path
                && r@[i].artist == old(self).playlist()[i].artist && r@[i].album == old(self).playlist()[i].album,
            final(self).id == old(self).id,
            final(self).pause == old(self).pause,
            final(self).sequence == old(self).sequence,
            final(self).time_position == old(self).time_position,
    {
        let mut files = self.files.get();
        let mut i: usize = 0;
        while i < files.len()
            invariant
                *self == *old(self),
                files@.len() == old(self).playlist().len(),
                i <= files@.len(),
                forall|j: int| 0 <= j < files@.len() ==> (#[trigger] files@[j]).id == old(self).playlist()[j].id
                    && files@[j].name == old(self).playlist()[j].name && files@[j].path == old(self).playlist()[j].path
                    && files@[j].artist == old(self).playlist()[j].artist && files@[j].album == old(self).playlist()[j].album,
                forall|j: int| 0 <= j < i ==> (#[trigger] files@[j]).image_path is None,
            decreases files.len() - i,
        {
            let e = files[i].clone();
            files.set(i, MusicFile::new(e.id, e.name, e.path, None, e.artist, e.album));
            i = i + 1;
        }
        self.files.set(files);
        self.files.get()
    }

    /// Takes back a stored progress snapshot: its track becomes current, and
    /// its progress text, when it reads as a time, becomes the position.
    pub fn restore_play_state(&mut self, stored: &PlayState)
        requires
            old(self).wf(),
        ensures
            final(self).wf(),
            final(self).id.0 == stored.id,
            final(self).time_position.0 == match stored.progress {
                Some(p) => if parse_clock(p@) is Some { parse_clock(p@) } else { old(self).time_position.0 },
                None => old(self).time_position.0,
            },
            final(self).pause == old(self).pause,
            final(self).files.0@ == old(self).files.0@,
            final(self).sequence == old(self).sequence,
    {
        let position = match &stored.progress {
            Some(p) => parse_str_time(p.as_str()),
            None => None,
        };
        let id = match &stored.id {
            Some(i) => Some(i.clone()),
            None => None,
        };
        self.restore(id, position);
    }

    /// Takes back the current track and position that were stored.
    pub fn restore(&mut self, id: Option<String>, position: Option<TimePosition>)
        requires
            old(self).wf(),
            position matches Some(t) ==> t.wf(),
        ensures
            final(self).wf(),
            final(self).id.0 == id,
            final(self).time_position.0 == if position is Some { position } else { old(self).time_position.0 },
            final(self).pause == old(self).pause,
            final(self).files.0@ == old(self).files.0@,
            final(self).sequence == old(self).sequence,
    {
        self.id.set(id);
        if position.is_some() {
            self.time_position.set(position);
        }
    }
}

/// The error event of a session that could not go on: its message lowercased.
pub fn failure_event(id: String, name: String, message: &str) -> (r: MusicError)
    ensures
        r.id == Some(id),
        r.name == name,
        r.message@ == lower_of(message@),
{
    MusicError::new(Some(id), name, lowercase(message))
}

} // verus!
