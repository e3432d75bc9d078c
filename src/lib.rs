//! Playback core of a desktop music player.
//!
//! - `transport`: the shared state (current track, pause flag with its
//!   deferred command, playlist, sequence mode, time position) and the
//!   decisions of the transport commands.
//! - `playlist`: lookup by id, the advance policies, and building entries.
//! - `session`: the decode loop's decisions for one playback session and how
//!   the session ends.
//! - `metadata`: track records, tags and pictures of a probed file.
//! - `resampler`: rate conversion of interleaved 16-bit PCM.
//! - `output`: decisions of the audio sink.
//! - `time`: time positions and their text forms.
//! - `music`, `state`, `cache`: the records exchanged with observers.
//! - `text`: calls into std and outside crates on text and bytes.

pub mod cache;
pub mod metadata;
pub mod music;
pub mod output;
pub mod playlist;
pub mod resampler;
pub mod session;
pub mod state;
pub mod text;
pub mod time;
pub mod transport;
