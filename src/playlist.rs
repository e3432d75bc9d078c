//! Where a playlist goes next: lookup by id and the advance policies.

use vstd::prelude::*;

use crate::music::MusicFile;
use crate::state::SequenceMode;
use crate::text::{extension, extension_of, file_name, file_name_of, file_stem, file_stem_of, lower_of, lowercase, new_uuid};

verus! {

/// `i` is the first position of `id` in `files`.
pub open spec fn is_first_index(files: Seq<MusicFile>, id: Seq<char>, i: int) -> bool {
    &&& 0 <= i < files.len()
    &&& files[i].id@ == id
    &&& forall|j: int| 0 <= j < i ==> files[j].id@ != id
}

pub open spec fn contains_id(files: Seq<MusicFile>, id: Seq<char>) -> bool {
    exists|i: int| 0 <= i < files.len() && files[i].id@ == id
}

/// Position of the current track: the first entry with `id`, or 0 when none has it.
pub open spec fn current_index(files: Seq<MusicFile>, id: Seq<char>) -> int {
    if exists|i: int| is_first_index(files, id, i) {
        choose|i: int| is_first_index(files, id, i)
    } else {
        0
    }
}

/// No two entries share an id.
pub open spec fn distinct_ids(files: Seq<MusicFile>) -> bool {
    forall|i: int, j: int| 0 <= i < files.len() && 0 <= j < files.len() && i != j ==> files[i].id@ != files[j].id@
}

/// Position of the entry after the current one, wrapping to the first.
pub open spec fn next_index(files: Seq<MusicFile>, id: Seq<char>) -> int {
    (current_index(files, id) + 1) % (files.len() as int)
}

/// Position of the entry before the current one, wrapping to the last.
pub open spec fn previous_index(files: Seq<MusicFile>, id: Seq<char>) -> int {
    if current_index(files, id) == 0 {
        files.len() - 1
    } else {
        current_index(files, id) - 1
    }
}

/// The track to play after `finished` reached its end by itself; `pick` is the
/// drawn position used in random mode. An empty playlist gives nothing, except
/// that repeating one track needs no playlist.
pub open spec fn next_after_finish(
    mode: SequenceMode,
    files: Seq<MusicFile>,
    finished: Seq<char>,
    pick: int,
) -> Option<Seq<char>> {
    match mode {
        SequenceMode::RepeatOne => Some(finished),
        SequenceMode::Random => if files.len() == 0 {
            None
        } else {
            Some(files[pick].id@)
        },
        SequenceMode::RepeatAll => if files.len() == 0 {
            None
        } else {
            Some(files[next_index(files, finished)].id@)
        },
    }
}

proof fn lemma_first_index_unique(files: Seq<MusicFile>, id: Seq<char>, i: int, k: int)
    requires
        is_first_index(files, id, i),
        is_first_index(files, id, k),
    ensures
        i == k,
{
    if i < k {
        assert(files[i].id@ != id);
    } else if k < i {
        assert(files[k].id@ != id);
    }
}

/// With distinct ids, the current index of the id at `i` is `i`.
pub proof fn lemma_current_index_of_distinct(files: Seq<MusicFile>, i: int)
    requires
        distinct_ids(files),
        0 <= i < files.len(),
    ensures
        current_index(files, files[i].id@) == i,
{
    let id = files[i].id@;
    assert(is_first_index(files, id, i));
    let k = choose|k: int| is_first_index(files, id, k);
    lemma_first_index_unique(files, id, i, k);
}

/// Under repeat-one, the next track is the one that just finished.
pub proof fn lemma_repeat_one_replays(files: Seq<MusicFile>, finished: Seq<char>, pick: int)
    ensures
        next_after_finish(SequenceMode::RepeatOne, files, finished, pick) == Some(finished),
{
}

/// Under repeat-all, after the track at position `i` of a playlist of length
/// `L` comes the track at position `(i + 1) mod L`.
pub proof fn lemma_repeat_all_advances(files: Seq<MusicFile>, i: int, pick: int)
    requires
        distinct_ids(files),
        0 <= i < files.len(),
    ensures
        next_after_finish(SequenceMode::RepeatAll, files, files[i].id@, pick) == Some(
            files[(i + 1) % (files.len() as int)].id@,
        ),
{
    lemma_current_index_of_distinct(files, i);
}

/// Under random mode, the next track is an entry of the playlist.
pub proof fn lemma_random_stays_in_playlist(files: Seq<MusicFile>, finished: Seq<char>, pick: int)
    requires
        0 <= pick < files.len(),
    ensures
        next_after_finish(SequenceMode::Random, files, finished, pick) matches Some(n) && contains_id(files, n),
{
    assert(files[pick].id@ == files[pick].id@);
}

/// First position of `id` in `files`, if any.
pub fn position(files: &Vec<MusicFile>, id: &String) -> (r: Option<usize>)
    ensures
        r matches Some(i) ==> is_first_index(files@, id@, i as int),
        r is None ==> !contains_id(files@, id@),
{
    let mut i: usize = 0;
    while i < files.len()
        invariant
            i <= files@.len(),
            forall|j: int| 0 <= j < i ==> files@[j].id@ != id@,
        decreases files.len() - i,
    {
        if files[i].id == *id {
            return Some(i);
        }
        i = i + 1;
    }
    None
}

/// First position of an entry whose display name is `name`, if any.
pub fn position_by_name(files: &Vec<MusicFile>, name: &String) -> (r: Option<usize>)
    ensures
        r matches Some(i) ==> i < files@.len() && files@[i as int].name@ == name@
            && forall|j: int| 0 <= j < i ==> files@[j].name@ != name@,
        r is None ==> forall|j: int| 0 <= j < files@.len() ==> files@[j].name@ != name@,
{
    let mut i: usize = 0;
    while i < files.len()
        invariant
            i <= files@.len(),
            forall|j: int| 0 <= j < i ==> files@[j].name@ != name@,
        decreases files.len() - i,
    {
        if files[i].name == *name {
            return Some(i);
        }
        i = i + 1;
    }
    None
}

/// The current position, as `current_index` gives it.
pub fn current_position(files: &Vec<MusicFile>, id: &String) -> (r: usize)
    ensures
        r as int == current_index(files@, id@),
        files@.len() > 0 ==> r < files@.len(),
{
    match position(files, id) {
        Some(i) => {
            proof {
                let k = choose|k: int| is_first_index(files@, id@, k);
                lemma_first_index_unique(files@, id@, i as int, k);
            }
            i
        },
        None => {
            assert(!exists|k: int| is_first_index(files@, id@, k));
            0
        },
    }
}

/// The entry after `id`'s, wrapping round.
pub fn next_position(files: &Vec<MusicFile>, id: &String) -> (r: usize)
    requires
        files@.len() > 0,
    ensures
        r as int == next_index(files@, id@),
        r < files@.len(),
{
    let i = current_position(files, id);
    let n = files.len();
    (i + 1) % n
}

/// The entry before `id`'s, wrapping round.
pub fn previous_position(files: &Vec<MusicFile>, id: &String) -> (r: usize)
    requires
        files@.len() > 0,
    ensures
        r as int == previous_index(files@, id@),
        r < files@.len(),
{
    let i = current_position(files, id);
    if i == 0 {
        files.len() - 1
    } else {
        i - 1
    }
}

/// The track after `finished` according to `mode`; `pick` is the drawn position for random mode.
pub fn next_track_id(mode: SequenceMode, files: &Vec<MusicFile>, finished: &String, pick: usize) -> (r: Option<String>)
    requires
        mode == SequenceMode::Random && files@.len() > 0 ==> pick < files@.len(),
    ensures
        r matches Some(s) ==> next_after_finish(mode, files@, finished@, pick as int) == Some(s@),
        r is None ==> next_after_finish(mode, files@, finished@, pick as int) is None,
{
    match mode {
        SequenceMode::RepeatOne => Some(finished.clone()),
        SequenceMode::Random => {
            if files.len() == 0 {
                None
            } else {
                Some(files[pick].id.clone())
            }
        },
        SequenceMode::RepeatAll => {
            if files.len() == 0 {
                None
            } else {
                let k = next_position(files, finished);
                Some(files[k].id.clone())
            }
        },
    }
}

/// Extensions, in lower case, of the files the player lists.
pub open spec fn supported_extension(e: Seq<char>) -> bool {
    e == "mp3"@ || e == "flac"@ || e == "wav"@ || e == "ogg"@ || e == "m4a"@ || e == "wma"@
        || e == "aac"@ || e == "riff"@ || e == "aiff"@ || e == "mp2"@ || e == "mp4"@ || e == "mkv"@
}

/// A path is listed when its file name is not hidden (does not start with a
/// dot) and its extension, lowercased, is a supported one.
pub open spec fn is_audio_path(p: Seq<char>) -> bool {
    &&& file_name_of(p) matches Some(n) && !(n.len() > 0 && n[0] == '.')
    &&& extension_of(p) matches Some(e) && supported_extension(lower_of(e))
}

/// `paths` with only the listed paths, in order.
pub open spec fn audio_paths(paths: Seq<String>) -> Seq<String> {
    paths.filter(|p: String| is_audio_path(p@))
}

fn is_supported_extension(e: &String) -> (r: bool)
    ensures
        r == supported_extension(e@),
{
    *e == String::from_str("mp3") || *e == String::from_str("flac") || *e == String::from_str("wav")
        || *e == String::from_str("ogg") || *e == String::from_str("m4a") || *e == String::from_str("wma")
        || *e == String::from_str("aac") || *e == String::from_str("riff") || *e == String::from_str("aiff")
        || *e == String::from_str("mp2") || *e == String::from_str("mp4") || *e == String::from_str("mkv")
}

fn is_audio_file(p: &String) -> (r: bool)
    ensures
        r == is_audio_path(p@),
{
    let hidden = match file_name(p.as_str()) {
        Some(n) => {
            if n.as_str().unicode_len() > 0 {
                n.as_str().get_char(0) == '.'
            } else {
                false
            }
        },
        None => return false,
    };
    if hidden {
        return false;
    }
    match extension(p.as_str()) {
        Some(e) => {
            let lower = lowercase(e.as_str());
            is_supported_extension(&lower)
        },
        None => false,
    }
}

/// The paths of audio files among `paths`: hidden files and unsupported
/// extensions are left out, the order is kept.
pub fn filter_audio_files(paths: &Vec<String>) -> (r: Vec<String>)
    ensures
        r@ == audio_paths(paths@),
{
    let ghost pred = |p: String| is_audio_path(p@);
    let mut r: Vec<String> = Vec::new();
    let mut i: usize = 0;
    while i < paths.len()
        invariant
            i <= paths@.len(),
            pred == (|p: String| is_audio_path(p@)),
            r@ == paths@.take(i as int).filter(pred),
        decreases paths.len() - i,
    {
        proof {
            reveal(Seq::filter);
            assert(paths@.take(i as int + 1).drop_last() =~= paths@.take(i as int));
            assert(paths@.take(i as int + 1).last() == paths@[i as int]);
        }
        if is_audio_file(&paths[i]) {
            r.push(paths[i].clone());
        }
        i = i + 1;
    }
    assert(paths@.take(i as int) =~= paths@);
    r
}

/// Display name of a track: its file name without the extension.
pub open spec fn name_of_path(p: Seq<char>) -> Seq<char> {
    match file_stem_of(p) {
        Some(s) => s,
        None => Seq::empty(),
    }
}

/// The display name of the file at `path`; empty when the path has no file name.
pub fn extract_name_with_path(path: String) -> (r: String)
    ensures
        r@ == name_of_path(path@),
{
    match file_stem(path.as_str()) {
        Some(s) => s,
        None => String::new(),
    }
}

/// `f` is a fresh entry for the file at `path`: named after the file, with
/// a new id and nothing looked up yet.
pub open spec fn fresh_entry(f: MusicFile, path: Seq<char>) -> bool {
    &&& f.path@ == path
    &&& f.name@ == name_of_path(path)
    &&& f.id@.len() == 36
    &&& f.image_path is None
    &&& f.artist is None
    &&& f.album is None
}

/// New playlist entries for `files`, in order, each with a new id.
pub fn new_entries(files: Vec<String>) -> (r: Vec<MusicFile>)
    ensures
        r@.len() == files@.len(),
        forall|i: int| 0 <= i < files@.len() ==> fresh_entry(#[trigger] r@[i], files@[i]@),
{
    let mut r: Vec<MusicFile> = Vec::new();
    let mut i: usize = 0;
    while i < files.len()
        invariant
            i <= files@.len(),
            r@.len() == i,
            forall|j: int| 0 <= j < i ==> fresh_entry(#[trigger] r@[j], files@[j]@),
        decreases files.len() - i,
    {
        let path = files[i].clone();
        let name = extract_name_with_path(path.clone());
        r.push(MusicFile::new(new_uuid(), name, path, None, None, None));
        i = i + 1;
    }
    r
}

/// `playlist` followed by `added`.
pub fn merge_playlist(playlist: Vec<MusicFile>, added: Vec<MusicFile>) -> (r: Vec<MusicFile>)
    ensures
        r@ == playlist@ + added@,
{
    let mut r = playlist;
    let ghost start = r@;
    let mut i: usize = 0;
    while i < added.len()
        invariant
            i <= added@.len(),
            r@ == start + added@.take(i as int),
        decreases added.len() - i,
    {
        r.push(added[i].clone());
        i = i + 1;
        assert(r@ =~= start + added@.take(i as int));
    }
    assert(added@.take(i as int) =~= added@);
    r
}

/// `files` without the entries whose id is `id`.
pub open spec fn without_id(files: Seq<MusicFile>, id: Seq<char>) -> Seq<MusicFile> {
    files.filter(|f: MusicFile| f.id@ != id)
}

/// Removes every entry with the id `id`, keeping the order of the others.
pub fn remove_id(files: &Vec<MusicFile>, id: &String) -> (r: Vec<MusicFile>)
    ensures
        r@ == without_id(files@, id@),
{
    let ghost pred = |f: MusicFile| f.id@ != id@;
    let mut r: Vec<MusicFile> = Vec::new();
    let mut i: usize = 0;
    while i < files.len()
        invariant
            i <= files@.len(),
            pred == (|f: MusicFile| f.id@ != id@),
            r@ == files@.take(i as int).filter(pred),
        decreases files.len() - i,
    {
        proof {
            reveal(Seq::filter);
            assert(files@.take(i as int + 1).drop_last() =~= files@.take(i as int));
            assert(files@.take(i as int + 1).last() == files@[i as int]);
        }
        if files[i].id != *id {
            r.push(files[i].clone());
        }
        i = i + 1;
    }
    assert(files@.take(i as int) =~= files@);
    r
}

} // verus!
