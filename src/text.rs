//! Calls into std and outside crates that compute on text and bytes.

use vstd::prelude::*;

use base64::Engine;
use rand::Rng;

verus! {

/// What `str::to_lowercase` makes of `s`.
pub uninterp spec fn lower_of(s: Seq<char>) -> Seq<char>;

/// What base64's standard engine (with padding) makes of `b`.
pub uninterp spec fn base64_of(b: Seq<u8>) -> Seq<char>;

/// The last component of the path `p`, as `Path::file_name` gives it.
pub uninterp spec fn file_name_of(p: Seq<char>) -> Option<Seq<char>>;

/// The extension of the path `p`, as `Path::extension` gives it.
pub uninterp spec fn extension_of(p: Seq<char>) -> Option<Seq<char>>;

/// The file name of `p` without its extension, as `Path::file_stem` gives it.
pub uninterp spec fn file_stem_of(p: Seq<char>) -> Option<Seq<char>>;

/// Relies on `str::to_lowercase`: the result depends on the characters alone,
/// and the empty string stays empty.
#[verifier::external_body]
pub(crate) fn lowercase(s: &str) -> (r: String)
    ensures
        r@ == lower_of(s@),
        s@.len() == 0 ==> r@.len() == 0,
{
    s.to_lowercase()
}

/// Relies on base64's `STANDARD` engine `encode`: padded output, four
/// characters for every started group of three bytes. It panics where that
/// length overflows a `usize`.
#[verifier::external_body]
pub(crate) fn base64_encode(b: &Vec<u8>) -> (r: String)
    requires
        4 * ((b@.len() + 2) / 3) <= usize::MAX,
    ensures
        r@ == base64_of(b@),
        r@.len() == 4 * ((b@.len() + 2) / 3),
{
    base64::engine::general_purpose::STANDARD.encode(b)
}

/// Relies on `Path::file_name`: the last normal component of the path.
#[verifier::external_body]
pub(crate) fn file_name(p: &str) -> (r: Option<String>)
    ensures
        r matches Some(s) ==> file_name_of(p@) == Some(s@),
        r is None ==> file_name_of(p@) is None,
{
    match std::path::Path::new(p).file_name() {
        Some(n) => match n.to_str() {
            Some(t) => Some(t.to_string()),
            None => None,
        },
        None => None,
    }
}

/// Relies on `Path::extension`: what follows the last dot of the file name.
#[verifier::external_body]
pub(crate) fn extension(p: &str) -> (r: Option<String>)
    ensures
        r matches Some(s) ==> extension_of(p@) == Some(s@),
        r is None ==> extension_of(p@) is None,
{
    match std::path::Path::new(p).extension() {
        Some(n) => match n.to_str() {
            Some(t) => Some(t.to_string()),
            None => None,
        },
        None => None,
    }
}

/// Relies on `Path::file_stem`: the file name without its extension.
#[verifier::external_body]
pub(crate) fn file_stem(p: &str) -> (r: Option<String>)
    ensures
        r matches Some(s) ==> file_stem_of(p@) == Some(s@),
        r is None ==> file_stem_of(p@) is None,
{
    match std::path::Path::new(p).file_stem() {
        Some(n) => match n.to_str() {
            Some(t) => Some(t.to_string()),
            None => None,
        },
        None => None,
    }
}

/// Relies on uuid's `Uuid::new_v4` and its hyphenated text form, which is
/// 36 characters long.
#[verifier::external_body]
pub(crate) fn new_uuid() -> (r: String)
    ensures
        r@.len() == 36,
{
    uuid::Uuid::new_v4().to_string()
}

/// Relies on rand's `thread_rng().gen_range(0..n)`: a position below `n`,
/// which must not be zero.
#[verifier::external_body]
pub(crate) fn random_below(n: usize) -> (r: usize)
    requires
        n > 0,
    ensures
        r < n,
{
    rand::thread_rng().gen_range(0..n)
}

} // verus!
