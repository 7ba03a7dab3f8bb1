//! The decision logic of one poll of the player.
//!
//! A poll has two stages. The first looks at the playback status alone: a
//! stopped player short-circuits to the empty line and the track metadata is
//! never requested. The second reduces the two metadata entries the program
//! reads — artist and title — to the rendered line, or to the error that
//! aborts the poll. The bus calls that produce the status string and the
//! metadata entries happen outside the library; both stages here are pure.

use vstd::prelude::*;
use vstd::string::StrSliceExecFns;

use crate::render::format_output;
use crate::render::format_spec;

verus! {

/// A metadata value as the player reports it: the entries are dynamically
/// typed, and the two keys the program reads hold a single string (the
/// title) and a list of strings (the artists).
#[derive(Debug, PartialEq, Eq)]
pub enum MetaValue {
    Str(String),
    StrList(Vec<String>),
}

/// Why a poll of the metadata aborts. Every variant is fatal to the poll:
/// the caller is expected to treat it as an unrecoverable failure.
#[derive(Debug, PartialEq, Eq)]
pub enum FetchError {
    /// No `xesam:artist` entry was present.
    MissingArtist,
    /// The `xesam:artist` entry was not a list of strings.
    ArtistNotStringList,
    /// The `xesam:artist` entry was an empty list.
    EmptyArtistList,
    /// No `xesam:title` entry was present.
    MissingTitle,
    /// The `xesam:title` entry was not a single string.
    TitleNotString,
}

/// What the first stage of a poll decides: either the line is already
/// settled, or the metadata must be fetched before rendering.
#[derive(Debug, PartialEq, Eq)]
pub enum FetchStep {
    Done(String),
    NeedMetadata,
}

/// Whether `pat` matches `s` at position `i`.
pub open spec fn spec_match_at(s: Seq<char>, pat: Seq<char>, i: int) -> bool {
    0 <= i && i + pat.len() <= s.len() && s.subrange(i, i + pat.len() as int) == pat
}

/// Whether `pat` occurs in `s` as a contiguous substring.
pub open spec fn spec_contains(s: Seq<char>, pat: Seq<char>) -> bool {
    exists|i: int| #[trigger] spec_match_at(s, pat, i)
}

/// Whether the status string contains `"Stopped"`.
pub open spec fn contains_stopped(s: Seq<char>) -> bool {
    spec_contains(s, "Stopped"@)
}

/// Whether `pat` matches `s` at position `i`.
fn matches_at(s: &str, i: usize, pat: &str) -> (r: bool)
    requires
        i + pat@.len() <= s@.len() <= usize::MAX,
    ensures
        r == spec_match_at(s@, pat@, i as int),
{
    let p_len = pat.unicode_len();
    let mut j: usize = 0;
    while j < p_len
        invariant
            i + p_len <= s@.len() <= usize::MAX,
            p_len == pat@.len(),
            j <= p_len,
            forall|m: int| 0 <= m < j ==> s@[i + m] == pat@[m],
        decreases p_len - j,
    {
        if s.get_char(i + j) != pat.get_char(j) {
            proof {
                assert(s@.subrange(i as int, i + pat@.len())[j as int] == s@[i + j]);
            }
            return false;
        }
        j = j + 1;
    }
    proof {
        assert(s@.subrange(i as int, i + pat@.len()) =~= pat@);
    }
    true
}

/// Substring search: whether `pat` occurs anywhere in `s`.
pub fn str_contains(s: &str, pat: &str) -> (r: bool)
    ensures
        r == spec_contains(s@, pat@),
{
    let s_len = s.unicode_len();
    let p_len = pat.unicode_len();
    if p_len > s_len {
        return false;
    }
    if p_len == 0 {
        proof {
            assert(s@.subrange(0, pat@.len() as int) =~= pat@);
            assert(spec_match_at(s@, pat@, 0));
        }
        return true;
    }
    let mut i: usize = 0;
    while i <= s_len - p_len
        invariant
            s_len == s@.len(),
            p_len == pat@.len(),
            0 < p_len <= s_len,
            i <= s_len - p_len + 1,
            forall|k: int| 0 <= k < i ==> !#[trigger] spec_match_at(s@, pat@, k),
        decreases s_len - i,
    {
        if matches_at(s, i, pat) {
            return true;
        }
        i = i + 1;
    }
    false
}

/// First stage of a poll: a status that contains `"Stopped"` settles the
/// line as empty without any metadata access; any other status needs the
/// metadata before rendering.
pub fn status_step(status: &str) -> (r: FetchStep)
    ensures
        contains_stopped(status@) ==> (r matches FetchStep::Done(line) && line@ == Seq::<
            char,
        >::empty()),
        !contains_stopped(status@) ==> r is NeedMetadata,
{
    if str_contains(status, "Stopped") {
        FetchStep::Done(String::new())
    } else {
        FetchStep::NeedMetadata
    }
}

/// What reducing the two metadata entries yields: the first artist and the
/// title, or the error that aborts the poll. The artist entry is examined
/// first, the title entry second, and the emptiness of the artist list
/// last, in the order the original lookups are made.
pub open spec fn extract_spec(artist: Option<MetaValue>, title: Option<MetaValue>) -> Result<
    (Seq<char>, Seq<char>),
    FetchError,
> {
    match artist {
        Option::None => Result::Err(FetchError::MissingArtist),
        Option::Some(MetaValue::Str(_)) => Result::Err(FetchError::ArtistNotStringList),
        Option::Some(MetaValue::StrList(names)) => match title {
            Option::None => Result::Err(FetchError::MissingTitle),
            Option::Some(MetaValue::StrList(_)) => Result::Err(FetchError::TitleNotString),
            Option::Some(MetaValue::Str(t)) => if names@.len() == 0 {
                Result::Err(FetchError::EmptyArtistList)
            } else {
                Result::Ok((names@[0]@, t@))
            },
        },
    }
}

/// Reduces the two metadata entries to the first artist and the title.
/// Succeeds exactly when the artist entry is a non-empty list of strings
/// and the title entry is a single string.
pub fn extract_track(artist: &Option<MetaValue>, title: &Option<MetaValue>) -> (r: Result<
    (String, String),
    FetchError,
>)
    ensures
        match extract_spec(*artist, *title) {
            Result::Ok(p) => r matches Result::Ok(q) && q.0@ == p.0 && q.1@ == p.1,
            Result::Err(e) => r matches Result::Err(e2) && e2 == e,
        },
{
    match artist {
        Option::None => Result::Err(FetchError::MissingArtist),
        Option::Some(MetaValue::Str(_)) => Result::Err(FetchError::ArtistNotStringList),
        Option::Some(MetaValue::StrList(names)) => match title {
            Option::None => Result::Err(FetchError::MissingTitle),
            Option::Some(MetaValue::StrList(_)) => Result::Err(FetchError::TitleNotString),
            Option::Some(MetaValue::Str(t)) => {
                if names.len() == 0 {
                    Result::Err(FetchError::EmptyArtistList)
                } else {
                    Result::Ok((names[0].clone(), t.clone()))
                }
            },
        },
    }
}

/// Second stage of a poll: reduces the metadata entries and renders the
/// line for the given status. Fails exactly when `extract_track` does, with
/// the same error.
pub fn metadata_step(status: &str, artist: &Option<MetaValue>, title: &Option<MetaValue>) -> (r:
    Result<String, FetchError>)
    ensures
        match extract_spec(*artist, *title) {
            Result::Ok(p) => r matches Result::Ok(line) && line@ == format_spec(
                status@,
                p.0,
                p.1,
            ),
            Result::Err(e) => r matches Result::Err(e2) && e2 == e,
        },
{
    match extract_track(artist, title) {
        Result::Ok(pair) => Result::Ok(format_output(status, pair.0.as_str(), pair.1.as_str())),
        Result::Err(e) => Result::Err(e),
    }
}

} // verus!
