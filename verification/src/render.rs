//! Rendering of one poll result as a Polybar-formatted line.

use vstd::prelude::*;
use vstd::string::StrSliceExecFns;
use vstd::string::StringExecFns;

verus! {

/// The line shown while a track plays: a note glyph and a space, the artist,
/// a dash separator, and the title.
pub open spec fn track_line(artist: Seq<char>, title: Seq<char>) -> Seq<char> {
    "\u{f001} "@ + artist + " - "@ + title
}

/// The same line while playback is paused, wrapped in a Polybar
/// foreground-colour directive pair.
pub open spec fn paused_line(artist: Seq<char>, title: Seq<char>) -> Seq<char> {
    "%{F#8A8B9B}"@ + track_line(artist, title) + "%{F-}"@
}

/// What `format_output` returns for each playback status: the plain track
/// line while playing, the coloured one while paused, and the empty string
/// for every other status.
pub open spec fn format_spec(status: Seq<char>, artist: Seq<char>, title: Seq<char>) -> Seq<char> {
    if status == "Playing"@ {
        track_line(artist, title)
    } else if status == "Paused"@ {
        paused_line(artist, title)
    } else {
        Seq::<char>::empty()
    }
}

/// Character-by-character equality of two string slices.
pub fn str_eq(a: &str, b: &str) -> (r: bool)
    ensures
        r == (a@ == b@),
{
    let a_len = a.unicode_len();
    let b_len = b.unicode_len();
    if a_len != b_len {
        return false;
    }
    let mut i: usize = 0;
    while i < a_len
        invariant
            a_len == a@.len(),
            a_len == b@.len(),
            i <= a_len,
            forall|k: int| 0 <= k < i ==> a@[k] == b@[k],
        decreases a_len - i,
    {
        if a.get_char(i) != b.get_char(i) {
            return false;
        }
        i = i + 1;
    }
    proof {
        assert(a@ =~= b@);
    }
    true
}

/// Renders the track line common to the playing and paused cases.
fn render_track_line(artist: &str, title: &str) -> (r: String)
    ensures
        r@ == track_line(artist@, title@),
{
    let mut out = String::from_str("\u{f001} ");
    out.append(artist);
    out.append(" - ");
    out.append(title);
    proof {
        assert(out@ =~= track_line(artist@, title@));
    }
    out
}

/// Renders the status line for one poll of the player. The status is matched
/// exactly: `"Playing"` gives the plain track line, `"Paused"` the coloured
/// one, and any other status — stopped, absent, or unrecognized — gives the
/// empty string.
pub fn format_output(status: &str, artist: &str, title: &str) -> (r: String)
    ensures
        r@ == format_spec(status@, artist@, title@),
{
    if str_eq(status, "Playing") {
        render_track_line(artist, title)
    } else if str_eq(status, "Paused") {
        let mut out = String::from_str("%{F#8A8B9B}");
        let line = render_track_line(artist, title);
        out.append(line.as_str());
        out.append("%{F-}");
        proof {
            assert(out@ =~= paused_line(artist@, title@));
        }
        out
    } else {
        String::new()
    }
}

/// Law: while playing, the rendered line is the glyph and a space, the
/// artist, `" - "`, and the title.
pub proof fn lemma_playing_format(artist: Seq<char>, title: Seq<char>)
    ensures
        format_spec("Playing"@, artist, title) == "\u{f001} "@ + artist + " - "@ + title,
{
}

/// Law: while paused, the rendered line is the playing line wrapped in
/// `%{F#8A8B9B}` and `%{F-}`.
pub proof fn lemma_paused_format(artist: Seq<char>, title: Seq<char>)
    ensures
        format_spec("Paused"@, artist, title) == "%{F#8A8B9B}"@ + ("\u{f001} "@ + artist + " - "@
            + title) + "%{F-}"@,
{
    broadcast use vstd::string::group_string_axioms;

    reveal_strlit("Playing");
    reveal_strlit("Paused");
    assert("Paused"@.len() != "Playing"@.len());
}

/// Law: any status other than `"Playing"` and `"Paused"` renders as the
/// empty string.
pub proof fn lemma_other_status_empty(status: Seq<char>, artist: Seq<char>, title: Seq<char>)
    requires
        status != "Playing"@,
        status != "Paused"@,
    ensures
        format_spec(status, artist, title) == Seq::<char>::empty(),
{
}

/// Law: rendering is a pure function of status, artist and title; two calls
/// on identical inputs yield identical output.
pub proof fn lemma_format_deterministic(
    status1: Seq<char>,
    artist1: Seq<char>,
    title1: Seq<char>,
    status2: Seq<char>,
    artist2: Seq<char>,
    title2: Seq<char>,
)
    requires
        status1 == status2,
        artist1 == artist2,
        title1 == title2,
    ensures
        format_spec(status1, artist1, title1) == format_spec(status2, artist2, title2),
{
}

} // verus!
