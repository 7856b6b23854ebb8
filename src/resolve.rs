//! Turning what a user typed into a search for the audio backend. A share link of the
//! foreign music platform is first looked up there, and its title and primary artist
//! become the search text; a URL is handed over as it is; anything else is searched.
use vstd::prelude::*;
use vstd::string::*;
use crate::error::MusicError;
use crate::text::{append, chars_of};
use crate::track::Track;

verus! {

/// Whether `pat` occurs in `s` at index `i`.
pub open spec fn occurs_at(s: Seq<char>, pat: Seq<char>, i: int) -> bool {
    0 <= i && i + pat.len() <= s.len() && s.subrange(i, i + pat.len()) == pat
}

/// Whether `pat` occurs anywhere in `s`.
pub open spec fn has_infix(s: Seq<char>, pat: Seq<char>) -> bool {
    exists|i: int| occurs_at(s, pat, i)
}

/// Where the text after the last `/` of `s` starts (0 without any `/`).
pub open spec fn segment_start(s: Seq<char>) -> int
    decreases s.len(),
{
    if s.len() == 0 {
        0
    } else if s.last() == '/' {
        s.len() as int
    } else {
        segment_start(s.drop_last())
    }
}

/// The text after the last `/` of `s`.
pub open spec fn last_segment(s: Seq<char>) -> Seq<char> {
    s.subrange(segment_start(s), s.len() as int)
}

/// What a share link of the foreign music platform contains.
pub open spec fn share_link_marker() -> Seq<char> {
    "https://open.spotify.com"@
}

/// What a raw query asks for.
#[derive(Debug)]
pub enum Query {
    /// Text to search for.
    Search(String),
    /// A URL that the audio backend loads directly.
    Direct(String),
    /// The identifier of a track on the foreign music platform.
    Spotify(String),
}

/// How a raw query is read.
pub open spec fn classified(raw: Seq<char>, q: Query) -> bool {
    if has_infix(raw, share_link_marker()) {
        q matches Query::Spotify(id) && id@ == last_segment(raw)
    } else if occurs_at(raw, "https://"@, 0) || occurs_at(raw, "http://"@, 0) {
        q matches Query::Direct(u) && u@ == raw
    } else {
        q matches Query::Search(t) && t@ == raw
    }
}

/// A track as the foreign music platform's lookup describes it.
pub struct SpotifyTrack {
    pub name: String,
    pub artists: Vec<String>,
}

/// Whether `pat` occurs in `s` at index `i`.
fn occurs_at_exec(s: &Vec<char>, pat: &Vec<char>, i: usize) -> (r: bool)
    ensures
        r == occurs_at(s@, pat@, i as int),
{
    if i > s.len() || pat.len() > s.len() - i {
        return false;
    }
    let n = s.len();
    let mut j: usize = 0;
    while j < pat.len()
        invariant
            n == s@.len(),
            i + pat@.len() <= s@.len(),
            j <= pat@.len(),
            s@.subrange(i as int, i + j) == pat@.subrange(0, j as int),
        decreases pat@.len() - j,
    {
        if s[i + j] != pat[j] {
            assert(s@.subrange(i as int, i + pat@.len())[j as int] != pat@[j as int]);
            return false;
        }
        j += 1;
        assert(s@.subrange(i as int, i + j) =~= pat@.subrange(0, j as int));
    }
    assert(pat@.subrange(0, j as int) =~= pat@);
    true
}

/// Whether `pat` occurs anywhere in `s`.
fn has_infix_exec(s: &Vec<char>, pat: &Vec<char>) -> (r: bool)
    ensures
        r == has_infix(s@, pat@),
{
    if pat.len() > s.len() {
        return false;
    }
    let last = s.len() - pat.len();
    let mut i: usize = 0;
    loop
        invariant
            last == s@.len() - pat@.len(),
            i <= last,
            forall|k: int| 0 <= k < i ==> !occurs_at(s@, pat@, k),
        decreases last - i,
    {
        if occurs_at_exec(s, pat, i) {
            return true;
        }
        if i == last {
            assert forall|k: int| !occurs_at(s@, pat@, k) by {
                if 0 <= k < i {
                } else if k == i {
                } else {
                }
            }
            return false;
        }
        i += 1;
    }
}

/// Where the text after the last `/` of `s` starts.
fn segment_start_exec(s: &Vec<char>) -> (r: usize)
    ensures
        r as int == segment_start(s@),
        r <= s@.len(),
{
    let mut i = s.len();
    assert(s@.subrange(0, i as int) =~= s@);
    while i > 0 && s[i - 1] != '/'
        invariant
            i <= s@.len(),
            segment_start(s@) == segment_start(s@.subrange(0, i as int)),
        decreases i,
    {
        assert(s@.subrange(0, i as int).drop_last() =~= s@.subrange(0, i - 1));
        i -= 1;
    }
    proof {
        if i == 0 {
            assert(s@.subrange(0, 0) =~= Seq::<char>::empty());
        }
    }
    i
}

/// Reads a raw query: a share link of the foreign platform gives its last path segment
/// as the track identifier; a URL is loaded directly; anything else is searched.
pub fn classify(raw: &str) -> (r: Query)
    ensures
        classified(raw@, r),
{
    let chars = chars_of(raw);
    let marker = chars_of("https://open.spotify.com");
    let https = chars_of("https://");
    let http = chars_of("http://");
    proof {
        reveal_strlit("https://open.spotify.com");
        reveal_strlit("https://");
        reveal_strlit("http://");
    }
    if has_infix_exec(&chars, &marker) {
        let start = segment_start_exec(&chars);
        let n = raw.unicode_len();
        let id = raw.substring_char(start, n).to_owned();
        Query::Spotify(id)
    } else if occurs_at_exec(&chars, &https, 0) || occurs_at_exec(&chars, &http, 0) {
        Query::Direct(raw.to_owned())
    } else {
        Query::Search(raw.to_owned())
    }
}

/// The search text for a looked-up track: its title, a space, and its primary artist.
/// A failed lookup, or one without an artist, means the track was not found.
pub fn spotify_query(found: Option<SpotifyTrack>) -> (r: Result<String, MusicError>)
    ensures
        found.is_none() ==> r == Err::<String, MusicError>(MusicError::TrackNotFound),
        found.is_some() && found.unwrap().artists@.len() == 0 ==> r == Err::<String, MusicError>(
            MusicError::TrackNotFound,
        ),
        found.is_some() && found.unwrap().artists@.len() > 0 ==> (r matches Ok(q) && q@
            == found.unwrap().name@ + seq![' '] + found.unwrap().artists@[0]@),
{
    match found {
        None => Err(MusicError::TrackNotFound),
        Some(t) => {
            if t.artists.len() == 0 {
                Err(MusicError::TrackNotFound)
            } else {
                let mut q = t.name.clone();
                append(&mut q, " ");
                proof {
                    reveal_strlit(" ");
                }
                append(&mut q, t.artists[0].as_str());
                Ok(q)
            }
        },
    }
}

/// The track to queue out of the audio backend's candidates: the first one.
pub fn first_result(candidates: Vec<Track>) -> (r: Result<Track, MusicError>)
    ensures
        candidates@.len() == 0 ==> r == Err::<Track, MusicError>(MusicError::NoResults),
        candidates@.len() > 0 ==> r == Ok::<Track, MusicError>(candidates@[0]),
{
    if candidates.len() == 0 {
        Err(MusicError::NoResults)
    } else {
        let mut c = candidates;
        Ok(c.swap_remove(0))
    }
}

} // verus!
