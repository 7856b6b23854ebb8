//! The text of the queue view: the track playing now, then the upcoming tracks
//! numbered from 1 in play order.
use vstd::prelude::*;
use crate::player::GuildPlayer;
use crate::text::{append, append_decimal, decimal};
use crate::track::{hms_text, Track, DAY_MS};

verus! {

/// A track as a link with its length: ``[title](uri) | `hh:mm:ss` ``.
pub open spec fn track_link(t: Track) -> Seq<char> {
    "["@ + t.title@ + "]("@ + t.uri@ + ") | `"@ + hms_text((t.length_ms % DAY_MS) as nat) + "`"@
}

/// One line of the upcoming list.
pub open spec fn listing_entry(position: nat, t: Track) -> Seq<char> {
    decimal(position) + ". "@ + track_link(t) + " \n\n"@
}

/// The upcoming list, numbered from 1.
pub open spec fn listing(ts: Seq<Track>) -> Seq<char>
    decreases ts.len(),
{
    if ts.len() == 0 {
        seq![]
    } else {
        listing(ts.drop_last()) + listing_entry(ts.len(), ts.last())
    }
}

/// The two parts of a queue view that is not empty.
pub struct QueueText {
    /// The line of the track playing now, if any.
    pub now_playing: Option<String>,
    /// The upcoming list, if anything waits.
    pub next_songs: Option<String>,
}

fn append_track_link(s: &mut String, t: &Track)
    ensures
        final(s)@ == old(s)@ + track_link(*t),
{
    append(s, "[");
    append(s, t.title.as_str());
    append(s, "](");
    append(s, t.uri.as_str());
    append(s, ") | `");
    let len = t.length_text();
    append(s, len.as_str());
    append(s, "`");
    assert(final(s)@ =~= old(s)@ + track_link(*t));
}

/// The line of a track playing now.
pub fn now_playing_line(t: &Track) -> (r: String)
    ensures
        r@ == track_link(*t),
{
    let mut s = String::new();
    append_track_link(&mut s, t);
    assert(s@ =~= track_link(*t));
    s
}

/// The upcoming list for `ts`, numbered from 1.
pub fn upcoming_listing(ts: &Vec<Track>) -> (r: String)
    ensures
        r@ == listing(ts@),
{
    let mut s = String::new();
    let mut i: usize = 0;
    assert(ts@.subrange(0, 0) =~= Seq::<Track>::empty());
    while i < ts.len()
        invariant
            i <= ts@.len(),
            s@ == listing(ts@.subrange(0, i as int)),
        decreases ts@.len() - i,
    {
        let position = i as u64 + 1;
        append_decimal(&mut s, position);
        append(&mut s, ". ");
        append_track_link(&mut s, &ts[i]);
        append(&mut s, " \n\n");
        proof {
            let prefix = ts@.subrange(0, i + 1);
            assert(prefix.drop_last() =~= ts@.subrange(0, i as int));
            assert(prefix.last() == ts@[i as int]);
        }
        i += 1;
        assert(s@ =~= listing(ts@.subrange(0, i as int)));
    }
    assert(ts@.subrange(0, i as int) =~= ts@);
    s
}

impl GuildPlayer {
    /// The queue view as text; `None` where nothing plays and nothing waits.
    pub fn queue_text(&self) -> (r: Option<QueueText>)
        ensures
            self@.queue.is_idle() ==> r.is_none(),
            !self@.queue.is_idle() ==> (r matches Some(q) && (match self@.queue.current {
                Some(t) => (q.now_playing matches Some(l) && l@ == track_link(t)),
                None => q.now_playing.is_none(),
            }) && (if self@.queue.upcoming.len() > 0 {
                (q.next_songs matches Some(n) && n@ == listing(self@.queue.upcoming))
            } else {
                q.next_songs.is_none()
            })),
    {
        let (current, upcoming) = self.queue_view();
        if current.is_none() && upcoming.len() == 0 {
            return None;
        }
        let now_playing = match &current {
            Some(t) => Some(now_playing_line(t)),
            None => None,
        };
        let next_songs = if upcoming.len() > 0 {
            Some(upcoming_listing(&upcoming))
        } else {
            None
        };
        Some(QueueText { now_playing, next_songs })
    }
}

} // verus!
