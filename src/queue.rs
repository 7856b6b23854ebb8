//! A guild's playback queue: the track playing now and those that follow.
use vstd::prelude::*;
use crate::error::MusicError;
use crate::track::Track;

verus! {

/// What a queue holds: the current track, apart from the upcoming ones in play order.
pub struct QueueModel {
    pub current: Option<Track>,
    pub upcoming: Seq<Track>,
}

impl QueueModel {
    /// Nothing plays and nothing waits.
    pub open spec fn is_idle(self) -> bool {
        self.current.is_none() && self.upcoming.len() == 0
    }

    /// A queue never holds upcoming tracks while nothing plays.
    pub open spec fn wf(self) -> bool {
        self.current.is_none() ==> self.upcoming.len() == 0
    }

    /// After adding `t`: it plays at once if nothing played, else it waits last.
    pub open spec fn enqueued(self, t: Track) -> QueueModel {
        if self.current.is_none() {
            QueueModel { current: Some(t), upcoming: self.upcoming }
        } else {
            QueueModel { current: self.current, upcoming: self.upcoming.push(t) }
        }
    }

    /// After the current track ends: the first upcoming track plays, or nothing.
    pub open spec fn advanced(self) -> QueueModel {
        if self.upcoming.len() > 0 {
            QueueModel { current: Some(self.upcoming[0]), upcoming: self.upcoming.drop_first() }
        } else {
            QueueModel { current: None, upcoming: self.upcoming }
        }
    }

    /// Whether `position` names an upcoming track; 1 is the next one.
    pub open spec fn valid_position(self, position: int) -> bool {
        1 <= position <= self.upcoming.len()
    }

    /// After taking out the upcoming track at `position`.
    pub open spec fn without(self, position: int) -> QueueModel {
        QueueModel { current: self.current, upcoming: self.upcoming.remove(position - 1) }
    }

    /// After dropping every upcoming track.
    pub open spec fn cleared(self) -> QueueModel {
        QueueModel { current: self.current, upcoming: Seq::empty() }
    }

    /// After dropping everything.
    pub open spec fn emptied(self) -> QueueModel {
        QueueModel { current: None, upcoming: Seq::empty() }
    }
}

/// A guild's playback queue.
pub struct PlaybackQueue {
    pub current: Option<Track>,
    pub upcoming: Vec<Track>,
}

impl View for PlaybackQueue {
    type V = QueueModel;

    open spec fn view(&self) -> QueueModel {
        QueueModel { current: self.current, upcoming: self.upcoming@ }
    }
}

impl PlaybackQueue {
    /// An empty queue.
    pub fn new() -> (r: PlaybackQueue)
        ensures
            r@.is_idle(),
    {
        PlaybackQueue { current: None, upcoming: Vec::new() }
    }

    /// Adds a track; returns it where it starts playing at once.
    pub fn enqueue(&mut self, t: Track) -> (r: Option<Track>)
        ensures
            final(self)@ == old(self)@.enqueued(t),
            r == (if old(self)@.current.is_none() { Some(t) } else { None }),
    {
        if self.current.is_none() {
            self.current = Some(t.clone());
            Some(t)
        } else {
            self.upcoming.push(t);
            None
        }
    }

    /// Ends the current track: the first upcoming one plays next and is returned, if any.
    pub fn advance(&mut self) -> (r: Option<Track>)
        ensures
            final(self)@ == old(self)@.advanced(),
            r == final(self)@.current,
    {
        if self.upcoming.len() > 0 {
            let next = self.upcoming.remove(0);
            self.current = Some(next.clone());
            Some(next)
        } else {
            self.current = None;
            None
        }
    }

    /// Takes out and returns the upcoming track at `position` (1 is the next one); the
    /// current track plays on.
    pub fn remove(&mut self, position: usize) -> (r: Result<Track, MusicError>)
        ensures
            old(self)@.valid_position(position as int) ==> r == Ok::<Track, MusicError>(
                old(self)@.upcoming[position - 1],
            ) && final(self)@ == old(self)@.without(position as int),
            !old(self)@.valid_position(position as int) ==> r == Err::<Track, MusicError>(
                MusicError::InvalidPosition,
            ) && final(self)@ == old(self)@,
    {
        if position == 0 || position > self.upcoming.len() {
            Err(MusicError::InvalidPosition)
        } else {
            Ok(self.upcoming.remove(position - 1))
        }
    }

    /// Drops every upcoming track; the current one plays on.
    pub fn clear(&mut self)
        ensures
            final(self)@ == old(self)@.cleared(),
    {
        self.upcoming.clear();
        assert(self.upcoming@ =~= Seq::<Track>::empty());
    }

    /// Drops the current track and every upcoming one.
    pub fn empty(&mut self)
        ensures
            final(self)@ == old(self)@.emptied(),
    {
        self.current = None;
        self.upcoming.clear();
        assert(self.upcoming@ =~= Seq::<Track>::empty());
    }
}

} // verus!
