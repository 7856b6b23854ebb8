//! A guild's idle-disconnect timer. Each arming hands out a fresh generation; a delayed
//! fire acts only if it still holds the live generation, so cancelling and re-arming
//! need no handle to the sleeping task.
use vstd::prelude::*;

verus! {

/// Seconds from arming to firing.
pub const IDLE_DELAY_SECS: u64 = 300;

/// The generation that follows `g`.
pub open spec fn next_generation(g: u64) -> u64 {
    if g == u64::MAX {
        0
    } else {
        (g + 1) as u64
    }
}

/// A guild's idle timer: armed or not, and the generation of its latest arming.
#[derive(Clone, Copy, Debug, PartialEq, Eq, Structural)]
pub struct IdleTimer {
    pub generation: u64,
    pub armed: bool,
}

impl IdleTimer {
    /// The generation that holds the right to fire, if armed.
    pub open spec fn live(self) -> Option<u64> {
        if self.armed {
            Some(self.generation)
        } else {
            None
        }
    }

    /// After arming: any earlier arming loses its right to fire.
    pub open spec fn rearmed(self) -> IdleTimer {
        IdleTimer { generation: next_generation(self.generation), armed: true }
    }

    /// After cancelling.
    pub open spec fn cancelled(self) -> IdleTimer {
        IdleTimer { generation: self.generation, armed: false }
    }

    /// Whether a delayed task that was handed `token` may act now.
    pub open spec fn fires(self, token: u64) -> bool {
        self.armed && self.generation == token
    }

    /// After such a task has woken.
    pub open spec fn after_fire(self, token: u64) -> IdleTimer {
        if self.fires(token) {
            self.cancelled()
        } else {
            self
        }
    }

    /// A timer that was never armed.
    pub fn new() -> (r: IdleTimer)
        ensures
            r.live().is_none(),
    {
        IdleTimer { generation: 0, armed: false }
    }

    /// Arms the timer, replacing any earlier arming; returns the token that the delayed
    /// task must present when it wakes.
    pub fn arm(&mut self) -> (r: u64)
        ensures
            *final(self) == old(self).rearmed(),
            final(self).live() == Some(r),
    {
        self.generation = if self.generation == u64::MAX {
            0
        } else {
            self.generation + 1
        };
        self.armed = true;
        self.generation
    }

    /// Cancels the timer; a no-op where it is not armed.
    pub fn cancel(&mut self)
        ensures
            *final(self) == old(self).cancelled(),
    {
        self.armed = false;
    }

    /// Called by the delayed task that was handed `token` when it wakes: whether it may
    /// go on to disconnect. At most one task gets `true` per arming.
    pub fn fire(&mut self, token: u64) -> (r: bool)
        ensures
            r == old(self).fires(token),
            *final(self) == old(self).after_fire(token),
    {
        if self.armed && self.generation == token {
            self.armed = false;
            true
        } else {
            false
        }
    }
}

/// Arming an armed timer leaves exactly one live timer: the new arming fires, and no
/// other token, the replaced one included, does.
pub proof fn lemma_rearm_replaces(t: IdleTimer, replaced: u64)
    requires
        t.live() == Some(replaced),
    ensures
        t.rearmed().live() == Some(t.rearmed().generation),
        !t.rearmed().fires(replaced),
        forall|token: u64| #[trigger] t.rearmed().fires(token) <==> token == t.rearmed().generation,
{
}

/// Cancelling before a task fires keeps it from acting; cancelling after it acted changes
/// nothing. So of one armed task's fire and a cancel, exactly one takes effect.
pub proof fn lemma_cancel_fire_exclusive(t: IdleTimer, token: u64)
    ensures
        !t.cancelled().fires(token),
        t.cancelled().after_fire(token) == t.cancelled(),
        t.fires(token) ==> t.after_fire(token).cancelled() == t.after_fire(token),
        t.fires(token) ==> t.after_fire(token).live().is_none(),
{
}

} // verus!
