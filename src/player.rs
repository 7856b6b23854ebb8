//! A guild's music player: its voice session, playback queue and idle timer, changed
//! together. Every request is a transition from the old state to the new one plus the
//! effects that the caller must carry out on the audio node, the voice transport and
//! the clock, in order.
use vstd::prelude::*;
use crate::error::MusicError;
use crate::queue::{PlaybackQueue, QueueModel};
use crate::timer::{next_generation, IdleTimer};
use crate::track::Track;
use crate::voice::{Colocation, JoinStep, VoiceSession};

verus! {

/// Work for the caller to carry out after a transition.
#[derive(Debug)]
pub enum Effect {
    /// Start this track on the audio node.
    Play(Track),
    /// Stop the audio node's player.
    Stop,
    /// Pause the audio node's player.
    Pause,
    /// Resume the audio node's player.
    Resume,
    /// Seek the current track to this many seconds.
    Seek(u64),
    /// After the idle delay, report this token back through `timer_fired`.
    ScheduleIdleCheck(u64),
    /// Destroy the guild's audio-node session.
    DestroyNodeSession,
    /// Leave the voice transport connection.
    LeaveTransport,
}

/// What a play request needs before its track can be queued.
#[derive(Clone, Copy, Debug, PartialEq, Eq, Structural)]
pub enum PlayPlan {
    /// Join this channel first.
    Join(u64),
    /// The session is there already.
    Ready,
}

/// What a periodic idle check decided.
#[derive(Clone, Copy, Debug, PartialEq, Eq, Structural)]
pub enum IdleCheck {
    /// Something plays or waits: check again later.
    KeepWatching,
    /// Nothing more to watch: a timer is armed already, or there is no session.
    Done,
    /// The player went idle: the idle timer was armed with this token; check no more.
    Armed(u64),
}

/// How a join ended, and what must be undone.
pub struct JoinOutcome {
    pub result: Result<(), MusicError>,
    pub effects: Vec<Effect>,
}

/// The state of a guild's player.
pub struct PlayerModel {
    /// The channel of the voice session, if any.
    pub session: Option<u64>,
    pub queue: QueueModel,
    pub timer: IdleTimer,
}

impl PlayerModel {
    /// Without a session the queue is idle.
    pub open spec fn wf(self) -> bool {
        self.queue.wf() && (self.session.is_none() ==> self.queue.is_idle())
    }

    /// After joining `channel`: a fresh queue and an armed timer, as nothing plays yet.
    pub open spec fn joined(self, channel: u64) -> PlayerModel {
        PlayerModel { session: Some(channel), queue: self.queue.emptied(), timer: self.timer.rearmed() }
    }

    /// After the session ended for any reason: nothing is left.
    pub open spec fn left(self) -> PlayerModel {
        PlayerModel { session: None, queue: self.queue.emptied(), timer: self.timer.cancelled() }
    }

    /// After queueing `t`; the idle timer is cancelled.
    pub open spec fn with_track(self, t: Track) -> PlayerModel {
        PlayerModel { session: self.session, queue: self.queue.enqueued(t), timer: self.timer.cancelled() }
    }

    pub open spec fn enqueue_effects(self, t: Track) -> Seq<Effect> {
        if self.queue.current.is_none() {
            seq![Effect::Play(t)]
        } else {
            seq![]
        }
    }

    /// After the current track ended, by a skip or by itself; with nothing left the
    /// idle timer is armed, otherwise it is left as it was (a paused player stays idle).
    pub open spec fn skipped(self) -> PlayerModel {
        PlayerModel {
            session: self.session,
            queue: self.queue.advanced(),
            timer: if self.queue.upcoming.len() > 0 {
                self.timer
            } else {
                self.timer.rearmed()
            },
        }
    }

    pub open spec fn skip_effects(self) -> Seq<Effect> {
        if self.queue.upcoming.len() > 0 {
            seq![Effect::Play(self.queue.upcoming[0])]
        } else {
            seq![Effect::Stop, Effect::ScheduleIdleCheck(next_generation(self.timer.generation))]
        }
    }

    /// After a track ended by itself, as the audio node reports it.
    pub open spec fn finished(self) -> PlayerModel {
        if self.session.is_some() {
            self.skipped()
        } else {
            self
        }
    }

    pub open spec fn finish_effects(self) -> Seq<Effect> {
        if self.session.is_none() {
            seq![]
        } else if self.queue.upcoming.len() > 0 {
            seq![Effect::Play(self.queue.upcoming[0])]
        } else {
            seq![Effect::ScheduleIdleCheck(next_generation(self.timer.generation))]
        }
    }

    /// After a stop: nothing plays or waits, and the idle timer is armed.
    pub open spec fn stopped(self) -> PlayerModel {
        PlayerModel { session: self.session, queue: self.queue.emptied(), timer: self.timer.rearmed() }
    }

    /// After a pause, which counts as idle: the idle timer is armed.
    pub open spec fn paused(self) -> PlayerModel {
        PlayerModel { session: self.session, queue: self.queue, timer: self.timer.rearmed() }
    }

    /// After a resume: the idle timer is cancelled.
    pub open spec fn resumed(self) -> PlayerModel {
        PlayerModel { session: self.session, queue: self.queue, timer: self.timer.cancelled() }
    }

    /// After dropping the upcoming tracks.
    pub open spec fn cleared(self) -> PlayerModel {
        PlayerModel { session: self.session, queue: self.queue.cleared(), timer: self.timer }
    }

    /// After the delayed task holding `token` woke.
    pub open spec fn fired(self, token: u64) -> PlayerModel {
        if self.timer.fires(token) {
            self.left()
        } else {
            self
        }
    }

    pub open spec fn fire_effects(self, token: u64) -> Seq<Effect> {
        if self.timer.fires(token) && self.session.is_some() {
            seq![Effect::DestroyNodeSession, Effect::LeaveTransport]
        } else {
            seq![]
        }
    }

    /// The result, effects and new state of a join of `channel` that went as `step` says.
    pub open spec fn join_outcome(self, channel: u64, step: JoinStep) -> (
        Result<(), MusicError>,
        Seq<Effect>,
        PlayerModel,
    ) {
        if self.session.is_some() {
            (Err(MusicError::AlreadyConnected), seq![], self)
        } else {
            match step {
                JoinStep::TransportFailed => (Err(MusicError::TransportError), seq![], self),
                JoinStep::NodeFailed => (Err(MusicError::NodeError), seq![Effect::LeaveTransport], self),
                JoinStep::Connected => (
                    Ok(()),
                    seq![Effect::ScheduleIdleCheck(next_generation(self.timer.generation))],
                    self.joined(channel),
                ),
            }
        }
    }

    /// After the audio node dropped the session on its own.
    pub open spec fn disconnected(self) -> PlayerModel {
        if self.session.is_some() {
            self.left()
        } else {
            self
        }
    }

    pub open spec fn disconnect_effects(self) -> Seq<Effect> {
        if self.session.is_some() {
            seq![Effect::LeaveTransport]
        } else {
            seq![]
        }
    }

    /// After taking out the upcoming track at `position`.
    pub open spec fn without(self, position: int) -> PlayerModel {
        PlayerModel { session: self.session, queue: self.queue.without(position), timer: self.timer }
    }

    /// What a periodic idle check decides.
    pub open spec fn idle_check_result(self) -> IdleCheck {
        if self.timer.armed || self.session.is_none() {
            IdleCheck::Done
        } else if self.queue.is_idle() {
            IdleCheck::Armed(next_generation(self.timer.generation))
        } else {
            IdleCheck::KeepWatching
        }
    }

    /// After a periodic idle check.
    pub open spec fn idle_checked(self) -> PlayerModel {
        if self.idle_check_result() is Armed {
            PlayerModel { session: self.session, queue: self.queue, timer: self.timer.rearmed() }
        } else {
            self
        }
    }

    /// The plan for a play request from a requester in `requester`'s channel.
    pub open spec fn play_plan(self, requester: Option<u64>) -> Result<PlayPlan, MusicError> {
        match requester {
            None => Err(MusicError::NoChannel),
            Some(c) => match self.session {
                None => Ok(PlayPlan::Join(c)),
                Some(s) => if s == c {
                    Ok(PlayPlan::Ready)
                } else {
                    Err(MusicError::WrongChannel)
                },
            },
        }
    }

    /// Queues each of `ts` in turn.
    pub open spec fn enqueue_all(self, ts: Seq<Track>) -> PlayerModel
        decreases ts.len(),
    {
        if ts.len() == 0 {
            self
        } else {
            self.with_track(ts[0]).enqueue_all(ts.drop_first())
        }
    }

    /// Skips `n` times.
    pub open spec fn skip_times(self, n: nat) -> PlayerModel
        decreases n,
    {
        if n == 0 {
            self
        } else {
            self.skipped().skip_times((n - 1) as nat)
        }
    }
}

/// A guild's music player.
pub struct GuildPlayer {
    session: Option<VoiceSession>,
    queue: PlaybackQueue,
    timer: IdleTimer,
}

impl View for GuildPlayer {
    type V = PlayerModel;

    closed spec fn view(&self) -> PlayerModel {
        PlayerModel {
            session: match self.session {
                Some(s) => Some(s.channel),
                None => None,
            },
            queue: self.queue@,
            timer: self.timer,
        }
    }
}

fn one_effect(e: Effect) -> (r: Vec<Effect>)
    ensures
        r@ == seq![e],
{
    let mut v = Vec::new();
    v.push(e);
    v
}

fn two_effects(e: Effect, f: Effect) -> (r: Vec<Effect>)
    ensures
        r@ == seq![e, f],
{
    let mut v = Vec::new();
    v.push(e);
    v.push(f);
    v
}

impl GuildPlayer {
    /// A guild with no session, an empty queue and no timer.
    pub fn new() -> (r: GuildPlayer)
        ensures
            r@.wf(),
            r@.session.is_none(),
            r@.queue.is_idle(),
            r@.timer.live().is_none(),
    {
        GuildPlayer { session: None, queue: PlaybackQueue::new(), timer: IdleTimer::new() }
    }

    /// The channel of the voice session, if any.
    pub fn session_channel(&self) -> (r: Option<u64>)
        ensures
            r == self@.session,
    {
        match self.session {
            Some(s) => Some(s.channel),
            None => None,
        }
    }

    /// Whether the idle timer is armed.
    pub fn timer_armed(&self) -> (r: bool)
        ensures
            r == self@.timer.armed,
    {
        self.timer.armed
    }

    /// What the queue view shows: the track playing now, then the upcoming ones in play
    /// order, the first of them at position 1.
    pub fn queue_view(&self) -> (r: (Option<Track>, Vec<Track>))
        ensures
            r.0 == self@.queue.current,
            r.1@ == self@.queue.upcoming,
    {
        (self.queue.current.clone(), self.queue.upcoming.clone())
    }

    /// Where a requester in `requester`'s channel stands relative to the bot.
    pub fn is_colocated(&self, requester: Option<u64>) -> (r: Colocation)
        ensures
            self@.session.is_none() ==> r == Colocation::BotAbsent,
            self@.session.is_some() && requester == self@.session ==> r == Colocation::Together,
            self@.session.is_some() && requester != self@.session ==> r == Colocation::Apart,
    {
        match self.session {
            None => Colocation::BotAbsent,
            Some(s) => match requester {
                Some(c) => if c == s.channel {
                    Colocation::Together
                } else {
                    Colocation::Apart
                },
                None => Colocation::Apart,
            },
        }
    }

    /// Whether a join may start: never while a session exists.
    pub fn begin_join(&self) -> (r: Result<(), MusicError>)
        ensures
            self@.session.is_some() ==> r == Err::<(), MusicError>(MusicError::AlreadyConnected),
            self@.session.is_none() ==> r == Ok::<(), MusicError>(()),
    {
        if self.session.is_some() {
            Err(MusicError::AlreadyConnected)
        } else {
            Ok(())
        }
    }

    /// Records how a join of `channel` went. A session is made only where both the
    /// transport and the audio node came up, and never replaces one; where the node
    /// failed after the transport joined, the transport is to be left.
    pub fn finish_join(&mut self, channel: u64, step: JoinStep) -> (r: JoinOutcome)
        requires
            old(self)@.wf(),
        ensures
            final(self)@.wf(),
            (r.result, r.effects@, final(self)@) == old(self)@.join_outcome(channel, step),
    {
        if self.session.is_some() {
            return JoinOutcome { result: Err(MusicError::AlreadyConnected), effects: Vec::new() };
        }
        match step {
            JoinStep::TransportFailed => JoinOutcome {
                result: Err(MusicError::TransportError),
                effects: Vec::new(),
            },
            JoinStep::NodeFailed => JoinOutcome {
                result: Err(MusicError::NodeError),
                effects: one_effect(Effect::LeaveTransport),
            },
            JoinStep::Connected => {
                self.session = Some(VoiceSession { channel });
                self.queue.empty();
                let token = self.timer.arm();
                JoinOutcome { result: Ok(()), effects: one_effect(Effect::ScheduleIdleCheck(token)) }
            },
        }
    }

    /// The plan for a play request from a requester in `requester`'s channel (`None`: in
    /// no channel): join that channel where the guild has no session.
    pub fn plan_play(&self, requester: Option<u64>) -> (r: Result<PlayPlan, MusicError>)
        ensures
            r == self@.play_plan(requester),
    {
        match requester {
            None => Err(MusicError::NoChannel),
            Some(c) => match self.session {
                None => Ok(PlayPlan::Join(c)),
                Some(s) => if s.channel == c {
                    Ok(PlayPlan::Ready)
                } else {
                    Err(MusicError::WrongChannel)
                },
            },
        }
    }

    /// The channel that an explicit summon joins: the requester's, where the bot has no
    /// session yet.
    pub fn plan_summon(&self, requester: Option<u64>) -> (r: Result<u64, MusicError>)
        ensures
            self@.session.is_some() ==> r == Err::<u64, MusicError>(MusicError::AlreadyConnected),
            self@.session.is_none() && requester.is_none() ==> r == Err::<u64, MusicError>(
                MusicError::NoChannel,
            ),
            self@.session.is_none() && requester.is_some() ==> r == Ok::<u64, MusicError>(
                requester.unwrap(),
            ),
    {
        if self.session.is_some() {
            Err(MusicError::AlreadyConnected)
        } else {
            match requester {
                Some(c) => Ok(c),
                None => Err(MusicError::NoChannel),
            }
        }
    }

    /// Queues a track; it starts at once where nothing plays. Any armed idle timer is
    /// cancelled.
    pub fn enqueue(&mut self, t: Track) -> (r: Result<Vec<Effect>, MusicError>)
        requires
            old(self)@.wf(),
        ensures
            final(self)@.wf(),
            old(self)@.session.is_none() ==> r == Err::<Vec<Effect>, MusicError>(
                MusicError::NotConnected,
            ) && final(self)@ == old(self)@,
            old(self)@.session.is_some() ==> (r matches Ok(v) && v@ == old(self)@.enqueue_effects(
                t,
            )) && final(self)@ == old(self)@.with_track(t),
    {
        if self.session.is_none() {
            return Err(MusicError::NotConnected);
        }
        let started = self.queue.enqueue(t);
        self.timer.cancel();
        match started {
            Some(first) => Ok(one_effect(Effect::Play(first))),
            None => Ok(Vec::new()),
        }
    }

    /// Skips the current track: the next one starts, or, with none left, the player
    /// stops and the idle timer is armed.
    pub fn skip(&mut self) -> (r: Result<Vec<Effect>, MusicError>)
        requires
            old(self)@.wf(),
        ensures
            final(self)@.wf(),
            old(self)@.session.is_none() ==> r == Err::<Vec<Effect>, MusicError>(
                MusicError::NotConnected,
            ) && final(self)@ == old(self)@,
            old(self)@.session.is_some() ==> (r matches Ok(v) && v@ == old(self)@.skip_effects())
                && final(self)@ == old(self)@.skipped(),
    {
        if self.session.is_none() {
            return Err(MusicError::NotConnected);
        }
        match self.queue.advance() {
            Some(next) => Ok(one_effect(Effect::Play(next))),
            None => {
                let token = self.timer.arm();
                Ok(two_effects(Effect::Stop, Effect::ScheduleIdleCheck(token)))
            },
        }
    }

    /// The audio node reports that the current track ended by itself: the next one
    /// starts, or, with none left, the idle timer is armed. Ignored without a session.
    pub fn track_finished(&mut self) -> (r: Vec<Effect>)
        requires
            old(self)@.wf(),
        ensures
            final(self)@.wf(),
            r@ == old(self)@.finish_effects(),
            final(self)@ == old(self)@.finished(),
    {
        if self.session.is_none() {
            return Vec::new();
        }
        match self.queue.advance() {
            Some(next) => one_effect(Effect::Play(next)),
            None => {
                let token = self.timer.arm();
                one_effect(Effect::ScheduleIdleCheck(token))
            },
        }
    }

    /// Stops playback and empties the queue, keeping the session; arms the idle timer.
    pub fn stop(&mut self) -> (r: Result<Vec<Effect>, MusicError>)
        requires
            old(self)@.wf(),
        ensures
            final(self)@.wf(),
            old(self)@.session.is_none() ==> r == Err::<Vec<Effect>, MusicError>(
                MusicError::NotConnected,
            ) && final(self)@ == old(self)@,
            old(self)@.session.is_some() ==> (r matches Ok(v) && v@ == seq![
                Effect::Stop,
                Effect::ScheduleIdleCheck(next_generation(old(self)@.timer.generation)),
            ]) && final(self)@ == old(self)@.stopped(),
    {
        if self.session.is_none() {
            return Err(MusicError::NotConnected);
        }
        self.queue.empty();
        let token = self.timer.arm();
        Ok(two_effects(Effect::Stop, Effect::ScheduleIdleCheck(token)))
    }

    /// Pauses playback. A paused player counts as idle, so the idle timer is armed.
    pub fn pause(&mut self) -> (r: Result<Vec<Effect>, MusicError>)
        requires
            old(self)@.wf(),
        ensures
            final(self)@.wf(),
            old(self)@.session.is_none() ==> r == Err::<Vec<Effect>, MusicError>(
                MusicError::NotConnected,
            ) && final(self)@ == old(self)@,
            old(self)@.session.is_some() ==> (r matches Ok(v) && v@ == seq![
                Effect::Pause,
                Effect::ScheduleIdleCheck(next_generation(old(self)@.timer.generation)),
            ]) && final(self)@ == old(self)@.paused(),
    {
        if self.session.is_none() {
            return Err(MusicError::NotConnected);
        }
        let token = self.timer.arm();
        Ok(two_effects(Effect::Pause, Effect::ScheduleIdleCheck(token)))
    }

    /// Resumes playback and cancels any armed idle timer.
    pub fn resume(&mut self) -> (r: Result<Vec<Effect>, MusicError>)
        requires
            old(self)@.wf(),
        ensures
            final(self)@.wf(),
            old(self)@.session.is_none() ==> r == Err::<Vec<Effect>, MusicError>(
                MusicError::NotConnected,
            ) && final(self)@ == old(self)@,
            old(self)@.session.is_some() ==> (r matches Ok(v) && v@ == seq![Effect::Resume])
                && final(self)@ == old(self)@.resumed(),
    {
        if self.session.is_none() {
            return Err(MusicError::NotConnected);
        }
        self.timer.cancel();
        Ok(one_effect(Effect::Resume))
    }

    /// Seeks the current track to `seconds`.
    pub fn seek(&self, seconds: u64) -> (r: Result<Vec<Effect>, MusicError>)
        ensures
            self@.session.is_none() ==> r == Err::<Vec<Effect>, MusicError>(
                MusicError::NotConnected,
            ),
            self@.session.is_some() ==> (r matches Ok(v) && v@ == seq![Effect::Seek(seconds)]),
    {
        if self.session.is_none() {
            return Err(MusicError::NotConnected);
        }
        Ok(one_effect(Effect::Seek(seconds)))
    }

    /// Drops every upcoming track; the current one plays on.
    pub fn clear(&mut self) -> (r: Result<(), MusicError>)
        requires
            old(self)@.wf(),
        ensures
            final(self)@.wf(),
            old(self)@.session.is_none() ==> r == Err::<(), MusicError>(MusicError::NotConnected)
                && final(self)@ == old(self)@,
            old(self)@.session.is_some() ==> r == Ok::<(), MusicError>(()) && final(self)@
                == old(self)@.cleared(),
    {
        if self.session.is_none() {
            return Err(MusicError::NotConnected);
        }
        self.queue.clear();
        Ok(())
    }

    /// Takes out and returns the upcoming track at `position`, as the queue view numbers
    /// them; position 0, the track playing now, and positions past the end are refused.
    pub fn remove(&mut self, position: usize) -> (r: Result<Track, MusicError>)
        requires
            old(self)@.wf(),
        ensures
            final(self)@.wf(),
            !old(self)@.queue.valid_position(position as int) ==> r == Err::<Track, MusicError>(
                MusicError::InvalidPosition,
            ) && final(self)@ == old(self)@,
            old(self)@.queue.valid_position(position as int) ==> r == Ok::<Track, MusicError>(
                old(self)@.queue.upcoming[position - 1],
            ) && final(self)@ == old(self)@.without(position as int),
    {
        self.queue.remove(position)
    }

    /// Ends the session: the audio-node session and the transport connection are both
    /// to be torn down, and the queue and the idle timer go with them.
    pub fn leave(&mut self) -> (r: Result<Vec<Effect>, MusicError>)
        requires
            old(self)@.wf(),
        ensures
            final(self)@.wf(),
            old(self)@.session.is_none() ==> r == Err::<Vec<Effect>, MusicError>(
                MusicError::NotConnected,
            ) && final(self)@ == old(self)@,
            old(self)@.session.is_some() ==> (r matches Ok(v) && v@ == seq![
                Effect::DestroyNodeSession,
                Effect::LeaveTransport,
            ]) && final(self)@ == old(self)@.left(),
    {
        if self.session.is_none() {
            return Err(MusicError::NotConnected);
        }
        self.session = None;
        self.queue.empty();
        self.timer.cancel();
        Ok(two_effects(Effect::DestroyNodeSession, Effect::LeaveTransport))
    }

    /// The audio node dropped the session on its own: the state is reconciled as after
    /// a leave, and the transport connection is to be left too.
    pub fn node_disconnected(&mut self) -> (r: Vec<Effect>)
        requires
            old(self)@.wf(),
        ensures
            final(self)@.wf(),
            r@ == old(self)@.disconnect_effects(),
            final(self)@ == old(self)@.disconnected(),
    {
        if self.session.is_none() {
            return Vec::new();
        }
        self.session = None;
        self.queue.empty();
        self.timer.cancel();
        one_effect(Effect::LeaveTransport)
    }

    /// A periodic check, made while a session plays: where nothing plays or waits any
    /// more and no timer is armed, the idle timer is armed.
    pub fn idle_check(&mut self) -> (r: IdleCheck)
        requires
            old(self)@.wf(),
        ensures
            final(self)@.wf(),
            r == old(self)@.idle_check_result(),
            final(self)@ == old(self)@.idle_checked(),
    {
        if self.timer.armed || self.session.is_none() {
            IdleCheck::Done
        } else if self.queue.current.is_none() && self.queue.upcoming.len() == 0 {
            IdleCheck::Armed(self.timer.arm())
        } else {
            IdleCheck::KeepWatching
        }
    }

    /// The delayed task that was handed `token` woke. Where it still holds the live
    /// arming, the session is ended; otherwise nothing happens.
    pub fn timer_fired(&mut self, token: u64) -> (r: Vec<Effect>)
        requires
            old(self)@.wf(),
        ensures
            final(self)@.wf(),
            r@ == old(self)@.fire_effects(token),
            final(self)@ == old(self)@.fired(token),
    {
        if !self.timer.fire(token) {
            return Vec::new();
        }
        self.queue.empty();
        if self.session.is_some() {
            self.session = None;
            two_effects(Effect::DestroyNodeSession, Effect::LeaveTransport)
        } else {
            Vec::new()
        }
    }
}

/// Queueing onto a playing queue keeps the current track and appends to the upcoming
/// ones, in order.
proof fn lemma_enqueue_all_appends(p: PlayerModel, ts: Seq<Track>)
    requires
        p.queue.current.is_some(),
    ensures
        p.enqueue_all(ts).session == p.session,
        p.enqueue_all(ts).queue.current == p.queue.current,
        p.enqueue_all(ts).queue.upcoming == p.queue.upcoming + ts,
    decreases ts.len(),
{
    if ts.len() == 0 {
        assert(p.queue.upcoming + ts =~= p.queue.upcoming);
    } else {
        let q = p.with_track(ts[0]);
        lemma_enqueue_all_appends(q, ts.drop_first());
        assert(q.queue.upcoming + ts.drop_first() =~= p.queue.upcoming + ts);
    }
}

/// With a track playing and `u` upcoming, `u.len() + 1` skips leave the queue idle and
/// the idle timer armed.
proof fn lemma_skips_drain(p: PlayerModel)
    requires
        p.queue.current.is_some(),
    ensures
        p.skip_times(p.queue.upcoming.len() + 1).queue.is_idle(),
        p.skip_times(p.queue.upcoming.len() + 1).timer.armed,
    decreases p.queue.upcoming.len(),
{
    let n = p.queue.upcoming.len();
    let q = p.skipped();
    if n == 0 {
        assert(q.skip_times(0) == q);
    } else {
        lemma_skips_drain(q);
        assert(q.queue.upcoming.len() == n - 1);
    }
}

/// Queueing tracks onto an idle connected player and then skipping once per queued
/// track leaves nothing playing, nothing upcoming, and the idle timer armed.
pub proof fn lemma_enqueue_then_skip_each(p: PlayerModel, ts: Seq<Track>)
    requires
        p.wf(),
        p.session.is_some(),
        p.queue.is_idle(),
        ts.len() >= 1,
    ensures
        p.enqueue_all(ts).skip_times(ts.len()).queue.is_idle(),
        p.enqueue_all(ts).skip_times(ts.len()).timer.armed,
{
    let first = p.with_track(ts[0]);
    assert(first.queue.current == Some(ts[0]));
    lemma_enqueue_all_appends(first, ts.drop_first());
    let full = first.enqueue_all(ts.drop_first());
    assert(p.enqueue_all(ts) == full);
    assert(full.queue.upcoming =~= ts.drop_first());
    lemma_skips_drain(full);
}

/// Clearing keeps the track playing now, and the queue view then shows it with nothing
/// upcoming.
pub proof fn lemma_clear_keeps_current(p: PlayerModel)
    requires
        p.wf(),
    ensures
        p.cleared().queue.current == p.queue.current,
        p.cleared().queue.upcoming.len() == 0,
        p.cleared().session == p.session,
        p.cleared().wf(),
{
}

/// A delayed task whose arming was cancelled, by queueing a track or by resuming, or
/// replaced by a later arming, finds nothing to do when it wakes: the session stays.
pub proof fn lemma_cancelled_arming_never_fires(p: PlayerModel, t: Track, token: u64)
    requires
        p.wf(),
    ensures
        p.with_track(t).fired(token) == p.with_track(t),
        p.with_track(t).fire_effects(token) == Seq::<Effect>::empty(),
        p.resumed().fired(token) == p.resumed(),
        p.resumed().fire_effects(token) == Seq::<Effect>::empty(),
        p.paused().resumed().fired(token) == p.paused().resumed(),
        p.timer.live() == Some(token) ==> p.paused().fire_effects(token) == Seq::<Effect>::empty()
            && p.paused().fired(token) == p.paused(),
{
    assert(p.with_track(t).fire_effects(token) =~= Seq::<Effect>::empty());
    assert(p.resumed().fire_effects(token) =~= Seq::<Effect>::empty());
    if p.timer.live() == Some(token) {
        crate::timer::lemma_rearm_replaces(p.timer, token);
        assert(p.paused().fire_effects(token) =~= Seq::<Effect>::empty());
    }
}

} // verus!
