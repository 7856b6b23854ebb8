//! Voice presence: where the requester and the bot are, and how joining and leaving end.
use vstd::prelude::*;
use crate::error::MusicError;

verus! {

/// A guild's live voice session: the channel that the bot is connected to.
#[derive(Clone, Copy, Debug, PartialEq, Eq, Structural)]
pub struct VoiceSession {
    pub channel: u64,
}

/// Where a requester stands relative to the bot's voice session.
#[derive(Clone, Copy, Debug, PartialEq, Eq, Structural)]
pub enum Colocation {
    /// Both are in the same channel.
    Together,
    /// The bot has no session in the guild.
    BotAbsent,
    /// The bot is connected, and the requester is elsewhere or in no channel.
    Apart,
}

/// How a join attempt went, reported by whoever made the outside calls.
#[derive(Clone, Copy, Debug, PartialEq, Eq, Structural)]
pub enum JoinStep {
    /// The voice transport refused the join.
    TransportFailed,
    /// The transport joined, then the audio node refused a session.
    NodeFailed,
    /// Both the transport and the audio node are up.
    Connected,
}

/// Whether the author and the bot share a voice channel, each given by the channel of
/// their voice state (`None`: no voice state, or one without a channel).
pub fn get_voice_state(author_channel: Option<u64>, bot_channel: Option<u64>) -> (r: bool)
    ensures
        r == (author_channel.is_some() && author_channel == bot_channel),
{
    match (author_channel, bot_channel) {
        (Some(a), Some(b)) => a == b,
        _ => false,
    }
}

/// The outcome of a leave, once both teardown steps were attempted: the audio node's
/// failure comes first, then the transport's.
pub fn teardown_result(node_ok: bool, transport_ok: bool) -> (r: Result<(), MusicError>)
    ensures
        !node_ok ==> r == Err::<(), MusicError>(MusicError::NodeError),
        node_ok && !transport_ok ==> r == Err::<(), MusicError>(MusicError::TransportError),
        node_ok && transport_ok ==> r == Ok::<(), MusicError>(()),
{
    if !node_ok {
        Err(MusicError::NodeError)
    } else if !transport_ok {
        Err(MusicError::TransportError)
    } else {
        Ok(())
    }
}

} // verus!
