//! Why a music or voice request failed.
use vstd::prelude::*;

verus! {

/// The failures of voice, queue and track-resolution requests. None is retried.
#[derive(Clone, Copy, Debug, PartialEq, Eq, Structural)]
pub enum MusicError {
    /// The guild has no voice session.
    NotConnected,
    /// The guild already has a voice session.
    AlreadyConnected,
    /// The requester is in no voice channel.
    NoChannel,
    /// The bot's session is in another channel than the requester.
    WrongChannel,
    /// The voice transport failed.
    TransportError,
    /// The audio node failed.
    NodeError,
    /// A share link could not be resolved to a track.
    TrackNotFound,
    /// The audio search found nothing.
    NoResults,
    /// A queue position that names no upcoming track.
    InvalidPosition,
}

} // verus!
