//! Voice sessions, playback queues and idle-disconnect timers of a chat bot's
//! music player, with the small pieces of text handling around them.

pub mod ciphers;
pub mod config;
pub mod display;
pub mod error;
pub mod groups;
pub mod japan;
pub mod player;
pub mod queue;
pub mod reactions;
pub mod resolve;
pub mod senders;
pub mod starboard;
pub mod text;
pub mod textmod;
pub mod timer;
pub mod timestamp;
pub mod track;
pub mod voice;
