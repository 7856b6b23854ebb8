//! Commands that send messages to a guild's configured channels: where each request
//! goes, and the vibe check, a coin flip with one of a few compliments on success.
use vstd::prelude::*;
use crate::reactions::random_below;
use crate::text::append;

verus! {

/// The compliments, by index.
pub open spec fn vibe_phrase(i: int) -> Seq<char> {
    if i == 0 {
        "Continue vibing good sir/madam"@
    } else if i == 1 {
        "Have a wonderful day"@
    } else if i == 2 {
        "Your wish will come true"@
    } else if i == 3 {
        "STRAIGHT vibing! I like that"@
    } else {
        "Drop your favorite vibes in the chat"@
    }
}

/// The verdict on `mention`: passed with compliment `phrase`, or failed.
pub open spec fn vibe_text(mention: Seq<char>, passed: bool, phrase: int) -> Seq<char> {
    if passed {
        mention + " has passed the vibe check. "@ + vibe_phrase(phrase) + "."@
    } else {
        mention + " has failed the vibe check. Show me your vibing license!"@
    }
}

/// Relies on rand's `random::<bool>`: either value may come.
#[verifier::external_body]
fn coin_flip() -> bool {
    rand::random::<bool>()
}

/// The verdict on `mention`, passed or failed, with compliment `phrase` on success.
pub fn vibe_message(mention: &str, passed: bool, phrase: usize) -> (r: String)
    requires
        phrase < 5,
    ensures
        r@ == vibe_text(mention@, passed, phrase as int),
{
    let mut s = mention.to_owned();
    if passed {
        append(&mut s, " has passed the vibe check. ");
        if phrase == 0 {
            append(&mut s, "Continue vibing good sir/madam");
        } else if phrase == 1 {
            append(&mut s, "Have a wonderful day");
        } else if phrase == 2 {
            append(&mut s, "Your wish will come true");
        } else if phrase == 3 {
            append(&mut s, "STRAIGHT vibing! I like that");
        } else {
            append(&mut s, "Drop your favorite vibes in the chat");
        }
        append(&mut s, ".");
    } else {
        append(&mut s, " has failed the vibe check. Show me your vibing license!");
    }
    s
}

/// A vibe check of `mention`: a random verdict, and a random compliment on success.
pub fn vibecheck(mention: &str) -> (r: String)
    ensures
        exists|passed: bool, phrase: int| 0 <= phrase < 5 && r@ == vibe_text(mention@, passed, phrase),
{
    let passed = coin_flip();
    let phrase = random_below(5);
    vibe_message(mention, passed, phrase)
}

/// A command that posts to a configured channel.
#[derive(Clone, Copy, Debug, PartialEq, Eq, Structural)]
pub enum SenderKind {
    Nice,
    Bruh,
    Quote,
}

/// What a sender command does.
#[derive(Clone, Copy, Debug, PartialEq, Eq)]
pub enum SenderPlan {
    /// Store `channel` as the command's channel, updating the guild's row where it has
    /// one, else inserting it; then confirm.
    StoreChannel { update_existing_row: bool, channel: u64 },
    /// The author may not set the channel: do nothing.
    Ignore,
    /// Reply with this text and stop.
    Refuse(&'static str),
    /// Post to this channel.
    Send(u64),
}

/// The reply where the command's channel is not set.
pub open spec fn not_set_text(kind: SenderKind) -> &'static str {
    match kind {
        SenderKind::Nice => "The Nice channel isn't set! Please specify a channel!",
        SenderKind::Bruh => "The Bruh channel isn't set! Please specify a channel!",
        SenderKind::Quote => "The Quote channel isn't set! Please specify a channel!",
    }
}

/// Decides a sender command: `requested` is a channel given to set, `may_manage` whether
/// the author may set it, `row_exists` whether the guild has a row of channels,
/// `stored` the command's stored channel, `starboard_on` whether the starboard is
/// enabled (which disables quoting).
pub fn sender_plan(
    kind: SenderKind,
    requested: Option<u64>,
    may_manage: bool,
    row_exists: bool,
    stored: Option<u64>,
    starboard_on: bool,
) -> (r: SenderPlan)
    ensures
        kind == SenderKind::Quote && starboard_on ==> r == SenderPlan::Refuse(
            "You can't use the quote command because starboard is enabled in this server!",
        ),
        !(kind == SenderKind::Quote && starboard_on) ==> r == (match requested {
            Some(c) => if may_manage {
                SenderPlan::StoreChannel { update_existing_row: row_exists, channel: c }
            } else {
                SenderPlan::Ignore
            },
            None => if !row_exists || stored.is_none() {
                SenderPlan::Refuse(not_set_text(kind))
            } else {
                SenderPlan::Send(stored.unwrap())
            },
        }),
{
    if kind == SenderKind::Quote && starboard_on {
        return SenderPlan::Refuse(
            "You can't use the quote command because starboard is enabled in this server!",
        );
    }
    if let Some(c) = requested {
        return if may_manage {
            SenderPlan::StoreChannel { update_existing_row: row_exists, channel: c }
        } else {
            SenderPlan::Ignore
        };
    }
    if !row_exists {
        return SenderPlan::Refuse(not_set_text_exec(kind));
    }
    match stored {
        Some(id) => SenderPlan::Send(id),
        None => SenderPlan::Refuse(not_set_text_exec(kind)),
    }
}

fn not_set_text_exec(kind: SenderKind) -> (r: &'static str)
    ensures
        r == not_set_text(kind),
{
    match kind {
        SenderKind::Nice => "The Nice channel isn't set! Please specify a channel!",
        SenderKind::Bruh => "The Bruh channel isn't set! Please specify a channel!",
        SenderKind::Quote => "The Quote channel isn't set! Please specify a channel!",
    }
}

} // verus!
