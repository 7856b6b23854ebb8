//! The starboard setup wizard and the deactivation prompt, as state machines: each
//! event (a reaction, a reply, a timeout, a stored-setting answer) gives the next step
//! and what to say or store. The caller sends, waits and stores.
use vstd::prelude::*;
use vstd::string::*;
use crate::text::{chars_of, same_text};
use crate::timestamp::{number, numeric, parse_number};

verus! {

/// The wizard's steps.
#[derive(Clone, Copy, Debug, PartialEq, Eq, Structural)]
pub enum WizardStep {
    /// Waiting for the author to confirm with a reaction.
    AwaitConfirm,
    /// Waiting for a threshold above 0.
    AwaitThreshold,
    /// Waiting to learn whether a quote channel is stored already.
    AwaitChannelCheck,
    /// Waiting for a channel mention.
    AwaitChannel,
    /// Nothing more to do.
    Finished,
}

/// What happened while the wizard waited.
#[derive(Debug)]
pub enum WizardEvent {
    /// The author reacted with this emoji.
    Reaction(String),
    /// The author replied with this text.
    Reply(String),
    /// Whether the guild has a quote channel stored.
    QuoteChannelStored(bool),
    /// The wait ran out.
    TimedOut,
}

/// What the caller must do after a step.
#[derive(Clone, Copy, Debug, PartialEq, Eq)]
pub enum WizardAction {
    /// Send this text to the channel.
    Say(&'static str),
    /// Store the starboard threshold.
    SaveThreshold(u32),
    /// Store the quote channel.
    SaveChannel(u64),
    /// Look up whether a quote channel is stored, and report it back.
    CheckQuoteChannel,
    /// Nothing.
    Wait,
}

pub open spec fn confirm_emoji() -> Seq<char> {
    "✅"@
}

pub open spec fn cancel_emoji() -> Seq<char> {
    "❌"@
}

/// The number in a reply that asks for an unsigned 32-bit number (an optional `+`, then
/// digits), if it is one.
pub open spec fn reply_u32(reply: Seq<char>) -> Option<nat> {
    let d = crate::japan::unsigned_part(reply);
    if numeric(d) && number(d) <= u32::MAX {
        Some(number(d))
    } else {
        None
    }
}

/// The first word of a reply: what comes before its first space.
pub open spec fn first_word(s: Seq<char>) -> Seq<char>
    decreases s.len(),
{
    if s.len() == 0 {
        s
    } else if s[0] == ' ' {
        seq![]
    } else {
        seq![s[0]] + first_word(s.drop_first())
    }
}

/// The channel that a mention `<#id>` names, if it is one.
pub open spec fn channel_mention(s: Seq<char>) -> Option<nat> {
    if s.len() >= 4 && s[0] == '<' && s[1] == '#' && s.last() == '>' && numeric(
        s.subrange(2, s.len() - 1),
    ) && number(s.subrange(2, s.len() - 1)) <= u64::MAX {
        Some(number(s.subrange(2, s.len() - 1)))
    } else {
        None
    }
}

/// The wizard's next step and action.
pub open spec fn wizard_next(step: WizardStep, event: WizardEvent) -> (WizardStep, WizardAction) {
    match (step, event) {
        (_, WizardEvent::TimedOut) => if step == WizardStep::Finished {
            (WizardStep::Finished, WizardAction::Wait)
        } else {
            (WizardStep::Finished, WizardAction::Say("Timed out"))
        },
        (WizardStep::AwaitConfirm, WizardEvent::Reaction(e)) => if e@ == confirm_emoji() {
            (
                WizardStep::AwaitThreshold,
                WizardAction::Say(
                    "Sounds good! Please enter a number greater than 0 for the starboard threshold!",
                ),
            )
        } else if e@ == cancel_emoji() {
            (WizardStep::Finished, WizardAction::Say("Aborting..."))
        } else {
            (WizardStep::Finished, WizardAction::Say("That's not a valid emoji! Aborting..."))
        },
        (WizardStep::AwaitThreshold, WizardEvent::Reply(t)) => match reply_u32(t@) {
            Some(n) => if n > 0 {
                (WizardStep::AwaitChannelCheck, WizardAction::SaveThreshold(n as u32))
            } else {
                (WizardStep::AwaitThreshold, WizardAction::Say("Please enter an integer greater than 0!"))
            },
            None => (WizardStep::AwaitThreshold, WizardAction::Say("Please enter an integer greater than 0!")),
        },
        (WizardStep::AwaitChannelCheck, WizardEvent::QuoteChannelStored(stored)) => if stored {
            (
                WizardStep::Finished,
                WizardAction::Say(
                    "You already have a channel set up for quotes! \nIf you want to change it, run `starboard channel <mention>` \nEnjoy your new starboard!",
                ),
            )
        } else {
            (WizardStep::AwaitChannel, WizardAction::Say("Now please mention the channel you want messages sent to!"))
        },
        (WizardStep::AwaitChannel, WizardEvent::Reply(t)) => match channel_mention(first_word(t@)) {
            Some(c) => (WizardStep::Finished, WizardAction::SaveChannel(c as u64)),
            None => (WizardStep::AwaitChannel, WizardAction::Say("Please mention a channel in this guild!")),
        },
        _ => (step, WizardAction::Wait),
    }
}

/// The first word of `s`.
fn first_word_of(s: &Vec<char>) -> (r: Vec<char>)
    ensures
        r@ == first_word(s@),
{
    let mut r: Vec<char> = Vec::new();
    let mut i: usize = 0;
    while i < s.len() && s[i] != ' '
        invariant
            i <= s@.len(),
            forall|k: int| 0 <= k < i ==> s@[k] != ' ',
            r@ == s@.subrange(0, i as int),
        decreases s@.len() - i,
    {
        r.push(s[i]);
        i += 1;
        assert(r@ =~= s@.subrange(0, i as int));
    }
    proof {
        lemma_first_word(s@, i as int);
    }
    r
}

/// Where the first space (or the end) comes at `i`, the first word is what precedes it.
proof fn lemma_first_word(s: Seq<char>, i: int)
    requires
        0 <= i <= s.len(),
        forall|k: int| 0 <= k < i ==> s[k] != ' ',
        i == s.len() || s[i] == ' ',
    ensures
        first_word(s) == s.subrange(0, i),
    decreases s.len(),
{
    if s.len() == 0 {
        assert(s.subrange(0, i) =~= s);
    } else if i == 0 {
        assert(s.subrange(0, 0) =~= Seq::<char>::empty());
    } else {
        lemma_first_word(s.drop_first(), i - 1);
        assert(seq![s[0]] + s.drop_first().subrange(0, i - 1) =~= s.subrange(0, i));
    }
}

/// The channel that a mention names, if it is one.
fn read_channel_mention(s: &Vec<char>) -> (r: Option<u64>)
    ensures
        r.is_some() == channel_mention(s@).is_some(),
        r matches Some(c) ==> channel_mention(s@) == Some(c as nat),
{
    let n = s.len();
    if n < 4 || s[0] != '<' || s[1] != '#' || s[n - 1] != '>' {
        return None;
    }
    let mut inner: Vec<char> = Vec::new();
    let mut i: usize = 2;
    while i < n - 1
        invariant
            n == s@.len(),
            n >= 4,
            2 <= i <= n - 1,
            inner@ == s@.subrange(2, i as int),
        decreases n - 1 - i,
    {
        inner.push(s[i]);
        i += 1;
        assert(inner@ =~= s@.subrange(2, i as int));
    }
    assert(s@.last() == s@[n - 1]);
    parse_number(&inner)
}

/// The number in a reply that asks for an unsigned 32-bit number.
fn read_u32(reply: &str) -> (r: Option<u32>)
    ensures
        r.is_some() == reply_u32(reply@).is_some(),
        r matches Some(v) ==> reply_u32(reply@) == Some(v as nat),
{
    let n = reply.unicode_len();
    let digits = if n > 0 && reply.get_char(0) == '+' {
        chars_of(reply.substring_char(1, n))
    } else {
        chars_of(reply)
    };
    assert(reply@.len() > 0 && reply@[0] == '+' ==> reply@.subrange(1, n as int) =~= reply@.drop_first());
    match parse_number(&digits) {
        Some(v) => if v <= u32::MAX as u64 {
            Some(v as u32)
        } else {
            None
        },
        None => None,
    }
}

/// The wizard's first words, sent before it waits for a reaction.
pub fn wizard_intro() -> (r: &'static str)
    ensures
        r == "Welcome to starboard configuration \nReacting with ✅ will disable quoting on your guild!",
{
    "Welcome to starboard configuration \nReacting with ✅ will disable quoting on your guild!"
}

/// Takes the wizard one step on.
pub fn wizard_step(step: WizardStep, event: WizardEvent) -> (r: (WizardStep, WizardAction))
    ensures
        r == wizard_next(step, event),
{
    match event {
        WizardEvent::TimedOut => if step == WizardStep::Finished {
            (WizardStep::Finished, WizardAction::Wait)
        } else {
            (WizardStep::Finished, WizardAction::Say("Timed out"))
        },
        WizardEvent::Reaction(e) => {
            if step != WizardStep::AwaitConfirm {
                return (step, WizardAction::Wait);
            }
            if same_text(e.as_str(), "✅") {
                (
                    WizardStep::AwaitThreshold,
                    WizardAction::Say(
                        "Sounds good! Please enter a number greater than 0 for the starboard threshold!",
                    ),
                )
            } else if same_text(e.as_str(), "❌") {
                (WizardStep::Finished, WizardAction::Say("Aborting..."))
            } else {
                (WizardStep::Finished, WizardAction::Say("That's not a valid emoji! Aborting..."))
            }
        },
        WizardEvent::Reply(t) => {
            if step == WizardStep::AwaitThreshold {
                match read_u32(t.as_str()) {
                    Some(n) => if n > 0 {
                        (WizardStep::AwaitChannelCheck, WizardAction::SaveThreshold(n))
                    } else {
                        (WizardStep::AwaitThreshold, WizardAction::Say("Please enter an integer greater than 0!"))
                    },
                    None => (WizardStep::AwaitThreshold, WizardAction::Say("Please enter an integer greater than 0!")),
                }
            } else if step == WizardStep::AwaitChannel {
                let chars = chars_of(t.as_str());
                let word = first_word_of(&chars);
                match read_channel_mention(&word) {
                    Some(c) => (WizardStep::Finished, WizardAction::SaveChannel(c)),
                    None => (WizardStep::AwaitChannel, WizardAction::Say("Please mention a channel in this guild!")),
                }
            } else {
                (step, WizardAction::Wait)
            }
        },
        WizardEvent::QuoteChannelStored(stored) => {
            if step != WizardStep::AwaitChannelCheck {
                (step, WizardAction::Wait)
            } else if stored {
                (
                    WizardStep::Finished,
                    WizardAction::Say(
                        "You already have a channel set up for quotes! \nIf you want to change it, run `starboard channel <mention>` \nEnjoy your new starboard!",
                    ),
                )
            } else {
                (WizardStep::AwaitChannel, WizardAction::Say("Now please mention the channel you want messages sent to!"))
            }
        },
    }
}

/// How the deactivation prompt ended.
#[derive(Clone, Copy, Debug, PartialEq, Eq, Structural)]
pub enum Deactivation {
    /// Clear the threshold and the quote channel.
    Confirmed,
    Aborted,
    InvalidEmoji,
    TimedOut,
}

/// Reads the author's reaction to the deactivation prompt (`None`: the wait ran out).
pub fn deactivation(reaction: Option<String>) -> (r: Deactivation)
    ensures
        reaction.is_none() ==> r == Deactivation::TimedOut,
        reaction matches Some(e) && e@ == confirm_emoji() ==> r == Deactivation::Confirmed,
        reaction matches Some(e) && e@ == cancel_emoji() ==> r == Deactivation::Aborted,
        reaction matches Some(e) && e@ != confirm_emoji() && e@ != cancel_emoji() ==> r
            == Deactivation::InvalidEmoji,
{
    proof {
        reveal_strlit("✅");
        reveal_strlit("❌");
        assert(confirm_emoji()[0] != cancel_emoji()[0]);
    }
    match reaction {
        None => Deactivation::TimedOut,
        Some(e) => if same_text(e.as_str(), "✅") {
            Deactivation::Confirmed
        } else if same_text(e.as_str(), "❌") {
            Deactivation::Aborted
        } else {
            Deactivation::InvalidEmoji
        },
    }
}

} // verus!
