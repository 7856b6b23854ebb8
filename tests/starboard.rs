use jester_voice::starboard::{
    deactivation, wizard_intro, wizard_step, Deactivation, WizardAction, WizardEvent, WizardStep,
};

fn reply(t: &str) -> WizardEvent {
    WizardEvent::Reply(t.to_string())
}

#[test]
fn wizard_walks_through_threshold_and_channel() {
    assert!(wizard_intro().starts_with("Welcome to starboard configuration"));
    let (step, action) = wizard_step(WizardStep::AwaitConfirm, WizardEvent::Reaction("✅".to_string()));
    assert_eq!(step, WizardStep::AwaitThreshold);
    assert_eq!(
        action,
        WizardAction::Say("Sounds good! Please enter a number greater than 0 for the starboard threshold!")
    );
    let (step, action) = wizard_step(step, reply("0"));
    assert_eq!(step, WizardStep::AwaitThreshold);
    assert_eq!(action, WizardAction::Say("Please enter an integer greater than 0!"));
    let (step, _) = wizard_step(step, reply("lots"));
    assert_eq!(step, WizardStep::AwaitThreshold);
    let (step, _) = wizard_step(step, reply("4294967296"));
    assert_eq!(step, WizardStep::AwaitThreshold);
    let (step, action) = wizard_step(step, reply("5"));
    assert_eq!((step, action), (WizardStep::AwaitChannelCheck, WizardAction::SaveThreshold(5)));
    let (step, action) = wizard_step(step, WizardEvent::QuoteChannelStored(false));
    assert_eq!(step, WizardStep::AwaitChannel);
    assert_eq!(action, WizardAction::Say("Now please mention the channel you want messages sent to!"));
    let (step, action) = wizard_step(step, reply("#general"));
    assert_eq!(step, WizardStep::AwaitChannel);
    assert_eq!(action, WizardAction::Say("Please mention a channel in this guild!"));
    let (step, action) = wizard_step(step, reply("<#123456> over there"));
    assert_eq!((step, action), (WizardStep::Finished, WizardAction::SaveChannel(123456)));
}

#[test]
fn wizard_stops_on_abort_timeout_or_stored_channel() {
    let r = wizard_step(WizardStep::AwaitConfirm, WizardEvent::Reaction("❌".to_string()));
    assert_eq!(r, (WizardStep::Finished, WizardAction::Say("Aborting...")));
    let r = wizard_step(WizardStep::AwaitConfirm, WizardEvent::Reaction("👍".to_string()));
    assert_eq!(r, (WizardStep::Finished, WizardAction::Say("That's not a valid emoji! Aborting...")));
    let r = wizard_step(WizardStep::AwaitThreshold, WizardEvent::TimedOut);
    assert_eq!(r, (WizardStep::Finished, WizardAction::Say("Timed out")));
    let r = wizard_step(WizardStep::AwaitChannelCheck, WizardEvent::QuoteChannelStored(true));
    assert_eq!(r.0, WizardStep::Finished);
    let r = wizard_step(WizardStep::Finished, reply("5"));
    assert_eq!(r, (WizardStep::Finished, WizardAction::Wait));
}

#[test]
fn deactivation_reads_the_reaction() {
    assert_eq!(deactivation(Some("✅".to_string())), Deactivation::Confirmed);
    assert_eq!(deactivation(Some("❌".to_string())), Deactivation::Aborted);
    assert_eq!(deactivation(Some("x".to_string())), Deactivation::InvalidEmoji);
    assert_eq!(deactivation(None), Deactivation::TimedOut);
}

use jester_voice::senders::{sender_plan, SenderKind, SenderPlan};

#[test]
fn sender_commands_set_refuse_or_send() {
    assert_eq!(
        sender_plan(SenderKind::Nice, Some(7), true, false, None, false),
        SenderPlan::StoreChannel { update_existing_row: false, channel: 7 }
    );
    assert_eq!(
        sender_plan(SenderKind::Bruh, Some(7), true, true, Some(3), false),
        SenderPlan::StoreChannel { update_existing_row: true, channel: 7 }
    );
    assert_eq!(sender_plan(SenderKind::Nice, Some(7), false, true, None, false), SenderPlan::Ignore);
    assert_eq!(
        sender_plan(SenderKind::Nice, None, true, false, None, false),
        SenderPlan::Refuse("The Nice channel isn't set! Please specify a channel!")
    );
    assert_eq!(
        sender_plan(SenderKind::Bruh, None, true, true, None, false),
        SenderPlan::Refuse("The Bruh channel isn't set! Please specify a channel!")
    );
    assert_eq!(sender_plan(SenderKind::Quote, None, false, true, Some(9), false), SenderPlan::Send(9));
    assert_eq!(
        sender_plan(SenderKind::Quote, Some(1), true, true, Some(9), true),
        SenderPlan::Refuse("You can't use the quote command because starboard is enabled in this server!")
    );
    assert_eq!(sender_plan(SenderKind::Nice, None, false, true, Some(4), true), SenderPlan::Send(4));
}
