use jester_voice::player::{Effect, GuildPlayer, IdleCheck};
use jester_voice::timestamp::{parse_seek_time, TimeError};
use jester_voice::track::Track;
use jester_voice::voice::JoinStep;

fn track(title: &str) -> Track {
    Track {
        title: title.to_string(),
        uri: format!("https://example.com/{}", title),
        source: "youtube".to_string(),
        length_ms: 1_000,
        author: "someone".to_string(),
    }
}

#[test]
fn seek_times_in_both_notations() {
    assert_eq!(parse_seek_time("1:02:03"), Ok(3723));
    assert_eq!(parse_seek_time("00:00:00"), Ok(0));
    assert_eq!(parse_seek_time("02:30"), Ok(150));
    assert_eq!(parse_seek_time("59:59"), Ok(3599));
}

#[test]
fn seek_time_errors_name_the_field() {
    assert_eq!(parse_seek_time("90"), Err(TimeError::Format));
    assert_eq!(parse_seek_time(""), Err(TimeError::Format));
    assert_eq!(parse_seek_time("1:2:3:4"), Err(TimeError::Format));
    assert_eq!(parse_seek_time("1:60"), Err(TimeError::Seconds));
    assert_eq!(parse_seek_time("60:00"), Err(TimeError::Minutes));
    assert_eq!(parse_seek_time("a:00:00"), Err(TimeError::Hours));
    assert_eq!(parse_seek_time(":00:00"), Err(TimeError::Hours));
    assert_eq!(parse_seek_time("1:x:00"), Err(TimeError::Minutes));
    assert_eq!(parse_seek_time("1:00:"), Err(TimeError::Seconds));
    assert_eq!(parse_seek_time("99999999999999999999:00:00"), Err(TimeError::Hours));
}

#[test]
fn idle_check_arms_once_when_idle() {
    let mut g = GuildPlayer::new();
    assert_eq!(g.idle_check(), IdleCheck::Done);
    g.finish_join(4, JoinStep::Connected);
    assert_eq!(g.idle_check(), IdleCheck::Done);
    g.enqueue(track("a")).unwrap();
    assert_eq!(g.idle_check(), IdleCheck::KeepWatching);
    g.remove(1).unwrap_err();
    let effects = g.track_finished();
    assert!(matches!(effects[0], Effect::ScheduleIdleCheck(_)));
    assert_eq!(g.idle_check(), IdleCheck::Done);
    g.resume().unwrap();
    assert!(!g.timer_armed());
    match g.idle_check() {
        IdleCheck::Armed(token) => {
            assert!(g.timer_armed());
            let effects = g.timer_fired(token);
            assert_eq!(effects.len(), 2);
            assert_eq!(g.session_channel(), None);
        }
        other => panic!("unexpected {:?}", other),
    }
}

use jester_voice::japan::{read_choice, result_listing, Choice};
use jester_voice::reactions::{
    member_recipient, search_filter, solo_message, solo_search, Recipient, SoloReaction,
};
use jester_voice::senders::{vibe_message, vibecheck};

#[test]
fn result_list_is_numbered() {
    let titles = vec!["Cowboy Bebop".to_string(), "Trigun".to_string()];
    assert_eq!(result_listing(&titles), "1. Cowboy Bebop\n\n2. Trigun\n\n");
    assert_eq!(result_listing(&vec![]), "");
}

#[test]
fn replies_pick_results_by_number() {
    assert_eq!(read_choice("abort", 5), Choice::Abort);
    assert_eq!(read_choice("1", 5), Choice::Pick(0));
    assert_eq!(read_choice("+5", 5), Choice::Pick(4));
    assert_eq!(read_choice("003", 5), Choice::Pick(2));
    assert_eq!(read_choice("6", 5), Choice::Invalid);
    assert_eq!(read_choice("0", 5), Choice::Invalid);
    assert_eq!(read_choice("-2", 5), Choice::Invalid);
    assert_eq!(read_choice("two", 5), Choice::Invalid);
    assert_eq!(read_choice("", 5), Choice::Invalid);
    assert_eq!(read_choice("+", 5), Choice::Invalid);
    assert_eq!(read_choice("99999999999999999999999", 5), Choice::Invalid);
    assert_eq!(read_choice("Abort", 5), Choice::Invalid);
}

#[test]
fn solo_reactions_and_filters() {
    assert_eq!(solo_message(SoloReaction::Cry, "ann"), "ann is crying! 😭");
    assert_eq!(solo_message(SoloReaction::Disgust, "ann"), "ann is disgusted 😕");
    assert_eq!(
        solo_message(SoloReaction::Cringe, "ann"),
        "ann thinks that's really cringey 😬"
    );
    assert_eq!(solo_search(SoloReaction::Cringe), ("cringe", "cringe", "low"));
    assert_eq!(search_filter(true), "off");
    assert_eq!(search_filter(false), "medium");
    assert!(matches!(member_recipient(3, "me".to_string(), 3), Recipient::Yourself));
    match member_recipient(4, "bob".to_string(), 3) {
        Recipient::SomeoneElse(n) => assert_eq!(n, "bob"),
        other => panic!("unexpected {:?}", other),
    }
}

#[test]
fn vibe_check_verdicts() {
    assert_eq!(
        vibe_message("@ann", true, 1),
        "@ann has passed the vibe check. Have a wonderful day."
    );
    assert_eq!(
        vibe_message("@ann", false, 0),
        "@ann has failed the vibe check. Show me your vibing license!"
    );
    for _ in 0..20 {
        let m = vibecheck("@ann");
        assert!(m.starts_with("@ann has "));
    }
}

use jester_voice::textmod::{change_case, CaseChange};

#[test]
fn case_changes() {
    assert_eq!(change_case(CaseChange::Upper, "Hello, wörld"), "HELLO, WÖRLD");
    assert_eq!(change_case(CaseChange::Lower, "Hello, WÖRLD"), "hello, wörld");
    assert_eq!(change_case(CaseChange::Upper, ""), "");
}
