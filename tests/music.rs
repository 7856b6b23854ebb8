use jester_voice::error::MusicError;
use jester_voice::player::{Effect, GuildPlayer, PlayPlan};
use jester_voice::timer::{IdleTimer, IDLE_DELAY_SECS};
use jester_voice::track::Track;
use jester_voice::voice::{get_voice_state, teardown_result, Colocation, JoinStep};

fn track(title: &str) -> Track {
    Track {
        title: title.to_string(),
        uri: format!("https://example.com/{}", title),
        source: "youtube".to_string(),
        length_ms: 185_000,
        author: "someone".to_string(),
    }
}

fn connected(channel: u64) -> GuildPlayer {
    let mut g = GuildPlayer::new();
    let out = g.finish_join(channel, JoinStep::Connected);
    assert_eq!(out.result, Ok(()));
    g
}

fn titles(g: &GuildPlayer) -> (Option<String>, Vec<String>) {
    let (current, upcoming) = g.queue_view();
    (current.map(|t| t.title), upcoming.into_iter().map(|t| t.title).collect())
}

#[test]
fn play_without_session_joins_and_starts() {
    let mut g = GuildPlayer::new();
    assert_eq!(g.plan_play(Some(42)), Ok(PlayPlan::Join(42)));
    assert_eq!(g.begin_join(), Ok(()));
    let out = g.finish_join(42, JoinStep::Connected);
    assert_eq!(out.result, Ok(()));
    let effects = g.enqueue(track("first")).unwrap();
    assert_eq!(effects.len(), 1);
    assert!(matches!(&effects[0], Effect::Play(t) if t.title == "first"));
    assert_eq!(g.session_channel(), Some(42));
    assert_eq!(titles(&g), (Some("first".to_string()), vec![]));
    assert!(!g.timer_armed());
}

#[test]
fn natural_finish_arms_timer_and_play_cancels_it() {
    let mut g = connected(5);
    g.enqueue(track("only")).unwrap();
    let effects = g.track_finished();
    assert_eq!(effects.len(), 1);
    let token = match effects[0] {
        Effect::ScheduleIdleCheck(t) => t,
        _ => panic!("expected an idle check"),
    };
    assert_eq!(titles(&g), (None, vec![]));
    assert!(g.timer_armed());

    assert_eq!(g.plan_play(Some(5)), Ok(PlayPlan::Ready));
    let effects = g.enqueue(track("next")).unwrap();
    assert!(matches!(&effects[0], Effect::Play(t) if t.title == "next"));
    assert!(!g.timer_armed());

    let fired = g.timer_fired(token);
    assert!(fired.is_empty());
    assert_eq!(g.session_channel(), Some(5));
    assert_eq!(titles(&g), (Some("next".to_string()), vec![]));
}

#[test]
fn pause_then_resume_never_disconnects() {
    let mut g = connected(9);
    g.enqueue(track("song")).unwrap();
    let effects = g.pause().unwrap();
    assert_eq!(effects.len(), 2);
    assert!(matches!(effects[0], Effect::Pause));
    let token = match effects[1] {
        Effect::ScheduleIdleCheck(t) => t,
        _ => panic!("expected an idle check"),
    };
    assert!(g.timer_armed());
    let effects = g.resume().unwrap();
    assert!(matches!(effects[0], Effect::Resume));
    assert!(!g.timer_armed());
    assert!(g.timer_fired(token).is_empty());
    assert_eq!(g.session_channel(), Some(9));
}

#[test]
fn enqueue_then_skip_each_drains_and_arms() {
    let mut g = connected(1);
    for name in ["a", "b", "c"] {
        g.enqueue(track(name)).unwrap();
    }
    assert_eq!(titles(&g), (Some("a".to_string()), vec!["b".to_string(), "c".to_string()]));
    let e1 = g.skip().unwrap();
    assert!(matches!(&e1[0], Effect::Play(t) if t.title == "b"));
    let e2 = g.skip().unwrap();
    assert!(matches!(&e2[0], Effect::Play(t) if t.title == "c"));
    let e3 = g.skip().unwrap();
    assert_eq!(e3.len(), 2);
    assert!(matches!(e3[0], Effect::Stop));
    assert!(matches!(e3[1], Effect::ScheduleIdleCheck(_)));
    assert_eq!(titles(&g), (None, vec![]));
    assert!(g.timer_armed());
}

#[test]
fn remove_refuses_zero_and_past_end() {
    let mut g = connected(1);
    for name in ["a", "b", "c"] {
        g.enqueue(track(name)).unwrap();
    }
    assert!(matches!(g.remove(0), Err(MusicError::InvalidPosition)));
    assert!(matches!(g.remove(3), Err(MusicError::InvalidPosition)));
    assert_eq!(titles(&g).1.len(), 2);
    let removed = g.remove(2).unwrap();
    assert_eq!(removed.title, "c");
    let removed = g.remove(1).unwrap();
    assert_eq!(removed.title, "b");
    assert_eq!(titles(&g), (Some("a".to_string()), vec![]));
    assert!(matches!(GuildPlayer::new().remove(1), Err(MusicError::InvalidPosition)));
}

#[test]
fn clear_keeps_current_track() {
    let mut g = connected(1);
    for name in ["a", "b", "c"] {
        g.enqueue(track(name)).unwrap();
    }
    assert_eq!(g.clear(), Ok(()));
    assert_eq!(titles(&g), (Some("a".to_string()), vec![]));
    assert_eq!(GuildPlayer::new().clear(), Err(MusicError::NotConnected));
}

#[test]
fn join_while_joined_fails_and_keeps_session() {
    let mut g = connected(3);
    assert_eq!(g.begin_join(), Err(MusicError::AlreadyConnected));
    let out = g.finish_join(4, JoinStep::Connected);
    assert_eq!(out.result, Err(MusicError::AlreadyConnected));
    assert!(out.effects.is_empty());
    assert_eq!(g.session_channel(), Some(3));
    assert_eq!(g.plan_summon(Some(4)), Err(MusicError::AlreadyConnected));
}

#[test]
fn leave_without_session_fails_and_changes_nothing() {
    let mut g = GuildPlayer::new();
    assert!(matches!(g.leave(), Err(MusicError::NotConnected)));
    assert_eq!(g.session_channel(), None);
    assert!(!g.timer_armed());
    assert_eq!(titles(&g), (None, vec![]));
}

#[test]
fn leave_tears_down_node_then_transport() {
    let mut g = connected(3);
    g.enqueue(track("a")).unwrap();
    g.enqueue(track("b")).unwrap();
    let effects = g.leave().unwrap();
    assert_eq!(effects.len(), 2);
    assert!(matches!(effects[0], Effect::DestroyNodeSession));
    assert!(matches!(effects[1], Effect::LeaveTransport));
    assert_eq!(g.session_channel(), None);
    assert_eq!(titles(&g), (None, vec![]));
    assert!(!g.timer_armed());
}

#[test]
fn failed_joins_leave_no_session() {
    let mut g = GuildPlayer::new();
    let out = g.finish_join(8, JoinStep::TransportFailed);
    assert_eq!(out.result, Err(MusicError::TransportError));
    assert!(out.effects.is_empty());
    assert_eq!(g.session_channel(), None);
    let out = g.finish_join(8, JoinStep::NodeFailed);
    assert_eq!(out.result, Err(MusicError::NodeError));
    assert_eq!(out.effects.len(), 1);
    assert!(matches!(out.effects[0], Effect::LeaveTransport));
    assert_eq!(g.session_channel(), None);
}

#[test]
fn join_arms_the_idle_timer_until_something_plays() {
    let mut g = GuildPlayer::new();
    let out = g.finish_join(8, JoinStep::Connected);
    assert_eq!(out.effects.len(), 1);
    let token = match out.effects[0] {
        Effect::ScheduleIdleCheck(t) => t,
        _ => panic!("expected an idle check"),
    };
    assert!(g.timer_armed());
    let effects = g.timer_fired(token);
    assert_eq!(effects.len(), 2);
    assert!(matches!(effects[0], Effect::DestroyNodeSession));
    assert!(matches!(effects[1], Effect::LeaveTransport));
    assert_eq!(g.session_channel(), None);
}

#[test]
fn stop_empties_queue_and_arms_timer() {
    let mut g = connected(2);
    g.enqueue(track("a")).unwrap();
    g.enqueue(track("b")).unwrap();
    let effects = g.stop().unwrap();
    assert!(matches!(effects[0], Effect::Stop));
    assert!(matches!(effects[1], Effect::ScheduleIdleCheck(_)));
    assert_eq!(titles(&g), (None, vec![]));
    assert!(g.timer_armed());
    assert_eq!(g.session_channel(), Some(2));
}

#[test]
fn commands_without_session_are_refused() {
    let mut g = GuildPlayer::new();
    assert!(matches!(g.enqueue(track("a")), Err(MusicError::NotConnected)));
    assert!(matches!(g.skip(), Err(MusicError::NotConnected)));
    assert!(matches!(g.stop(), Err(MusicError::NotConnected)));
    assert!(matches!(g.pause(), Err(MusicError::NotConnected)));
    assert!(matches!(g.resume(), Err(MusicError::NotConnected)));
    assert!(matches!(g.seek(30), Err(MusicError::NotConnected)));
    assert!(g.track_finished().is_empty());
    assert!(g.node_disconnected().is_empty());
}

#[test]
fn seek_goes_to_the_node() {
    let g = connected(2);
    let effects = g.seek(90).unwrap();
    assert!(matches!(effects[0], Effect::Seek(90)));
}

#[test]
fn play_plan_checks_the_requester() {
    let g = connected(2);
    assert_eq!(g.plan_play(None), Err(MusicError::NoChannel));
    assert_eq!(g.plan_play(Some(3)), Err(MusicError::WrongChannel));
    assert_eq!(g.plan_play(Some(2)), Ok(PlayPlan::Ready));
    assert_eq!(GuildPlayer::new().plan_play(None), Err(MusicError::NoChannel));
    assert_eq!(GuildPlayer::new().plan_summon(None), Err(MusicError::NoChannel));
    assert_eq!(GuildPlayer::new().plan_summon(Some(6)), Ok(6));
}

#[test]
fn node_disconnect_reconciles_state() {
    let mut g = connected(2);
    g.enqueue(track("a")).unwrap();
    let effects = g.node_disconnected();
    assert_eq!(effects.len(), 1);
    assert!(matches!(effects[0], Effect::LeaveTransport));
    assert_eq!(g.session_channel(), None);
    assert_eq!(titles(&g), (None, vec![]));
}

#[test]
fn colocation_distinguishes_absent_bot() {
    let g = connected(2);
    assert_eq!(g.is_colocated(Some(2)), Colocation::Together);
    assert_eq!(g.is_colocated(Some(3)), Colocation::Apart);
    assert_eq!(g.is_colocated(None), Colocation::Apart);
    assert_eq!(GuildPlayer::new().is_colocated(Some(2)), Colocation::BotAbsent);
    assert!(get_voice_state(Some(2), Some(2)));
    assert!(!get_voice_state(Some(2), Some(3)));
    assert!(!get_voice_state(None, None));
    assert!(!get_voice_state(None, Some(3)));
}

#[test]
fn teardown_reports_first_failure() {
    assert_eq!(teardown_result(true, true), Ok(()));
    assert_eq!(teardown_result(false, false), Err(MusicError::NodeError));
    assert_eq!(teardown_result(false, true), Err(MusicError::NodeError));
    assert_eq!(teardown_result(true, false), Err(MusicError::TransportError));
}

#[test]
fn rearming_leaves_one_live_timer() {
    let mut t = IdleTimer::new();
    let first = t.arm();
    let second = t.arm();
    assert_ne!(first, second);
    assert!(!t.fire(first));
    assert!(t.fire(second));
    assert!(!t.fire(second));
    assert_eq!(IDLE_DELAY_SECS, 300);
}

#[test]
fn cancel_and_fire_exclude_each_other() {
    let mut t = IdleTimer::new();
    let token = t.arm();
    t.cancel();
    assert!(!t.fire(token));
    let token = t.arm();
    assert!(t.fire(token));
    let before = t;
    t.cancel();
    assert_eq!(t, before);
    let mut idle = IdleTimer::new();
    idle.cancel();
    assert_eq!(idle, IdleTimer::new());
}
