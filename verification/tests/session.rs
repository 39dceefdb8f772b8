use jank_bot::error::SessionError;
use jank_bot::model::Phase;
use jank_bot::music::MusicParams;
use jank_bot::session::{leave, leave_done, summon_joined, LeaveStep, SummonStep};
use jank_bot::volume::Volume;

fn playing_x_with_y_pending() -> MusicParams<u32> {
    let mut state = MusicParams::new(Volume::new(1.0f32.to_bits()).unwrap(), 3);
    state.enqueue("http://x".to_string()).unwrap();
    state.enqueue("http://y".to_string()).unwrap();
    let ticket = state.on_tick().unwrap();
    state.on_started(ticket.generation, "X".to_string(), 11).unwrap();
    state
}

fn both() -> Vec<String> {
    vec!["http://x".to_string(), "http://y".to_string()]
}

#[test]
fn summon_refuses_a_requester_outside_every_voice_channel() {
    let mut state = playing_x_with_y_pending();
    assert_eq!(state.summon(None, false), SummonStep::Refuse(SessionError::NotInChannel));
    assert_eq!(state.summon(None, true), SummonStep::Refuse(SessionError::NotInChannel));
    assert_eq!(state.current_song().unwrap().uri.as_str(), "http://x");
    assert_eq!(state.queue().uris(), vec!["http://y".to_string()]);
}

#[test]
fn summon_without_a_session_joins_at_once() {
    let mut state: MusicParams<u32> = MusicParams::new(Volume::new(0).unwrap(), 3);
    assert_eq!(state.summon(Some(40), false), SummonStep::Join { channel: 40 });
    assert_eq!(state.phase(), Phase::Idle);
    assert!(state.queue().is_empty());
}

#[test]
fn summon_without_a_session_requeues_a_track_left_over() {
    let mut state = playing_x_with_y_pending();
    assert_eq!(state.summon(Some(40), false), SummonStep::Join { channel: 40 });
    assert!(state.current_song().is_none());
    assert_eq!(state.queue().uris(), both());
}

#[test]
fn summon_with_a_session_leaves_it_first() {
    let mut state = playing_x_with_y_pending();
    assert_eq!(state.summon(Some(40), true), SummonStep::Leave { channel: 40 });
    assert_eq!(state.current_song().unwrap().uri.as_str(), "http://x");
    assert_eq!(state.queue().uris(), vec!["http://y".to_string()]);

    assert_eq!(state.summon_left(40, true), SummonStep::Join { channel: 40 });
    assert!(state.current_song().is_none());
    assert_eq!(state.queue().uris(), both());

    assert_eq!(summon_joined(true), SummonStep::Subscribe);
}

#[test]
fn summon_fails_when_the_old_session_cannot_be_removed() {
    let mut state = playing_x_with_y_pending();
    assert_eq!(state.summon(Some(40), true), SummonStep::Leave { channel: 40 });
    assert_eq!(state.summon_left(40, false), SummonStep::Refuse(SessionError::ConnectFailed));
    assert_eq!(state.current_song().unwrap().uri.as_str(), "http://x");
    assert_eq!(state.queue().uris(), vec!["http://y".to_string()]);
}

#[test]
fn summon_fails_when_the_join_fails() {
    assert_eq!(summon_joined(false), SummonStep::Refuse(SessionError::ConnectFailed));
}

#[test]
fn rejoin_then_tick_plays_the_requeued_track_first() {
    let mut state = playing_x_with_y_pending();
    state.summon(Some(40), true);
    state.summon_left(40, true);
    let ticket = state.on_tick().unwrap();
    assert_eq!(ticket.uri, "http://x");
    assert_eq!(state.queue().uris(), vec!["http://y".to_string()]);
}

#[test]
fn leave_needs_a_session() {
    assert_eq!(leave(true), LeaveStep::Disconnect);
    assert_eq!(leave(false), LeaveStep::Refuse(SessionError::NotConnected));
}

#[test]
fn leave_reports_how_the_removal_went() {
    assert_eq!(leave_done(Ok(())).text(), "Left voice channel");
    assert_eq!(
        leave_done(Err("Dropped".to_string())).text(),
        "Failed to leave voice channel: Dropped"
    );
}
