use session_bot::commands::endhost::{
    action_word, can_cancel_session, confirm_end, past_action_word, plan_end, CancelError,
};
use session_bot::config::Game;
use session_bot::scheduler::SchedulerPhase;
use session_bot::session::{Session, SessionStore, UserState};

fn store_with_session(time: i64) -> SessionStore {
    let mut store = SessionStore::new();
    let game = Game { name: "Chess".to_string(), channel_id: 5, role_id: 9 };
    store.create(Session::new(game, SchedulerPhase::Armed, time, 777, 42)).unwrap();
    store
}

#[test]
fn host_and_admins_may_cancel() {
    let admins = vec![100, 101];
    assert!(can_cancel_session(42, 42, &admins));
    assert!(can_cancel_session(100, 42, &admins));
    assert!(can_cancel_session(101, 42, &admins));
    assert!(!can_cancel_session(7, 42, &admins));
}

#[test]
fn end_words_follow_the_started_state() {
    assert_eq!(action_word(false), "cancel");
    assert_eq!(action_word(true), "end");
    assert_eq!(past_action_word(false), "cancelled");
    assert_eq!(past_action_word(true), "ended");
}

#[test]
fn end_needs_a_session() {
    let store = SessionStore::new();
    assert_eq!(plan_end(&store, 42, &vec![], 0), Err(CancelError::NoSession));
}

#[test]
fn end_needs_permission() {
    let store = store_with_session(1000);
    assert_eq!(plan_end(&store, 7, &vec![], 0), Err(CancelError::NotPermitted));
}

#[test]
fn end_reports_whether_the_session_started() {
    let store = store_with_session(1000);
    assert_eq!(plan_end(&store, 42, &vec![], 999), Ok(false));
    assert_eq!(plan_end(&store, 42, &vec![], 1000), Ok(true));
}

#[test]
fn confirm_clears_atomically() {
    // After a confirmed end, no session is present and the returned timer
    // can fire no further checkpoint.
    let mut store = store_with_session(1000);
    store.set_rsvp(1, UserState::Will);
    let outcome = confirm_end(&mut store, 42, &vec![], 500).unwrap();
    assert!(!store.present());
    assert_eq!(outcome.session.handle, SchedulerPhase::Cancelled);
    assert!(!outcome.started);
}

#[test]
fn cancelling_a_pending_session_tags_committed_users() {
    let mut store = store_with_session(1000);
    store.set_rsvp(1, UserState::Will);
    store.set_rsvp(2, UserState::May);
    store.set_rsvp(3, UserState::Will);
    let outcome = confirm_end(&mut store, 42, &vec![], 500).unwrap();
    assert_eq!(outcome.closing_line, "<@1>, <@3>: Chess Session has been cancelled!");
}

#[test]
fn cancelling_without_commitments_tags_nobody() {
    let mut store = store_with_session(1000);
    store.set_rsvp(2, UserState::May);
    let outcome = confirm_end(&mut store, 42, &vec![], 500).unwrap();
    assert_eq!(outcome.closing_line, "Chess Session has been cancelled!");
}

#[test]
fn ending_a_started_session_tags_nobody() {
    let mut store = store_with_session(1000);
    store.set_rsvp(1, UserState::Will);
    let outcome = confirm_end(&mut store, 42, &vec![], 2000).unwrap();
    assert!(outcome.started);
    assert_eq!(outcome.closing_line, "Chess Session has been ended!");
}

#[test]
fn confirm_refusals_change_nothing() {
    let mut store = store_with_session(1000);
    store.set_rsvp(1, UserState::Will);
    assert!(matches!(confirm_end(&mut store, 7, &vec![], 500), Err(CancelError::NotPermitted)));
    assert!(store.present());
    assert_eq!(store.session().users.get(1), Some(UserState::Will));
    assert_eq!(store.session().handle, SchedulerPhase::Armed);

    let mut empty = SessionStore::new();
    assert!(matches!(confirm_end(&mut empty, 42, &vec![], 500), Err(CancelError::NoSession)));
    assert!(!empty.present());
}

#[test]
fn admins_may_confirm_too() {
    let mut store = store_with_session(1000);
    let outcome = confirm_end(&mut store, 100, &vec![100], 500).unwrap();
    assert!(!store.present());
    assert_eq!(outcome.session.host, 42);
}
