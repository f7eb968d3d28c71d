use session_bot::scheduler::{
    advance, cancel, wait_minutes, CheckpointAction, SchedulerPhase, FOLLOW_UP_DELAY_MINUTES,
};

#[test]
fn checkpoints_fire_in_order() {
    let (p, a) = advance(SchedulerPhase::Armed);
    assert_eq!(p, SchedulerPhase::ReminderFired);
    assert_eq!(a, Some(CheckpointAction::AnnounceReminder));

    let (p, a) = advance(p);
    assert_eq!(p, SchedulerPhase::StartFired);
    assert_eq!(a, Some(CheckpointAction::AnnounceStart));

    let (p, a) = advance(p);
    assert_eq!(p, SchedulerPhase::FollowUpFired);
    assert_eq!(a, Some(CheckpointAction::FollowUpPing));

    let (p, a) = advance(p);
    assert_eq!(p, SchedulerPhase::Done);
    assert_eq!(a, None);

    let (p, a) = advance(p);
    assert_eq!(p, SchedulerPhase::Done);
    assert_eq!(a, None);
}

#[test]
fn cancel_is_terminal() {
    // From any phase that has not run to completion, cancellation lands in
    // the cancelled phase, where nothing waits and nothing fires.
    for phase in [
        SchedulerPhase::Armed,
        SchedulerPhase::ReminderFired,
        SchedulerPhase::StartFired,
        SchedulerPhase::FollowUpFired,
        SchedulerPhase::Cancelled,
    ] {
        let c = cancel(phase);
        assert_eq!(c, SchedulerPhase::Cancelled);
        assert_eq!(wait_minutes(c, 1000, 0), None);
        let (next, action) = advance(c);
        assert_eq!(next, SchedulerPhase::Cancelled);
        assert_eq!(action, None);
    }
    assert_eq!(cancel(SchedulerPhase::Done), SchedulerPhase::Done);
}

#[test]
fn reminder_waits_until_ten_minutes_before() {
    // Armed at 19:00 for a 20:00 start: the reminder checkpoint is 19:50,
    // fifty minutes away.
    let start = 738000 * 1440 + 20 * 60;
    let now = 738000 * 1440 + 19 * 60;
    assert_eq!(wait_minutes(SchedulerPhase::Armed, start, now), Some(50));
}

#[test]
fn late_checkpoints_fire_immediately() {
    let start = 1000;
    assert_eq!(wait_minutes(SchedulerPhase::Armed, start, 995), Some(0));
    assert_eq!(wait_minutes(SchedulerPhase::ReminderFired, start, 1200), Some(0));
}

#[test]
fn start_checkpoint_waits_until_the_start() {
    let start = 1000;
    assert_eq!(wait_minutes(SchedulerPhase::ReminderFired, start, 990), Some(10));
}

#[test]
fn follow_up_comes_ten_minutes_after_start() {
    assert_eq!(
        wait_minutes(SchedulerPhase::StartFired, 1000, 1000),
        Some(FOLLOW_UP_DELAY_MINUTES)
    );
}

#[test]
fn finished_phases_wait_for_nothing() {
    assert_eq!(wait_minutes(SchedulerPhase::FollowUpFired, 1000, 0), None);
    assert_eq!(wait_minutes(SchedulerPhase::Done, 1000, 0), None);
    assert_eq!(wait_minutes(SchedulerPhase::Cancelled, 1000, 0), None);
}
