//! The session timer as a state machine. A background task owns one value of
//! this machine per session: it sleeps for the returned wait, advances the
//! phase, performs the announced action, and repeats. Cancellation moves any
//! phase that could still fire into a terminal phase, from which no further
//! checkpoint is ever announced. The sleeping itself is the unverified
//! shell's job; everything the task decides is here.

use vstd::prelude::*;

use crate::clock::valid_minutes;

verus! {

/// Minutes before the start time at which the reminder checkpoint fires.
pub const REMINDER_LEAD_MINUTES: i64 = 10;

/// Minutes after the start checkpoint at which the follow-up checkpoint
/// fires.
pub const FOLLOW_UP_DELAY_MINUTES: i64 = 10;

/// Where the timer task stands. The phases advance strictly in order;
/// `Cancelled` is reachable from every phase but `Done` and is terminal.
#[derive(Clone, Copy, Debug, PartialEq, Eq, Structural)]
pub enum SchedulerPhase {
    /// Waiting for the reminder checkpoint.
    Armed,
    /// The reminder was announced; waiting for the start checkpoint.
    ReminderFired,
    /// The start was announced; waiting for the follow-up checkpoint.
    StartFired,
    /// The follow-up was made; nothing is left to fire.
    FollowUpFired,
    /// The task ran to completion.
    Done,
    /// The task was cancelled; nothing further fires.
    Cancelled,
}

/// The side effect a checkpoint asks for.
#[derive(Clone, Copy, Debug, PartialEq, Eq, Structural)]
pub enum CheckpointAction {
    /// Announce to the activity's channel that the session starts soon,
    /// tagging the activity's role.
    AnnounceReminder,
    /// Announce the start with the participant counts, and refresh the bot's
    /// presence.
    AnnounceStart,
    /// Tag the committed participants who are not in the voice channel.
    FollowUpPing,
}

/// True while the task still has a checkpoint left to fire.
pub open spec fn can_fire(p: SchedulerPhase) -> bool {
    p is Armed || p is ReminderFired || p is StartFired
}

/// The next phase and the checkpoint action fired on the way there.
pub open spec fn spec_advance(p: SchedulerPhase) -> (SchedulerPhase, Option<CheckpointAction>) {
    match p {
        SchedulerPhase::Armed => (SchedulerPhase::ReminderFired, Some(CheckpointAction::AnnounceReminder)),
        SchedulerPhase::ReminderFired => (SchedulerPhase::StartFired, Some(CheckpointAction::AnnounceStart)),
        SchedulerPhase::StartFired => (SchedulerPhase::FollowUpFired, Some(CheckpointAction::FollowUpPing)),
        SchedulerPhase::FollowUpFired => (SchedulerPhase::Done, None),
        SchedulerPhase::Done => (SchedulerPhase::Done, None),
        SchedulerPhase::Cancelled => (SchedulerPhase::Cancelled, None),
    }
}

/// The phase after an external cancellation: terminal, from any phase that
/// has not already run to completion.
pub open spec fn spec_cancel(p: SchedulerPhase) -> SchedulerPhase {
    if p is Done {
        SchedulerPhase::Done
    } else {
        SchedulerPhase::Cancelled
    }
}

/// `x`, floored at zero.
pub open spec fn max0(x: int) -> int {
    if x >= 0 {
        x
    } else {
        0
    }
}

/// Advances the timer to its next phase, returning the new phase and the
/// checkpoint action, if any, that fires on this transition.
pub fn advance(p: SchedulerPhase) -> (r: (SchedulerPhase, Option<CheckpointAction>))
    ensures
        r == spec_advance(p),
{
    match p {
        SchedulerPhase::Armed => (
            SchedulerPhase::ReminderFired,
            Some(CheckpointAction::AnnounceReminder),
        ),
        SchedulerPhase::ReminderFired => (
            SchedulerPhase::StartFired,
            Some(CheckpointAction::AnnounceStart),
        ),
        SchedulerPhase::StartFired => (
            SchedulerPhase::FollowUpFired,
            Some(CheckpointAction::FollowUpPing),
        ),
        SchedulerPhase::FollowUpFired => (SchedulerPhase::Done, None),
        SchedulerPhase::Done => (SchedulerPhase::Done, None),
        SchedulerPhase::Cancelled => (SchedulerPhase::Cancelled, None),
    }
}

/// Cancels the timer: after this, no checkpoint can fire.
pub fn cancel(p: SchedulerPhase) -> (r: SchedulerPhase)
    ensures
        r == spec_cancel(p),
        !can_fire(r),
{
    match p {
        SchedulerPhase::Done => SchedulerPhase::Done,
        _ => SchedulerPhase::Cancelled,
    }
}

/// How long, in minutes, the task sleeps before the next checkpoint of phase
/// `p`, for a session starting at `start` when the clock stands at `now`; or
/// nothing when no checkpoint is left. A checkpoint whose moment has already
/// passed fires immediately rather than being skipped.
pub fn wait_minutes(p: SchedulerPhase, start: i64, now: i64) -> (r: Option<i64>)
    requires
        valid_minutes(start as int),
        valid_minutes(now as int),
    ensures
        r is Some <==> can_fire(p),
        p is Armed ==> r == Some((max0(start - REMINDER_LEAD_MINUTES - now) as i64)),
        p is ReminderFired ==> r == Some((max0(start - now) as i64)),
        p is StartFired ==> r == Some(FOLLOW_UP_DELAY_MINUTES),
{
    match p {
        SchedulerPhase::Armed => {
            let target = start - REMINDER_LEAD_MINUTES;
            if now <= target {
                Some(target - now)
            } else {
                Some(0)
            }
        },
        SchedulerPhase::ReminderFired => {
            if now <= start {
                Some(start - now)
            } else {
                Some(0)
            }
        },
        SchedulerPhase::StartFired => Some(FOLLOW_UP_DELAY_MINUTES),
        _ => None,
    }
}

/// Cancellation is terminal: a cancelled timer can fire no further
/// checkpoint, and advancing it changes nothing and announces nothing.
pub proof fn lemma_cancel_silences(p: SchedulerPhase)
    ensures
        !can_fire(spec_cancel(p)),
        spec_advance(spec_cancel(p)).0 == spec_cancel(p),
        spec_advance(spec_cancel(p)).1 is None,
{
}

} // verus!
