//! The end-host command and its confirmation controls. Ending is permitted
//! only to the session's host or a configured administrator; confirming it
//! cancels the timer before the slot is cleared, so that no checkpoint can
//! fire afterwards, and yields the closing announcement.

use vstd::prelude::*;
use vstd::string::StringExecFns;

use crate::commands::interaction_handler::InteractionHandler;
use crate::commands::status::{roster_line, users_with_state};
use crate::config::is_admin;
use crate::scheduler;
use crate::session::{count_state, Session, SessionStore, UserState};

verus! {

/// The command that ends or cancels the current session.
#[derive(Clone, Copy)]
pub struct EndHost;

impl InteractionHandler for EndHost {
    open spec fn spec_name(&self) -> Seq<char> {
        "endhost"@
    }

    fn name(&self) -> (r: &'static str)
        ensures
            r@ == self.spec_name(),
    {
        "endhost"
    }
}

/// The confirmation control that really ends the session.
#[derive(Clone, Copy)]
pub struct EndHostButtonYes;

/// The confirmation control that leaves everything unchanged.
#[derive(Clone, Copy)]
pub struct EndHostButtonNo;

impl InteractionHandler for EndHostButtonYes {
    open spec fn spec_name(&self) -> Seq<char> {
        "endhost-yes"@
    }

    fn name(&self) -> (r: &'static str)
        ensures
            r@ == self.spec_name(),
    {
        "endhost-yes"
    }
}

impl InteractionHandler for EndHostButtonNo {
    open spec fn spec_name(&self) -> Seq<char> {
        "endhost-no"@
    }

    fn name(&self) -> (r: &'static str)
        ensures
            r@ == self.spec_name(),
    {
        "endhost-no"
    }
}

/// Why a session could not be ended.
#[derive(Clone, Copy, Debug, PartialEq, Eq, Structural)]
pub enum CancelError {
    /// No session is running.
    NoSession,
    /// The invoker is neither the host nor an administrator.
    NotPermitted,
}

/// Whether `user` may cancel a session hosted by `host`: the host may, and
/// so may any configured administrator.
pub fn can_cancel_session(user: u64, host: u64, admins: &Vec<u64>) -> (r: bool)
    ensures
        r == (user == host || admins@.contains(user)),
{
    user == host || is_admin(admins, user)
}

/// The verb for tearing a session down: a started session is ended, a
/// pending one cancelled.
pub open spec fn spec_action_word(started: bool) -> Seq<char> {
    if started {
        "end"@
    } else {
        "cancel"@
    }
}

/// The same verb in the past tense.
pub open spec fn spec_past_action_word(started: bool) -> Seq<char> {
    if started {
        "ended"@
    } else {
        "cancelled"@
    }
}

/// The verb for tearing the session down, for the confirmation prompt.
pub fn action_word(started: bool) -> (r: &'static str)
    ensures
        r@ == spec_action_word(started),
{
    if started {
        "end"
    } else {
        "cancel"
    }
}

/// The past tense of the teardown verb, for the closing announcements.
pub fn past_action_word(started: bool) -> (r: &'static str)
    ensures
        r@ == spec_past_action_word(started),
{
    if started {
        "ended"
    } else {
        "cancelled"
    }
}

/// Plans the end command: refused when no session runs or the invoker lacks
/// permission; otherwise whether the session has started, which picks the
/// end or cancel vocabulary of the confirmation prompt.
pub fn plan_end(store: &SessionStore, user: u64, admins: &Vec<u64>, now: i64) -> (r: Result<
    bool,
    CancelError,
>)
    requires
        store.wf(),
    ensures
        !store.is_present() ==> r == Err::<bool, CancelError>(CancelError::NoSession),
        store.is_present() && !(user == store.the_session().host || admins@.contains(user)) ==> r
            == Err::<bool, CancelError>(CancelError::NotPermitted),
        store.is_present() && (user == store.the_session().host || admins@.contains(user)) ==> r
            == Ok::<bool, CancelError>(store.spec_started(now as int)),
{
    if !store.present() {
        return Err(CancelError::NoSession);
    }
    if !can_cancel_session(user, store.session().host, admins) {
        return Err(CancelError::NotPermitted);
    }
    Ok(store.started(now))
}

/// The closing announcement: for a session cancelled before its start, the
/// committed participants are tagged first; then the activity's name and the
/// past-tense verb.
pub open spec fn spec_closing_line(
    users: Seq<(u64, UserState)>,
    game_name: Seq<char>,
    started: bool,
) -> Seq<char> {
    (if !started && count_state(users, UserState::Will) > 0 {
        roster_line(users, UserState::Will) + ": "@
    } else {
        Seq::<char>::empty()
    }) + game_name + " Session has been "@ + spec_past_action_word(started) + "!"@
}

/// What a confirmed end leaves behind: the cancelled session, whether it had
/// started, and the closing announcement.
pub struct EndOutcome {
    pub session: Session,
    pub started: bool,
    pub closing_line: String,
}

/// Confirms the end of the session. Refused — leaving everything unchanged —
/// when no session runs or the invoker lacks permission. Otherwise the timer
/// is cancelled, the slot is emptied atomically, and the outcome carries the
/// closing announcement: after this, no session is present and no checkpoint
/// can fire.
pub fn confirm_end(store: &mut SessionStore, user: u64, admins: &Vec<u64>, now: i64) -> (r: Result<
    EndOutcome,
    CancelError,
>)
    requires
        old(store).wf(),
    ensures
        final(store).wf(),
        !old(store).is_present() ==> r == Err::<EndOutcome, CancelError>(CancelError::NoSession)
            && *final(store) == *old(store),
        old(store).is_present() && !(user == old(store).the_session().host || admins@.contains(
            user,
        )) ==> r == Err::<EndOutcome, CancelError>(CancelError::NotPermitted) && *final(store)
            == *old(store),
        old(store).is_present() && (user == old(store).the_session().host || admins@.contains(user))
            ==> (match r {
            Ok(outcome) => {
                &&& !final(store).is_present()
                &&& outcome.session.handle == scheduler::spec_cancel(
                    old(store).the_session().handle,
                )
                &&& !scheduler::can_fire(outcome.session.handle)
                &&& outcome.session.game == old(store).the_session().game
                &&& outcome.session.users == old(store).the_session().users
                &&& outcome.session.time == old(store).the_session().time
                &&& outcome.session.message_id == old(store).the_session().message_id
                &&& outcome.session.host == old(store).the_session().host
                &&& outcome.started == old(store).spec_started(now as int)
                &&& outcome.closing_line@ == spec_closing_line(
                    old(store).the_session().users@,
                    old(store).the_session().game.name@,
                    old(store).spec_started(now as int),
                )
            },
            Err(_) => false,
        }),
{
    if !store.present() {
        return Err(CancelError::NoSession);
    }
    if !can_cancel_session(user, store.session().host, admins) {
        return Err(CancelError::NotPermitted);
    }
    let started = store.started(now);

    let mut closing = String::new();
    if !started {
        let (pings, count) = users_with_state(&store.session().users, UserState::Will);
        if count > 0 {
            closing.append(pings.as_str());
            closing.append(": ");
        }
    }
    closing.append(store.session().game.name.as_str());
    closing.append(" Session has been ");
    closing.append(past_action_word(started));
    closing.append("!");
    assert(closing@ =~= spec_closing_line(
        store.the_session().users@,
        store.the_session().game.name@,
        started,
    ));

    match store.end_session() {
        Some(session) => Ok(EndOutcome { session, started, closing_line: closing }),
        None => unreached(),
    }
}

} // verus!
