//! The bot's presence line: what the bot shows it is playing, and with which
//! availability, as a pure function of the session state. The transport
//! layer only pushes the chosen pair to the platform.

use vstd::prelude::*;
use vstd::string::StringExecFns;

use crate::session::SessionStore;
use crate::text::{dec_two_digits, two_digit_string};

verus! {

/// The availability shown next to the presence line.
#[derive(Clone, Copy, Debug, PartialEq, Eq, Structural)]
pub enum PresenceStatus {
    /// No session: plainly online.
    Online,
    /// A session is pending: idle until it starts.
    Idle,
    /// A session is running: do not disturb.
    DoNotDisturb,
}

/// The presence for a pending session: the activity, its start as a clock
/// face, and the configured time zone text.
pub open spec fn spec_pending_presence(
    game_name: Seq<char>,
    time: int,
    timezone_text: Seq<char>,
) -> Seq<char> {
    game_name + " | "@ + dec_two_digits((time % 1440 / 60) as nat) + ":"@ + dec_two_digits(
        (time % 60) as nat,
    ) + " "@ + timezone_text
}

/// Chooses the bot's presence: `activity | Now!` and do-not-disturb while a
/// session runs; `activity | HH:MM zone` and idle while one is pending; the
/// configured idle text and online when none is present.
pub fn presence_for(store: &SessionStore, now: i64, timezone_text: &str, idle_text: &str) -> (r: (
    String,
    PresenceStatus,
))
    requires
        store.wf(),
        store.is_present() ==> 0 <= store.the_session().time,
    ensures
        store.spec_started(now as int) ==> r.1 is DoNotDisturb && r.0@
            == store.the_session().game.name@ + " | Now!"@,
        store.is_present() && !store.spec_started(now as int) ==> r.1 is Idle && r.0@
            == spec_pending_presence(
            store.the_session().game.name@,
            store.the_session().time as int,
            timezone_text@,
        ),
        !store.is_present() ==> r.1 is Online && r.0@ == idle_text@,
{
    if store.started(now) {
        let mut s = store.session().game.name.clone();
        s.append(" | Now!");
        (s, PresenceStatus::DoNotDisturb)
    } else if store.present() {
        let time = store.session().time;
        let hour = (time % 1440) / 60;
        let minute = time % 60;
        let mut s = store.session().game.name.clone();
        s.append(" | ");
        let hh = two_digit_string(hour as u64);
        s.append(hh.as_str());
        s.append(":");
        let mm = two_digit_string(minute as u64);
        s.append(mm.as_str());
        s.append(" ");
        s.append(timezone_text);
        (s, PresenceStatus::Idle)
    } else {
        (idle_text.to_owned(), PresenceStatus::Online)
    }
}

} // verus!
