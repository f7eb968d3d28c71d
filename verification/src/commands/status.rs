//! The status command: the embed summarising the session's roster and the
//! time left until its start. Every line of the summary is specified down to
//! its characters.

use vstd::prelude::*;
use vstd::string::{StrSliceExecFns, StringExecFns};

use crate::clock::{valid_minutes, MINUTES_PER_DAY};
use crate::commands::interaction_handler::InteractionHandler;
use crate::embed::{Embed, EmbedSection};
use crate::session::{count_state, UserMap, UserState};
use crate::text::{dec_digits, dec_signed, i64_to_string, u64_to_string};

verus! {

/// The colour of the status embed.
pub const STATUS_COLOUR: u32 = 0xF4ADF9;

/// Bound on the second counts the calendar library can produce for any
/// representable date.
pub const MAX_UNIX_SECONDS: i64 = 10_000_000_000_000;

/// The status command.
#[derive(Clone, Copy)]
pub struct Status;

impl InteractionHandler for Status {
    open spec fn spec_name(&self) -> Seq<char> {
        "status"@
    }

    fn name(&self) -> (r: &'static str)
        ensures
            r@ == self.spec_name(),
    {
        "status"
    }
}

/// The mention of one participant.
pub open spec fn mention(u: u64) -> Seq<char> {
    "<@"@ + dec_digits(u as nat) + ">"@
}

/// The mentions of every participant whose answer is `st`, in roster order,
/// each followed by a comma and a space.
pub open spec fn pings_of(s: Seq<(u64, UserState)>, st: UserState) -> Seq<char>
    decreases s.len(),
{
    if s.len() == 0 {
        Seq::empty()
    } else {
        pings_of(s.drop_last(), st) + (if s.last().1 == st {
            mention(s.last().0) + ", "@
        } else {
            Seq::empty()
        })
    }
}

/// The roster line for one answer: `Nobody`, or the mentions with the final
/// separator trimmed away.
pub open spec fn roster_line(s: Seq<(u64, UserState)>, st: UserState) -> Seq<char> {
    if count_state(s, st) == 0 {
        "Nobody"@
    } else {
        pings_of(s, st).take(pings_of(s, st).len() - 2)
    }
}

/// With nobody in a state the ping text is empty; with somebody in it, it
/// ends in the two separator characters that the roster line trims.
proof fn lemma_pings_len(s: Seq<(u64, UserState)>, st: UserState)
    ensures
        count_state(s, st) == 0 ==> pings_of(s, st).len() == 0,
        count_state(s, st) > 0 ==> pings_of(s, st).len() >= 2,
    decreases s.len(),
{
    reveal_strlit("<@");
    reveal_strlit(">");
    reveal_strlit(", ");
    if s.len() > 0 {
        lemma_pings_len(s.drop_last(), st);
    }
}

/// Builds the mention of one participant.
pub fn mention_string(u: u64) -> (r: String)
    ensures
        r@ == mention(u),
{
    let mut s = "<@".to_owned();
    let digits = u64_to_string(u);
    s.append(digits.as_str());
    s.append(">");
    s
}

/// The ping line for every participant whose answer is `state`, and how many
/// there are: `Nobody` when there are none, else the mentions separated by
/// commas.
pub fn users_with_state(user_map: &UserMap, state: UserState) -> (r: (String, u64))
    ensures
        r.1 == count_state(user_map@, state),
        r.0@ == roster_line(user_map@, state),
{
    let ghost all = user_map@;
    let n = user_map.len();
    let mut s = String::new();
    let mut count: u64 = 0;
    for i in 0..n
        invariant
            all == user_map@,
            n == all.len(),
            s@ == pings_of(all.take(i as int), state),
            count == count_state(all.take(i as int), state),
            count <= i,
    {
        proof {
            assert(all.take(i + 1).drop_last() =~= all.take(i as int));
            assert(all.take(i + 1).last() == all[i as int]);
        }
        let entry = user_map.entry_at(i);
        if entry.1 == state {
            let m = mention_string(entry.0);
            s.append(m.as_str());
            s.append(", ");
            count = count + 1;
        }
        assert(s@ =~= pings_of(all.take(i + 1), state));
    }
    proof {
        assert(all.take(n as int) =~= all);
        lemma_pings_len(all, state);
    }
    if count == 0 {
        ("Nobody".to_owned(), 0)
    } else {
        let total = s.as_str().unicode_len();
        let trimmed = s.as_str().substring_char(0, total - 2).to_owned();
        assert(trimmed@ =~= roster_line(all, state));
        (trimmed, count)
    }
}

/// An empty sequence for one of something, the letter `s` for any other
/// count.
pub open spec fn plural_s(n: int) -> Seq<char> {
    if n == 1 {
        Seq::empty()
    } else {
        "s"@
    }
}

/// The time-left line for a pending session: the hours and minutes until the
/// start, grammar adjusted, and the platform's clock tag holding the start's
/// second count.
pub open spec fn spec_time_line(delta: int, ts: int) -> Seq<char> {
    let hours = (delta / 60) % 24;
    let minutes = delta % 60;
    (if hours > 0 {
        dec_digits(hours as nat) + " hour"@ + plural_s(hours) + " and "@
    } else {
        Seq::empty()
    }) + dec_digits(minutes as nat) + " minute"@ + plural_s(minutes) + " | <t:"@ + dec_signed(ts)
        + ">"@
}

/// Builds the time-left line for a session `delta` minutes away whose start
/// is at second count `ts`.
pub fn time_left_line(delta: i64, ts: i64) -> (r: String)
    requires
        0 < delta,
        -MAX_UNIX_SECONDS <= ts <= MAX_UNIX_SECONDS,
    ensures
        r@ == spec_time_line(delta as int, ts as int),
{
    let hours = (delta / 60) % 24;
    let minutes = delta % 60;
    let mut s = String::new();
    if hours > 0 {
        let digits = u64_to_string(hours as u64);
        s.append(digits.as_str());
        s.append(" hour");
        if hours != 1 {
            s.append("s");
        }
        s.append(" and ");
    }
    let digits = u64_to_string(minutes as u64);
    s.append(digits.as_str());
    s.append(" minute");
    if minutes != 1 {
        s.append("s");
    }
    s.append(" | <t:");
    let ts_digits = i64_to_string(ts);
    s.append(ts_digits.as_str());
    s.append(">");
    assert(s@ =~= spec_time_line(delta as int, ts as int));
    s
}

/// The status embed for a session with roster `users`, starting at local
/// minute `time`, seen at local minute `now`, whose start is at second count
/// `unix_ts`: the three roster sections and the time-left section.
pub fn status_embed_with_timestamp(users: &UserMap, time: i64, now: i64, unix_ts: i64) -> (r:
    Embed)
    requires
        valid_minutes(time as int),
        valid_minutes(now as int),
        -MAX_UNIX_SECONDS <= unix_ts <= MAX_UNIX_SECONDS,
    ensures
        r.title@ == "Session Status"@,
        r.colour == STATUS_COLOUR,
        r.description is None,
        r.image is None,
        r.sections@.len() == 4,
        r.sections@[0].title@ == "People who are sure: "@ + dec_digits(
            count_state(users@, UserState::Will),
        ),
        r.sections@[0].content@ == roster_line(users@, UserState::Will),
        r.sections@[1].title@ == "People who are unsure: "@ + dec_digits(
            count_state(users@, UserState::May),
        ),
        r.sections@[1].content@ == roster_line(users@, UserState::May),
        r.sections@[2].title@ == "People who dont want to: "@ + dec_digits(
            count_state(users@, UserState::Wont),
        ),
        r.sections@[2].content@ == roster_line(users@, UserState::Wont),
        r.sections@[3].title@ == "Time left until start"@,
        time <= now ==> r.sections@[3].content@ == "Already started!"@,
        time > now ==> r.sections@[3].content@ == spec_time_line(
            time - now,
            unix_ts as int,
        ),
{
    let (will_join, will_count) = users_with_state(users, UserState::Will);
    let (may_join, may_count) = users_with_state(users, UserState::May);
    let (wont_join, wont_count) = users_with_state(users, UserState::Wont);

    let mut sure_title = "People who are sure: ".to_owned();
    let digits = u64_to_string(will_count);
    sure_title.append(digits.as_str());

    let mut unsure_title = "People who are unsure: ".to_owned();
    let digits = u64_to_string(may_count);
    unsure_title.append(digits.as_str());

    let mut wont_title = "People who dont want to: ".to_owned();
    let digits = u64_to_string(wont_count);
    wont_title.append(digits.as_str());

    let time_str = if time <= now {
        "Already started!".to_owned()
    } else {
        time_left_line(time - now, unix_ts)
    };

    let mut sections: Vec<EmbedSection> = Vec::new();
    sections.push(EmbedSection { title: sure_title, content: will_join });
    sections.push(EmbedSection { title: unsure_title, content: may_join });
    sections.push(EmbedSection { title: wont_title, content: wont_join });
    sections.push(EmbedSection { title: "Time left until start".to_owned(), content: time_str });

    Embed {
        title: "Session Status".to_owned(),
        colour: STATUS_COLOUR,
        description: None,
        image: None,
        sections,
    }
}

/// The status embed for the held session, fetching the start's second count
/// from the calendar library; nothing when that count cannot be represented.
pub fn get_status_embed(users: &UserMap, time: i64, now: i64) -> (r: Option<Embed>)
    requires
        0 <= time,
        valid_minutes(time as int),
        valid_minutes(now as int),
    ensures
        r is Some ==> {
            &&& r->0.title@ == "Session Status"@
            &&& r->0.colour == STATUS_COLOUR
            &&& r->0.sections@.len() == 4
            &&& r->0.sections@[0].title@ == "People who are sure: "@ + dec_digits(
                count_state(users@, UserState::Will),
            )
            &&& r->0.sections@[0].content@ == roster_line(users@, UserState::Will)
            &&& r->0.sections@[1].title@ == "People who are unsure: "@ + dec_digits(
                count_state(users@, UserState::May),
            )
            &&& r->0.sections@[1].content@ == roster_line(users@, UserState::May)
            &&& r->0.sections@[2].title@ == "People who dont want to: "@ + dec_digits(
                count_state(users@, UserState::Wont),
            )
            &&& r->0.sections@[2].content@ == roster_line(users@, UserState::Wont)
            &&& r->0.sections@[3].title@ == "Time left until start"@
            &&& (time <= now ==> r->0.sections@[3].content@ == "Already started!"@)
            &&& (time > now ==> exists|ts: int|
                -MAX_UNIX_SECONDS <= ts <= MAX_UNIX_SECONDS && r->0.sections@[3].content@
                    == #[trigger] spec_time_line(time - now, ts))
        },
{
    let days = time / MINUTES_PER_DAY;
    let rest = time % MINUTES_PER_DAY;
    let hour = rest / 60;
    let minute = rest % 60;
    match local_unix_timestamp(days as i32, hour as u32, minute as u32) {
        Some(ts) => Some(status_embed_with_timestamp(users, time, now, ts)),
        None => None,
    }
}

/// Relies on `chrono::NaiveDate::from_num_days_from_ce_opt`,
/// `chrono::NaiveTime::from_hms_opt` and
/// `chrono::TimeZone::from_local_datetime` on the machine's local zone to
/// turn a local day number and time of day into a count of seconds since the
/// platform's epoch; the gap case of a zone transition falls back to the
/// universal reading of the same date. The count depends on the machine's
/// zone, so only its range is promised; a date the calendar cannot represent
/// gives nothing.
#[verifier::external_body]
fn local_unix_timestamp(days: i32, hour: u32, minute: u32) -> (r: Option<i64>)
    requires
        hour < 24,
        minute < 60,
    ensures
        r is Some ==> -MAX_UNIX_SECONDS <= r->0 <= MAX_UNIX_SECONDS,
{
    let date = chrono::NaiveDate::from_num_days_from_ce_opt(days)?;
    let time = chrono::NaiveTime::from_hms_opt(hour, minute, 0)?;
    let dt = chrono::NaiveDateTime::new(date, time);
    match chrono::TimeZone::from_local_datetime(&chrono::Local, &dt).earliest() {
        Some(local) => Some(local.timestamp()),
        None => Some(dt.and_utc().timestamp()),
    }
}

} // verus!
