//! The host-game command and the three RSVP controls: resolving the
//! command's options, planning a session — refused when one already runs,
//! when the channel hosts no activity, or when the requested time is
//! malformed — and the announcement lines the timer's checkpoints send.

use vstd::prelude::*;
use vstd::string::StringExecFns;

use crate::clock::{
    hhmm_hour, hhmm_minute, rolled_start, valid_hhmm, valid_minutes, compute_start_time,
    parse_hhmm, MAX_CLOCK_MINUTES,
};
use crate::commands::interaction_handler::InteractionHandler;
use crate::commands::status::{mention, mention_string};
use crate::config::{contains_id, find_game_for_channel, spec_game_for_channel, Game};
use crate::session::{UserMap, UserState};
use crate::text::{dec_digits, u64_to_string};

verus! {

/// The command that hosts a new game session.
#[derive(Clone, Copy)]
pub struct HostGame;

impl InteractionHandler for HostGame {
    open spec fn spec_name(&self) -> Seq<char> {
        "hostgame"@
    }

    fn name(&self) -> (r: &'static str)
        ensures
            r@ == self.spec_name(),
    {
        "hostgame"
    }
}

/// The control with which a participant commits.
#[derive(Clone, Copy)]
pub struct ButtonYes;

/// The control with which a participant stays tentative.
#[derive(Clone, Copy)]
pub struct ButtonMaybe;

/// The control with which a participant declines.
#[derive(Clone, Copy)]
pub struct ButtonNo;

impl InteractionHandler for ButtonYes {
    open spec fn spec_name(&self) -> Seq<char> {
        "button-yes"@
    }

    fn name(&self) -> (r: &'static str)
        ensures
            r@ == self.spec_name(),
    {
        "button-yes"
    }
}

impl InteractionHandler for ButtonMaybe {
    open spec fn spec_name(&self) -> Seq<char> {
        "button-maybe"@
    }

    fn name(&self) -> (r: &'static str)
        ensures
            r@ == self.spec_name(),
    {
        "button-maybe"
    }
}

impl InteractionHandler for ButtonNo {
    open spec fn spec_name(&self) -> Seq<char> {
        "button-no"@
    }

    fn name(&self) -> (r: &'static str)
        ensures
            r@ == self.spec_name(),
    {
        "button-no"
    }
}

/// One option of a command invocation: its declared name and the text the
/// invoker gave.
#[derive(Clone, Debug)]
pub struct CommandOption {
    pub name: String,
    pub value: String,
}

/// The value of the last option named `key`, if any: when the platform hands
/// an option twice, the later one wins.
pub open spec fn last_option(options: Seq<CommandOption>, key: Seq<char>) -> Option<Seq<char>>
    decreases options.len(),
{
    if options.len() == 0 {
        None
    } else if options.last().name@ == key {
        Some(options.last().value@)
    } else {
        last_option(options.drop_last(), key)
    }
}

/// The value the options give for `key`, or `dflt` when they name none.
pub open spec fn spec_resolved(options: Seq<CommandOption>, key: Seq<char>, dflt: Seq<char>) -> Seq<
    char,
> {
    match last_option(options, key) {
        Some(v) => v,
        None => dflt,
    }
}

/// Resolves the invocation's options: the requested time, defaulting to the
/// configured one, and the description, defaulting to empty.
pub fn resolve_options(options: &Vec<CommandOption>, default_time: &str) -> (r: (String, String))
    ensures
        r.0@ == spec_resolved(options@, "time"@, default_time@),
        r.1@ == spec_resolved(options@, "description"@, Seq::<char>::empty()),
{
    proof {
        reveal_strlit("time");
        reveal_strlit("description");
    }
    let mut time: String = default_time.to_owned();
    let mut description: String = String::new();
    let time_key: String = "time".to_owned();
    let description_key: String = "description".to_owned();
    let n = options.len();
    for i in 0..n
        invariant
            n == options@.len(),
            time_key@ == "time"@,
            description_key@ == "description"@,
            time@ == spec_resolved(options@.take(i as int), "time"@, default_time@),
            description@ == spec_resolved(
                options@.take(i as int),
                "description"@,
                Seq::<char>::empty(),
            ),
    {
        proof {
            assert(options@.take(i + 1).drop_last() =~= options@.take(i as int));
            assert(options@.take(i + 1).last() == options@[i as int]);
        }
        if options[i].name == time_key {
            time = options[i].value.clone();
            proof {
                reveal_strlit("time");
                reveal_strlit("description");
                assert("time"@.len() == 4);
                assert("description"@.len() == 11);
                assert(options@[i as int].name@ != "description"@);
            }
        } else if options[i].name == description_key {
            description = options[i].value.clone();
        }
    }
    proof {
        assert(options@.take(n as int) =~= options@);
    }
    (time, description)
}

/// Why a session could not be created.
#[derive(Clone, Copy, Debug, PartialEq, Eq, Structural)]
pub enum CreateError {
    /// A session is already running; there is never more than one.
    AlreadyRunning,
    /// The requested time is not a time of day.
    InvalidTime,
    /// The invoking channel hosts no configured activity.
    NotGameChannel,
}

/// An accepted create request: which configured game, when the session
/// starts, and its description.
#[derive(Clone, Debug)]
pub struct CreatePlan {
    pub game_index: usize,
    pub start_minutes: i64,
    pub description: String,
}

/// Plans the create command: refused when a session is already present, when
/// the resolved time is malformed, or when the channel hosts no activity;
/// otherwise the chosen game, the start time — today's occurrence of the
/// requested time of day, rolled to the next day when already past — and the
/// description.
pub fn plan_create(
    present: bool,
    games: &Vec<Game>,
    default_time: &str,
    options: &Vec<CommandOption>,
    channel_id: u64,
    now: i64,
) -> (r: Result<CreatePlan, CreateError>)
    requires
        0 <= now <= MAX_CLOCK_MINUTES,
    ensures
        present ==> r == Err::<CreatePlan, CreateError>(CreateError::AlreadyRunning),
        !present && !valid_hhmm(spec_resolved(options@, "time"@, default_time@)) ==> r == Err::<
            CreatePlan,
            CreateError,
        >(CreateError::InvalidTime),
        !present && valid_hhmm(spec_resolved(options@, "time"@, default_time@))
            && spec_game_for_channel(games@, channel_id) is None ==> r == Err::<
            CreatePlan,
            CreateError,
        >(CreateError::NotGameChannel),
        !present && valid_hhmm(spec_resolved(options@, "time"@, default_time@))
            && spec_game_for_channel(games@, channel_id) is Some ==> (match r {
            Ok(plan) => ({
                let t = spec_resolved(options@, "time"@, default_time@);
                &&& spec_game_for_channel(games@, channel_id) == Some(plan.game_index as int)
                &&& plan.game_index < games@.len()
                &&& games@[plan.game_index as int].channel_id == channel_id
                &&& plan.start_minutes == rolled_start(now as int, hhmm_hour(t), hhmm_minute(t))
                &&& now <= plan.start_minutes
                &&& valid_minutes(plan.start_minutes as int)
                &&& plan.description@ == spec_resolved(
                    options@,
                    "description"@,
                    Seq::<char>::empty(),
                )
            }),
            Err(_) => false,
        }),
{
    if present {
        return Err(CreateError::AlreadyRunning);
    }
    let (time, description) = resolve_options(options, default_time);
    let (hour, minute) = match parse_hhmm(time.as_str()) {
        Some(hm) => hm,
        None => { return Err(CreateError::InvalidTime); },
    };
    let game_index = match find_game_for_channel(games, channel_id) {
        Some(i) => i,
        None => { return Err(CreateError::NotGameChannel); },
    };
    let start_minutes = compute_start_time(now, hour, minute);
    Ok(CreatePlan { game_index, start_minutes, description })
}

/// The reminder announcement: the activity's role tag and the notice that
/// the session starts soon.
pub fn reminder_line(role_id: u64) -> (r: String)
    ensures
        r@ == "<@&"@ + dec_digits(role_id as nat) + "> Session starting soon!"@,
{
    let mut s = "<@&".to_owned();
    let digits = u64_to_string(role_id);
    s.append(digits.as_str());
    s.append("> Session starting soon!");
    s
}

/// The word for a count of people: `person` for one, `people` otherwise.
pub open spec fn person_word(n: int) -> Seq<char> {
    if n == 1 {
        "person"@
    } else {
        "people"@
    }
}

/// The start announcement: the activity's name and how many committed,
/// grammar adjusted for the count.
pub fn start_announcement_line(game_name: &str, member_amount: u64) -> (r: String)
    ensures
        r@ == game_name@ + " Session has started! "@ + dec_digits(member_amount as nat) + " "@
            + person_word(member_amount as int) + " said Yes!"@,
{
    let mut s = game_name.to_owned();
    s.append(" Session has started! ");
    let digits = u64_to_string(member_amount);
    s.append(digits.as_str());
    s.append(" ");
    if member_amount == 1 {
        s.append("person");
    } else {
        s.append("people");
    }
    s.append(" said Yes!");
    s
}

/// The mentions, each followed by a space, of every participant who
/// committed but is not among the voice channel's members.
pub open spec fn late_pings(s: Seq<(u64, UserState)>, members: Seq<u64>) -> Seq<char>
    decreases s.len(),
{
    if s.len() == 0 {
        Seq::empty()
    } else {
        late_pings(s.drop_last(), members) + (if s.last().1 == UserState::Will
            && !members.contains(s.last().0) {
            mention(s.last().0) + " "@
        } else {
            Seq::empty()
        })
    }
}

/// The follow-up line tagging the committed participants who are not in the
/// voice channel; nothing when every committed participant is there.
pub fn late_ping_line(users: &UserMap, members: &Vec<u64>) -> (r: Option<String>)
    ensures
        r is Some <==> late_pings(users@, members@).len() > 0,
        r is Some ==> r->0@ == late_pings(users@, members@) + "you're late, get in the VC!"@,
{
    let ghost all = users@;
    let n = users.len();
    let mut s = String::new();
    for i in 0..n
        invariant
            all == users@,
            n == all.len(),
            s@ == late_pings(all.take(i as int), members@),
    {
        proof {
            assert(all.take(i + 1).drop_last() =~= all.take(i as int));
            assert(all.take(i + 1).last() == all[i as int]);
        }
        let entry = users.entry_at(i);
        if entry.1 == UserState::Will && !contains_id(members, entry.0) {
            let m = mention_string(entry.0);
            s.append(m.as_str());
            s.append(" ");
        }
        assert(s@ =~= late_pings(all.take(i + 1), members@));
    }
    proof {
        assert(all.take(n as int) =~= all);
    }
    if s.as_str().unicode_len() == 0 {
        None
    } else {
        s.append("you're late, get in the VC!");
        Some(s)
    }
}

/// The word a participant's answer is acknowledged with.
pub open spec fn rsvp_word(st: UserState) -> Seq<char> {
    match st {
        UserState::Will => "yes"@,
        UserState::May => "maybe"@,
        UserState::Wont => "no"@,
    }
}

/// The private acknowledgement for a pressed RSVP control.
pub fn rsvp_ack_line(st: UserState, user: u64) -> (r: String)
    ensures
        r@ == "Thanks for saying "@ + rsvp_word(st) + ", "@ + mention(user),
{
    let mut s = "Thanks for saying ".to_owned();
    match st {
        UserState::Will => s.append("yes"),
        UserState::May => s.append("maybe"),
        UserState::Wont => s.append("no"),
    }
    s.append(", ");
    let m = mention_string(user);
    s.append(m.as_str());
    s
}

} // verus!
