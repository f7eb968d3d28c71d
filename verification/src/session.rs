//! The single active session: its RSVP roster, its start time, and the
//! single-slot store that holds it. The store is the only shared mutable
//! state in the bot; every handler reads or mutates the session through it.

use vstd::prelude::*;

use crate::clock::valid_minutes;
use crate::config::Game;
use crate::scheduler;
use crate::scheduler::SchedulerPhase;

verus! {

/// A participant's answer to a session announcement. A participant with no
/// entry in the roster has not answered yet; that is not a fourth state.
#[derive(Clone, Copy, Debug, PartialEq, Eq, Structural)]
pub enum UserState {
    /// The participant committed to joining.
    Will,
    /// The participant may join.
    May,
    /// The participant declined.
    Wont,
}

/// No two roster entries name the same participant.
pub open spec fn unique_keys(s: Seq<(u64, UserState)>) -> bool {
    forall|i: int, j: int| 0 <= i < j < s.len() ==> (#[trigger] s[i]).0 != (#[trigger] s[j]).0
}

/// The roster entries read as a map from participant to answer.
pub open spec fn map_of(s: Seq<(u64, UserState)>) -> Map<u64, UserState>
    decreases s.len(),
{
    if s.len() == 0 {
        Map::empty()
    } else {
        map_of(s.drop_last()).insert(s.last().0, s.last().1)
    }
}

/// The index of the entry for `user`, or a negative value when there is
/// none.
pub open spec fn index_of_key(s: Seq<(u64, UserState)>, user: u64) -> int
    decreases s.len(),
{
    if s.len() == 0 {
        -1
    } else if s.last().0 == user {
        s.len() - 1
    } else {
        index_of_key(s.drop_last(), user)
    }
}

/// How `index_of_key` relates to the entries: a non-negative result is the
/// index of the one entry for `user`; a negative one means no entry names
/// `user`.
pub proof fn lemma_index_of_key(s: Seq<(u64, UserState)>, user: u64)
    ensures
        index_of_key(s, user) >= 0 ==> {
            &&& index_of_key(s, user) < s.len()
            &&& s[index_of_key(s, user)].0 == user
        },
        index_of_key(s, user) < 0 ==> forall|i: int|
            0 <= i < s.len() ==> (#[trigger] s[i]).0 != user,
    decreases s.len(),
{
    if s.len() > 0 {
        lemma_index_of_key(s.drop_last(), user);
        if s.last().0 != user && index_of_key(s.drop_last(), user) < 0 {
            assert forall|i: int| 0 <= i < s.len() implies (#[trigger] s[i]).0 != user by {
                if i < s.len() - 1 {
                    assert(s[i] == s.drop_last()[i]);
                } else {
                    assert(s[i] == s.last());
                }
            }
        }
    }
}

/// How the map view relates to the entries: `user` has an answer exactly
/// when an entry names it, and then the answer is that entry's.
pub proof fn lemma_map_of_index(s: Seq<(u64, UserState)>, user: u64)
    ensures
        map_of(s).contains_key(user) <==> index_of_key(s, user) >= 0,
        index_of_key(s, user) >= 0 ==> map_of(s)[user] == s[index_of_key(s, user)].1,
    decreases s.len(),
{
    if s.len() > 0 {
        lemma_map_of_index(s.drop_last(), user);
        lemma_index_of_key(s.drop_last(), user);
        if s.last().0 != user && index_of_key(s.drop_last(), user) >= 0 {
            assert(s[index_of_key(s, user)] == s.drop_last()[index_of_key(s.drop_last(), user)]);
        }
    }
}

/// Overwriting the one entry for `user` is, on the map view, an insert.
proof fn lemma_map_of_update(s: Seq<(u64, UserState)>, i: int, user: u64, st: UserState)
    requires
        unique_keys(s),
        0 <= i < s.len(),
        s[i].0 == user,
    ensures
        map_of(s.update(i, (user, st))) == map_of(s).insert(user, st),
    decreases s.len(),
{
    let t = s.update(i, (user, st));
    if i == s.len() - 1 {
        assert(t.drop_last() =~= s.drop_last());
        assert(map_of(t) == map_of(s.drop_last()).insert(user, st));
        assert(map_of(s).insert(user, st) =~= map_of(s.drop_last()).insert(user, st));
    } else {
        assert(t.drop_last() =~= s.drop_last().update(i, (user, st)));
        lemma_map_of_update(s.drop_last(), i, user, st);
        assert(s.last().0 != user);
        assert(map_of(t) == map_of(s.drop_last()).insert(user, st).insert(
            s.last().0,
            s.last().1,
        ));
        assert(map_of(s.drop_last()).insert(user, st).insert(s.last().0, s.last().1)
            =~= map_of(s.drop_last()).insert(s.last().0, s.last().1).insert(user, st));
    }
}

/// How many entries hold the answer `st`.
pub open spec fn count_state(s: Seq<(u64, UserState)>, st: UserState) -> nat
    decreases s.len(),
{
    if s.len() == 0 {
        0
    } else {
        count_state(s.drop_last(), st) + (if s.last().1 == st {
            1nat
        } else {
            0nat
        })
    }
}

/// The RSVP roster: one entry per participant who has answered, in the order
/// the answers first arrived.
#[derive(Clone, Debug)]
pub struct UserMap {
    entries: Vec<(u64, UserState)>,
}

impl View for UserMap {
    type V = Seq<(u64, UserState)>;

    closed spec fn view(&self) -> Seq<(u64, UserState)> {
        self.entries@
    }
}

impl UserMap {
    /// No participant appears twice.
    pub open spec fn wf(self) -> bool {
        unique_keys(self@)
    }

    /// The roster as a map from participant to answer.
    pub open spec fn as_map(self) -> Map<u64, UserState> {
        map_of(self@)
    }

    /// An empty roster.
    pub fn new() -> (r: UserMap)
        ensures
            r@ == Seq::<(u64, UserState)>::empty(),
            r.as_map() == Map::<u64, UserState>::empty(),
            r.wf(),
    {
        let r = UserMap { entries: Vec::new() };
        assert(r.as_map() =~= Map::<u64, UserState>::empty());
        r
    }

    /// The number of participants who have answered.
    pub fn len(&self) -> (r: usize)
        ensures
            r == self@.len(),
    {
        self.entries.len()
    }

    /// The entry at a position, for walking the roster in order.
    pub fn entry_at(&self, i: usize) -> (r: (u64, UserState))
        requires
            i < self@.len(),
        ensures
            r == self@[i as int],
    {
        self.entries[i]
    }

    /// Records `user`'s answer, overwriting any earlier one: last write
    /// wins, and nobody else's answer moves.
    pub fn set(&mut self, user: u64, st: UserState)
        requires
            old(self).wf(),
        ensures
            final(self).wf(),
            final(self).as_map() == old(self).as_map().insert(user, st),
            index_of_key(old(self)@, user) >= 0 ==> final(self)@ == old(self)@.update(
                index_of_key(old(self)@, user),
                (user, st),
            ),
            index_of_key(old(self)@, user) < 0 ==> final(self)@ == old(self)@.push((user, st)),
    {
        let ghost s0 = self@;
        let n = self.entries.len();
        for i in 0..n
            invariant
                self@ == s0,
                s0 == old(self)@,
                n == s0.len(),
                unique_keys(s0),
                forall|j: int| 0 <= j < i ==> (#[trigger] s0[j]).0 != user,
        {
            if self.entries[i].0 == user {
                self.entries[i] = (user, st);
                proof {
                    lemma_index_of_key(s0, user);
                    assert(index_of_key(s0, user) == i) by {
                        if index_of_key(s0, user) != i {
                            assert(s0[index_of_key(s0, user)].0 == user);
                            assert(s0[i as int].0 == user);
                        }
                    }
                    lemma_map_of_update(s0, i as int, user, st);
                    assert(unique_keys(self@));
                }
                return ;
            }
        }
        self.entries.push((user, st));
        proof {
            assert(self@.drop_last() =~= s0);
            assert(forall|j: int| 0 <= j < s0.len() ==> (#[trigger] s0[j]).0 != user);
            assert(unique_keys(self@));
            assert(index_of_key(s0, user) < 0) by {
                lemma_index_of_key(s0, user);
            }
        }
    }

    /// Looks up `user`'s answer; nothing when `user` has not answered.
    pub fn get(&self, user: u64) -> (r: Option<UserState>)
        requires
            self.wf(),
        ensures
            match r {
                Some(st) => self.as_map().contains_key(user) && self.as_map()[user] == st,
                None => !self.as_map().contains_key(user),
            },
    {
        proof {
            lemma_map_of_index(self@, user);
            lemma_index_of_key(self@, user);
        }
        let n = self.entries.len();
        for i in 0..n
            invariant
                n == self@.len(),
                unique_keys(self@),
                forall|j: int| 0 <= j < i ==> (#[trigger] self@[j]).0 != user,
                map_of(self@).contains_key(user) <==> index_of_key(self@, user) >= 0,
                index_of_key(self@, user) >= 0 ==> map_of(self@)[user] == self@[index_of_key(
                    self@,
                    user,
                )].1,
        {
            if self.entries[i].0 == user {
                proof {
                    lemma_index_of_key(self@, user);
                    assert(index_of_key(self@, user) == i) by {
                        if index_of_key(self@, user) != i {
                            assert(self@[index_of_key(self@, user)].0 == user);
                        }
                    }
                }
                return Some(self.entries[i].1);
            }
        }
        proof {
            lemma_index_of_key(self@, user);
            if index_of_key(self@, user) >= 0 {
                assert(self@[index_of_key(self@, user)].0 == user);
            }
        }
        None
    }

    /// Counts the participants whose answer is `st`.
    pub fn count_with(&self, st: UserState) -> (r: usize)
        ensures
            r == count_state(self@, st),
    {
        let n = self.entries.len();
        let mut count: usize = 0;
        for i in 0..n
            invariant
                n == self@.len(),
                count == count_state(self@.take(i as int), st),
                count <= i,
        {
            proof {
                assert(self@.take(i + 1).drop_last() =~= self@.take(i as int));
                assert(self@.take(i + 1).last() == self@[i as int]);
            }
            if self.entries[i].1 == st {
                count = count + 1;
            }
        }
        proof {
            assert(self@.take(n as int) =~= self@);
        }
        count
    }
}

/// Recording an answer twice for the same participant leaves exactly the
/// second answer, whatever the first was: RSVP updates are idempotent and
/// the last write wins.
pub proof fn lemma_rsvp_last_write_wins(
    m: Map<u64, UserState>,
    user: u64,
    first: UserState,
    second: UserState,
)
    ensures
        m.insert(user, first).insert(user, second) == m.insert(user, second),
{
    assert(m.insert(user, first).insert(user, second) =~= m.insert(user, second));
}

/// The one active scheduling round: the activity it is for, the roster, the
/// fixed start time in local minutes, the model of the timer task's handle,
/// the announcement message, and the host who created it.
#[derive(Clone, Debug)]
pub struct Session {
    pub game: Game,
    pub users: UserMap,
    pub time: i64,
    pub handle: SchedulerPhase,
    pub message_id: u64,
    pub host: u64,
}

impl Session {
    /// A session whose roster and start time are sound.
    pub open spec fn wf(self) -> bool {
        &&& self.users.wf()
        &&& valid_minutes(self.time as int)
    }

    /// A fresh session with an empty roster.
    pub fn new(game: Game, handle: SchedulerPhase, time: i64, message_id: u64, host: u64) -> (s:
        Session)
        requires
            valid_minutes(time as int),
        ensures
            s.game == game,
            s.users@ == Seq::<(u64, UserState)>::empty(),
            s.users.as_map() == Map::<u64, UserState>::empty(),
            s.time == time,
            s.handle == handle,
            s.message_id == message_id,
            s.host == host,
            s.wf(),
    {
        Session { game, users: UserMap::new(), time, handle, message_id, host }
    }
}

/// The error `SessionStore::create` returns when a session is already
/// present: the slot is never overwritten.
#[derive(Clone, Copy, Debug, PartialEq, Eq, Structural)]
pub struct AlreadyPresentError;

/// The process-wide single slot holding at most one active session.
pub struct SessionStore {
    slot: Option<Session>,
}

impl SessionStore {
    /// Whether a session occupies the slot.
    pub closed spec fn is_present(self) -> bool {
        self.slot is Some
    }

    /// The session in the slot.
    pub closed spec fn the_session(self) -> Session {
        self.slot->0
    }

    /// Any held session is sound.
    pub open spec fn wf(self) -> bool {
        self.is_present() ==> self.the_session().wf()
    }

    /// Whether the held session has started: a session is present and the
    /// clock has reached its start time.
    pub open spec fn spec_started(self, now: int) -> bool {
        self.is_present() && self.the_session().time <= now
    }

    /// An empty store.
    pub fn new() -> (r: SessionStore)
        ensures
            !r.is_present(),
            r.wf(),
    {
        SessionStore { slot: None }
    }

    /// Whether a session occupies the slot.
    pub fn present(&self) -> (r: bool)
        ensures
            r == self.is_present(),
    {
        self.slot.is_some()
    }

    /// Whether the held session has started at time `now`. False whenever no
    /// session is present; for a fixed session, false strictly before its
    /// start time and true from the start time on.
    pub fn started(&self, now: i64) -> (r: bool)
        ensures
            r == self.spec_started(now as int),
    {
        match &self.slot {
            Some(s) => s.time <= now,
            None => false,
        }
    }

    /// A reference to the held session.
    pub fn session(&self) -> (r: &Session)
        requires
            self.is_present(),
        ensures
            *r == self.the_session(),
    {
        match &self.slot {
            Some(s) => s,
            None => unreached(),
        }
    }

    /// Installs a session only into an empty slot. When a session is already
    /// present, the call fails and the pre-existing session is unchanged:
    /// there is never more than one.
    pub fn create(&mut self, session: Session) -> (r: Result<(), AlreadyPresentError>)
        requires
            old(self).wf(),
            session.wf(),
        ensures
            final(self).wf(),
            old(self).is_present() ==> r is Err && *final(self) == *old(self),
            !old(self).is_present() ==> {
                &&& r is Ok
                &&& final(self).is_present()
                &&& final(self).the_session() == session
            },
    {
        if self.slot.is_some() {
            Err(AlreadyPresentError)
        } else {
            self.slot = Some(session);
            Ok(())
        }
    }

    /// Records `user`'s answer in the held session's roster, last write
    /// wins; with no session present, nothing changes and the call reports
    /// it.
    pub fn set_rsvp(&mut self, user: u64, st: UserState) -> (r: bool)
        requires
            old(self).wf(),
        ensures
            final(self).wf(),
            r == old(self).is_present(),
            !old(self).is_present() ==> *final(self) == *old(self),
            old(self).is_present() ==> {
                &&& final(self).is_present()
                &&& final(self).the_session().users.as_map() == old(
                    self,
                ).the_session().users.as_map().insert(user, st)
                &&& final(self).the_session().game == old(self).the_session().game
                &&& final(self).the_session().time == old(self).the_session().time
                &&& final(self).the_session().handle == old(self).the_session().handle
                &&& final(self).the_session().message_id == old(self).the_session().message_id
                &&& final(self).the_session().host == old(self).the_session().host
            },
    {
        match &mut self.slot {
            Some(s) => {
                s.users.set(user, st);
                true
            },
            None => false,
        }
    }

    /// Empties the slot. The caller must already have silenced the timer:
    /// clearing the slot is never allowed to leak a task that could still
    /// fire against an unreachable session.
    pub fn clear(&mut self)
        requires
            old(self).is_present() ==> !scheduler::can_fire(old(self).the_session().handle),
        ensures
            !final(self).is_present(),
            final(self).wf(),
    {
        self.slot = None;
    }

    /// The one sanctioned teardown: cancels the held session's timer, empties
    /// the slot, and hands the cancelled session back for the closing
    /// announcements. After it, no session is present and the timer can fire
    /// no further checkpoint.
    pub fn end_session(&mut self) -> (r: Option<Session>)
        requires
            old(self).wf(),
        ensures
            final(self).wf(),
            !final(self).is_present(),
            !old(self).is_present() ==> *final(self) == *old(self) && r is None,
            old(self).is_present() ==> {
                &&& r is Some
                &&& r->0.handle == scheduler::spec_cancel(old(self).the_session().handle)
                &&& !scheduler::can_fire(r->0.handle)
                &&& r->0.game == old(self).the_session().game
                &&& r->0.users == old(self).the_session().users
                &&& r->0.time == old(self).the_session().time
                &&& r->0.message_id == old(self).the_session().message_id
                &&& r->0.host == old(self).the_session().host
            },
    {
        match self.slot.take() {
            None => None,
            Some(mut s) => {
                s.handle = scheduler::cancel(s.handle);
                Some(s)
            },
        }
    }
}

/// For a fixed session, `started` is monotone in the clock: false at every
/// time strictly before the start time, and once true it stays true at every
/// later time. It is a pure function of the clock and the fixed start time.
pub proof fn lemma_started_monotonic(store: SessionStore, t1: int, t2: int)
    requires
        t1 <= t2,
    ensures
        store.spec_started(t1) ==> store.spec_started(t2),
        store.is_present() && t1 < store.the_session().time ==> !store.spec_started(t1),
{
}

} // verus!
