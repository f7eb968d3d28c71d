//! The name-keyed handler registry and the dispatcher. Every inbound event
//! carries a routing key — a command's declared name or the identifier on a
//! UI component — and both key spaces share one table. Dispatching an
//! unregistered key, or a key registered for the other kind of event, is a
//! miss: it mutates nothing and asks the caller for exactly one warning.

use vstd::prelude::*;
use vstd::hash_map::StringHashMap;
use vstd::string::StrSliceExecFns;

use crate::clock::{digit_val, is_digit};

verus! {

/// An interaction handler is known by its stable routing key.
pub trait InteractionHandler {
    /// The routing key, as the contracts speak of it.
    spec fn spec_name(&self) -> Seq<char>;

    /// The routing key under which the handler is registered.
    fn name(&self) -> (r: &'static str)
        ensures
            r@ == self.spec_name(),
    ;
}

/// The slash commands the bot defines.
#[derive(Clone, Copy, Debug, PartialEq, Eq, Structural)]
pub enum CommandKind {
    AllRoles,
    Colors,
    EndHost,
    Help,
    HostGame,
    Ip,
    Ping,
    Roles,
    Status,
}

/// The UI components the bot answers.
#[derive(Clone, Copy, Debug, PartialEq, Eq, Structural)]
pub enum MessageKind {
    RsvpYes,
    RsvpMaybe,
    RsvpNo,
    EndHostYes,
    EndHostNo,
    HelpPages,
    ColorsMenu,
    RolesMenu,
}

/// A registered handler: a command handler, which also contributes a
/// declarative command definition at registration time, or a
/// message-component handler, which does not.
#[derive(Clone, Copy, Debug, PartialEq, Eq, Structural)]
pub enum Handler {
    Command(CommandKind),
    Message(MessageKind),
}

/// The routing key of each command.
pub open spec fn spec_command_key(c: CommandKind) -> Seq<char> {
    match c {
        CommandKind::AllRoles => "allroles"@,
        CommandKind::Colors => "colors"@,
        CommandKind::EndHost => "endhost"@,
        CommandKind::Help => "help"@,
        CommandKind::HostGame => "hostgame"@,
        CommandKind::Ip => "ip"@,
        CommandKind::Ping => "ping"@,
        CommandKind::Roles => "roles"@,
        CommandKind::Status => "status"@,
    }
}

/// The routing key of each component handler.
pub open spec fn spec_message_key(m: MessageKind) -> Seq<char> {
    match m {
        MessageKind::RsvpYes => "button-yes"@,
        MessageKind::RsvpMaybe => "button-maybe"@,
        MessageKind::RsvpNo => "button-no"@,
        MessageKind::EndHostYes => "endhost-yes"@,
        MessageKind::EndHostNo => "endhost-no"@,
        MessageKind::HelpPages => "help-pages"@,
        MessageKind::ColorsMenu => "colorroles-dropdown"@,
        MessageKind::RolesMenu => "roles-dropdown"@,
    }
}

/// The routing key a handler is registered under.
pub open spec fn spec_handler_key(h: Handler) -> Seq<char> {
    match h {
        Handler::Command(c) => spec_command_key(c),
        Handler::Message(m) => spec_message_key(m),
    }
}

/// The routing key of a command.
pub fn command_key(c: CommandKind) -> (r: &'static str)
    ensures
        r@ == spec_command_key(c),
{
    match c {
        CommandKind::AllRoles => "allroles",
        CommandKind::Colors => "colors",
        CommandKind::EndHost => "endhost",
        CommandKind::Help => "help",
        CommandKind::HostGame => "hostgame",
        CommandKind::Ip => "ip",
        CommandKind::Ping => "ping",
        CommandKind::Roles => "roles",
        CommandKind::Status => "status",
    }
}

/// The routing key of a component handler.
pub fn message_key(m: MessageKind) -> (r: &'static str)
    ensures
        r@ == spec_message_key(m),
{
    match m {
        MessageKind::RsvpYes => "button-yes",
        MessageKind::RsvpMaybe => "button-maybe",
        MessageKind::RsvpNo => "button-no",
        MessageKind::EndHostYes => "endhost-yes",
        MessageKind::EndHostNo => "endhost-no",
        MessageKind::HelpPages => "help-pages",
        MessageKind::ColorsMenu => "colorroles-dropdown",
        MessageKind::RolesMenu => "roles-dropdown",
    }
}

/// An inbound event's routing information: a slash-command invocation, a
/// component action, or the platform's ping, which no handler answers.
#[derive(Clone, Debug)]
pub enum EventKey {
    Command(String),
    Component(String),
    Ping,
}

/// What the dispatcher decided: which handler to run, or that the event is
/// dropped.
#[derive(Clone, Copy, Debug, PartialEq, Eq, Structural)]
pub enum DispatchOutcome {
    /// Run this command handler with the event's payload.
    RunCommand(CommandKind),
    /// Run this component handler with the event's payload.
    RunMessage(MessageKind),
    /// No handler of the right kind under this key: drop the event and log
    /// exactly one warning.
    Miss,
    /// An event kind the bot does not answer at all.
    Unsupported,
}

/// The registry mapping routing keys to handlers. Built at startup, read on
/// every event; registering a key twice overwrites.
pub struct InteractionMap {
    map: StringHashMap<Handler>,
}

impl View for InteractionMap {
    type V = Map<Seq<char>, Handler>;

    closed spec fn view(&self) -> Map<Seq<char>, Handler> {
        self.map@
    }
}

impl InteractionMap {
    /// An empty registry.
    pub fn new() -> (r: InteractionMap)
        ensures
            r@ == Map::<Seq<char>, Handler>::empty(),
    {
        InteractionMap { map: StringHashMap::new() }
    }

    /// Inserts, or overwrites, the mapping for `key`.
    pub fn register(&mut self, key: String, handler: Handler)
        ensures
            final(self)@ == old(self)@.insert(key@, handler),
    {
        self.map.insert(key, handler);
    }

    /// Looks up `key` without touching anything.
    pub fn get(&self, key: &str) -> (r: Option<Handler>)
        ensures
            match r {
                Some(h) => self@.contains_key(key@) && self@[key@] == h,
                None => !self@.contains_key(key@),
            },
    {
        match self.map.get(key) {
            Some(h) => Some(*h),
            None => None,
        }
    }

    /// Resolves an inbound event to the handler registered under its key. A
    /// command event matches only a command handler, a component event only
    /// a component handler; anything else is a miss, which never raises and
    /// mutates no state.
    pub fn dispatch(&self, event: &EventKey) -> (r: DispatchOutcome)
        ensures
            match *event {
                EventKey::Command(ref name) => match r {
                    DispatchOutcome::RunCommand(c) => self@.contains_key(name@) && self@[name@]
                        == Handler::Command(c),
                    DispatchOutcome::Miss => !self@.contains_key(name@) || !(self@[name@]
                        is Command),
                    _ => false,
                },
                EventKey::Component(ref id) => match r {
                    DispatchOutcome::RunMessage(m) => self@.contains_key(id@) && self@[id@]
                        == Handler::Message(m),
                    DispatchOutcome::Miss => !self@.contains_key(id@) || !(self@[id@] is Message),
                    _ => false,
                },
                EventKey::Ping => r is Unsupported,
            },
    {
        match event {
            EventKey::Command(name) => match self.get(name.as_str()) {
                Some(Handler::Command(c)) => DispatchOutcome::RunCommand(c),
                Some(Handler::Message(_)) => DispatchOutcome::Miss,
                None => DispatchOutcome::Miss,
            },
            EventKey::Component(id) => match self.get(id.as_str()) {
                Some(Handler::Message(m)) => DispatchOutcome::RunMessage(m),
                Some(Handler::Command(_)) => DispatchOutcome::Miss,
                None => DispatchOutcome::Miss,
            },
            EventKey::Ping => DispatchOutcome::Unsupported,
        }
    }
}

/// Registers a handler under its own routing key, as startup does for each
/// handler in turn.
pub fn register_handler(map: &mut InteractionMap, handler: Handler)
    ensures
        final(map)@ == old(map)@.insert(spec_handler_key(handler), handler),
{
    let key = match handler {
        Handler::Command(c) => command_key(c),
        Handler::Message(m) => message_key(m),
    };
    map.register(key.to_owned(), handler);
}

/// The value of a string of decimal digits, most significant first.
pub open spec fn digits_value(s: Seq<char>) -> int
    decreases s.len(),
{
    if s.len() == 0 {
        0
    } else {
        10 * digits_value(s.drop_last()) + digit_val(s.last())
    }
}

/// Ten to the `n`th power.
pub open spec fn pow10(n: nat) -> int
    decreases n,
{
    if n == 0 {
        1
    } else {
        10 * pow10((n - 1) as nat)
    }
}

/// The powers of ten up to the longest accepted index string.
proof fn lemma_pow10_small()
    ensures
        pow10(0) == 1,
        pow10(1) == 10,
        pow10(2) == 100,
        pow10(3) == 1000,
        pow10(4) == 10000,
        pow10(5) == 100000,
        pow10(6) == 1000000,
{
    assert(pow10(0) == 1);
    assert(pow10(1) == 10);
    assert(pow10(2) == 100);
    assert(pow10(3) == 1000);
    assert(pow10(4) == 10000);
    assert(pow10(5) == 100000);
    assert(pow10(6) == 1000000);
}

/// A non-empty, all-digit string short enough that its value fits the
/// machine's index range.
pub open spec fn valid_index_str(s: Seq<char>) -> bool {
    &&& 1 <= s.len() <= 6
    &&& forall|i: int| 0 <= i < s.len() ==> is_digit(#[trigger] s[i])
}

/// Reads a component answer as an index: at most six decimal digits.
/// Anything else — empty, longer, or holding a non-digit — is a forged or
/// tampered value and is refused.
pub fn parse_index(s: &str) -> (r: Option<usize>)
    ensures
        r is Some <==> valid_index_str(s@),
        r is Some ==> r->0 == digits_value(s@),
{
    let n = s.unicode_len();
    if n < 1 || n > 6 {
        return None;
    }
    let mut value: usize = 0;
    let mut i: usize = 0;
    while i < n
        invariant
            1 <= n <= 6,
            n == s@.len(),
            0 <= i <= n,
            forall|j: int| 0 <= j < i ==> is_digit(#[trigger] s@[j]),
            value == digits_value(s@.take(i as int)),
            value < pow10(i as nat),
        decreases n - i,
    {
        let c = s.get_char(i);
        if !('0' <= c && c <= '9') {
            return None;
        }
        proof {
            assert(s@.take(i + 1).drop_last() =~= s@.take(i as int));
            lemma_pow10_small();
            assert(pow10((i + 1) as nat) == 10 * pow10(i as nat));
            assert(pow10(i as nat) <= 100000);
        }
        value = 10 * value + (c as u32 as usize - 48);
        i = i + 1;
    }
    proof {
        assert(s@.take(n as int) =~= s@);
    }
    Some(value)
}

} // verus!
