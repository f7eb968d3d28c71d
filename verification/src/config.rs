//! The configuration snapshot the bot reads: activity definitions, the
//! administrator list, defaults and the fixed texts. Loading and hot-reload
//! live in the unverified shell; handlers receive one immutable snapshot per
//! event and every decision over it is made here.

use vstd::prelude::*;

use crate::commands::help::HelpPage;
use crate::embed::Embed;

verus! {

/// One configured activity: its name, the text channel sessions for it are
/// announced in, and the role that is tagged.
#[derive(Clone, Debug)]
pub struct Game {
    pub name: String,
    pub channel_id: u64,
    pub role_id: u64,
}

/// A full configuration snapshot.
#[derive(Clone, Debug)]
pub struct Config {
    pub application_id: u64,
    pub discord_token: String,
    pub guild_id: u64,
    pub vc_channel: u64,
    pub default_time: String,
    pub idle_text: String,
    pub timezone_text: String,
    pub ip_embed: Embed,
    pub default_help: Embed,
    pub help: Vec<HelpPage>,
    pub admins: Vec<u64>,
    pub games: Vec<Game>,
}

/// The first configured game announced in the given channel, if any: the
/// activity a session created from that channel is hosted for.
pub open spec fn spec_game_for_channel(games: Seq<Game>, channel_id: u64) -> Option<int> {
    game_index_for_channel(games, channel_id, 0)
}

/// The least index at or after `from` of a game announced in `channel_id`.
pub open spec fn game_index_for_channel(games: Seq<Game>, channel_id: u64, from: int) -> Option<
    int,
>
    decreases games.len() - from,
{
    if from < 0 || from >= games.len() {
        None
    } else if games[from].channel_id == channel_id {
        Some(from)
    } else {
        game_index_for_channel(games, channel_id, from + 1)
    }
}

/// Finds the configured game for a channel: the index of the first game
/// whose announcement channel it is, or nothing when the channel belongs to
/// no game.
pub fn find_game_for_channel(games: &Vec<Game>, channel_id: u64) -> (r: Option<usize>)
    ensures
        match r {
            Some(i) => {
                &&& spec_game_for_channel(games@, channel_id) == Some(i as int)
                &&& i < games@.len()
                &&& games@[i as int].channel_id == channel_id
            },
            None => {
                &&& spec_game_for_channel(games@, channel_id) is None
                &&& forall|i: int|
                    0 <= i < games@.len() ==> (#[trigger] games@[i].channel_id) != channel_id
            },
        },
{
    let n = games.len();
    for i in 0..n
        invariant
            n == games@.len(),
            forall|j: int| 0 <= j < i ==> (#[trigger] games@[j].channel_id) != channel_id,
            spec_game_for_channel(games@, channel_id) == game_index_for_channel(
                games@,
                channel_id,
                i as int,
            ),
    {
        if games[i].channel_id == channel_id {
            return Some(i);
        }
    }
    None
}

/// Whether a list of identifiers holds `id`.
pub fn contains_id(ids: &Vec<u64>, id: u64) -> (r: bool)
    ensures
        r == ids@.contains(id),
{
    let n = ids.len();
    for i in 0..n
        invariant
            n == ids@.len(),
            forall|j: int| 0 <= j < i ==> (#[trigger] ids@[j]) != id,
    {
        if ids[i] == id {
            return true;
        }
    }
    assert(!ids@.contains(id));
    false
}

/// Whether `user` is one of the configured administrators.
pub fn is_admin(admins: &Vec<u64>, user: u64) -> (r: bool)
    ensures
        r == admins@.contains(user),
{
    contains_id(admins, user)
}

} // verus!
