//! The admin command that gives a member every activity role at once: it
//! computes which configured roles the member still lacks.

use vstd::prelude::*;

use crate::commands::interaction_handler::InteractionHandler;
use crate::config::{contains_id, Game};

verus! {

/// The command granting all activity roles.
#[derive(Clone, Copy)]
pub struct AllRoles;

impl InteractionHandler for AllRoles {
    open spec fn spec_name(&self) -> Seq<char> {
        "allroles"@
    }

    fn name(&self) -> (r: &'static str)
        ensures
            r@ == self.spec_name(),
    {
        "allroles"
    }
}

/// The role of each configured game that `owned` does not already hold, in
/// configuration order.
pub open spec fn spec_missing_roles(games: Seq<Game>, owned: Seq<u64>) -> Seq<u64>
    decreases games.len(),
{
    if games.len() == 0 {
        Seq::empty()
    } else {
        spec_missing_roles(games.drop_last(), owned) + (if owned.contains(games.last().role_id) {
            Seq::empty()
        } else {
            seq![games.last().role_id]
        })
    }
}

/// The activity roles a member still lacks: every configured game's role not
/// among the member's own.
pub fn missing_game_roles(games: &Vec<Game>, owned: &Vec<u64>) -> (r: Vec<u64>)
    ensures
        r@ == spec_missing_roles(games@, owned@),
{
    let n = games.len();
    let mut roles: Vec<u64> = Vec::new();
    for i in 0..n
        invariant
            n == games@.len(),
            roles@ == spec_missing_roles(games@.take(i as int), owned@),
    {
        proof {
            assert(games@.take(i + 1).drop_last() =~= games@.take(i as int));
            assert(games@.take(i + 1).last() == games@[i as int]);
        }
        if !contains_id(owned, games[i].role_id) {
            roles.push(games[i].role_id);
        }
        assert(roles@ =~= spec_missing_roles(games@.take(i + 1), owned@));
    }
    proof {
        assert(games@.take(n as int) =~= games@);
    }
    roles
}

} // verus!
