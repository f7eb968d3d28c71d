//! The activity-role command and its dropdown: the role a dropdown answer
//! names, and whether pressing it puts the role on or takes it off.

use vstd::prelude::*;

use crate::commands::interaction_handler::{
    digits_value, parse_index, valid_index_str, InteractionHandler,
};
use crate::config::{contains_id, Game};

verus! {

/// The command offering the activity-role dropdown.
#[derive(Clone, Copy)]
pub struct RolesCommand;

impl InteractionHandler for RolesCommand {
    open spec fn spec_name(&self) -> Seq<char> {
        "roles"@
    }

    fn name(&self) -> (r: &'static str)
        ensures
            r@ == self.spec_name(),
    {
        "roles"
    }
}

/// The handler for the activity-role dropdown.
#[derive(Clone, Copy)]
pub struct RolesCommandHandler;

impl InteractionHandler for RolesCommandHandler {
    open spec fn spec_name(&self) -> Seq<char> {
        "roles-dropdown"@
    }

    fn name(&self) -> (r: &'static str)
        ensures
            r@ == self.spec_name(),
    {
        "roles-dropdown"
    }
}

/// The activity role a dropdown answer names: the answer must be a
/// well-formed index naming a configured game. A tampered answer selects
/// nothing.
pub fn select_game_role(games: &Vec<Game>, answer: &str) -> (r: Option<u64>)
    ensures
        r is Some <==> valid_index_str(answer@) && digits_value(answer@) < games@.len(),
        r is Some ==> r->0 == games@[digits_value(answer@)].role_id,
{
    match parse_index(answer) {
        Some(i) => {
            if i < games.len() {
                Some(games[i].role_id)
            } else {
                None
            }
        },
        None => None,
    }
}

/// What pressing a role's dropdown row does to the member.
#[derive(Clone, Copy, Debug, PartialEq, Eq, Structural)]
pub enum RoleToggle {
    /// The member lacks the role: put it on.
    Add,
    /// The member wears the role: take it off.
    Remove,
}

/// Decides the toggle: a role the member already wears comes off, any other
/// goes on.
pub fn plan_role_toggle(owned: &Vec<u64>, role_id: u64) -> (r: RoleToggle)
    ensures
        r is Remove <==> owned@.contains(role_id),
{
    if contains_id(owned, role_id) {
        RoleToggle::Remove
    } else {
        RoleToggle::Add
    }
}

} // verus!
