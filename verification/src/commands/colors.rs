//! The colour-role command and its dropdown: finding the colour role a
//! member currently wears, the set to strip before a new one is added, and
//! the role a dropdown answer names.

use vstd::prelude::*;

use crate::commands::interaction_handler::{
    digits_value, parse_index, valid_index_str, InteractionHandler,
};
use crate::config::contains_id;

verus! {

/// The command offering the colour-role dropdown.
#[derive(Clone, Copy)]
pub struct ColorsCommand;

impl InteractionHandler for ColorsCommand {
    open spec fn spec_name(&self) -> Seq<char> {
        "colors"@
    }

    fn name(&self) -> (r: &'static str)
        ensures
            r@ == self.spec_name(),
    {
        "colors"
    }
}

/// The handler for the colour-role dropdown.
#[derive(Clone, Copy)]
pub struct MenuHandler;

impl InteractionHandler for MenuHandler {
    open spec fn spec_name(&self) -> Seq<char> {
        "colorroles-dropdown"@
    }

    fn name(&self) -> (r: &'static str)
        ensures
            r@ == self.spec_name(),
    {
        "colorroles-dropdown"
    }
}

/// The least index at or after `from` of an owned role that is a colour
/// role.
pub open spec fn first_color_index(owned: Seq<u64>, colors: Seq<u64>, from: int) -> Option<int>
    decreases owned.len() - from,
{
    if from < 0 || from >= owned.len() {
        None
    } else if colors.contains(owned[from]) {
        Some(from)
    } else {
        first_color_index(owned, colors, from + 1)
    }
}

/// The colour role a member currently wears: the first of the member's roles
/// that is a configured colour role, if any.
pub fn current_color_role(owned: &Vec<u64>, colors: &Vec<u64>) -> (r: Option<u64>)
    ensures
        match first_color_index(owned@, colors@, 0) {
            Some(i) => r == Some(owned@[i]),
            None => r is None,
        },
{
    let n = owned.len();
    for i in 0..n
        invariant
            n == owned@.len(),
            first_color_index(owned@, colors@, 0) == first_color_index(owned@, colors@, i as int),
            forall|j: int| 0 <= j < i ==> !colors@.contains(#[trigger] owned@[j]),
    {
        if contains_id(colors, owned[i]) {
            return Some(owned[i]);
        }
    }
    None
}

/// The owned roles that are colour roles, in the member's order: the set to
/// remove before the newly picked colour is added.
pub open spec fn spec_owned_colors(owned: Seq<u64>, colors: Seq<u64>) -> Seq<u64>
    decreases owned.len(),
{
    if owned.len() == 0 {
        Seq::empty()
    } else {
        spec_owned_colors(owned.drop_last(), colors) + (if colors.contains(owned.last()) {
            seq![owned.last()]
        } else {
            Seq::empty()
        })
    }
}

/// Every owned role that is a configured colour role.
pub fn color_roles_owned(owned: &Vec<u64>, colors: &Vec<u64>) -> (r: Vec<u64>)
    ensures
        r@ == spec_owned_colors(owned@, colors@),
{
    let n = owned.len();
    let mut roles: Vec<u64> = Vec::new();
    for i in 0..n
        invariant
            n == owned@.len(),
            roles@ == spec_owned_colors(owned@.take(i as int), colors@),
    {
        proof {
            assert(owned@.take(i + 1).drop_last() =~= owned@.take(i as int));
            assert(owned@.take(i + 1).last() == owned@[i as int]);
        }
        if contains_id(colors, owned[i]) {
            roles.push(owned[i]);
        }
        assert(roles@ =~= spec_owned_colors(owned@.take(i + 1), colors@));
    }
    proof {
        assert(owned@.take(n as int) =~= owned@);
    }
    roles
}

/// The colour role a dropdown answer names: the answer must be a well-formed
/// index naming a configured colour. A tampered answer selects nothing.
pub fn select_color_role(colors: &Vec<u64>, answer: &str) -> (r: Option<u64>)
    ensures
        r is Some <==> valid_index_str(answer@) && digits_value(answer@) < colors@.len(),
        r is Some ==> r->0 == colors@[digits_value(answer@)],
{
    match parse_index(answer) {
        Some(i) => {
            if i < colors.len() {
                Some(colors[i])
            } else {
                None
            }
        },
        None => None,
    }
}

} // verus!
