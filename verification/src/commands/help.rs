//! The help command: a dropdown over configured help pages, each showing an
//! embed. The page a dropdown answer names travels as a decimal index; a
//! forged or out-of-range value selects nothing.

use vstd::prelude::*;

use crate::commands::interaction_handler::{
    digits_value, parse_index, valid_index_str, InteractionHandler,
};
use crate::embed::Embed;

verus! {

/// One help page: how its dropdown row reads, and the embed shown when it is
/// picked.
#[derive(Clone, Debug)]
pub struct HelpPage {
    pub dropdown_title: String,
    pub dropdown_description: String,
    pub embed: Embed,
}

/// The help command.
#[derive(Clone, Copy)]
pub struct Help;

impl InteractionHandler for Help {
    open spec fn spec_name(&self) -> Seq<char> {
        "help"@
    }

    fn name(&self) -> (r: &'static str)
        ensures
            r@ == self.spec_name(),
    {
        "help"
    }
}

/// The handler for the help-page dropdown.
#[derive(Clone, Copy)]
pub struct HelpPageHandler;

impl InteractionHandler for HelpPageHandler {
    open spec fn spec_name(&self) -> Seq<char> {
        "help-pages"@
    }

    fn name(&self) -> (r: &'static str)
        ensures
            r@ == self.spec_name(),
    {
        "help-pages"
    }
}

/// Picks the help page a dropdown answer names: the answer must be a
/// well-formed index naming a configured page. A tampered answer selects
/// nothing and changes nothing.
pub fn select_help_page(pages: &Vec<HelpPage>, answer: &str) -> (r: Option<usize>)
    ensures
        r is Some <==> valid_index_str(answer@) && digits_value(answer@) < pages@.len(),
        r is Some ==> r->0 == digits_value(answer@),
{
    match parse_index(answer) {
        Some(i) => {
            if i < pages.len() {
                Some(i)
            } else {
                None
            }
        },
        None => None,
    }
}

} // verus!
