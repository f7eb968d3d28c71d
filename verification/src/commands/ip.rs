//! The command that shows the configured addresses embed. The embed itself
//! is configuration data; this handler only presents it.

use vstd::prelude::*;

use crate::commands::interaction_handler::InteractionHandler;

verus! {

/// The command showing the addresses embed.
#[derive(Clone, Copy)]
pub struct Ip;

impl InteractionHandler for Ip {
    open spec fn spec_name(&self) -> Seq<char> {
        "ip"@
    }

    fn name(&self) -> (r: &'static str)
        ensures
            r@ == self.spec_name(),
    {
        "ip"
    }
}

} // verus!
