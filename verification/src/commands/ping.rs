//! The diagnostic command that echoes the current roster back to the
//! invoker.

use vstd::prelude::*;

use crate::commands::interaction_handler::InteractionHandler;

verus! {

/// The diagnostic echo command.
#[derive(Clone, Copy)]
pub struct Ping;

impl InteractionHandler for Ping {
    open spec fn spec_name(&self) -> Seq<char> {
        "ping"@
    }

    fn name(&self) -> (r: &'static str)
        ensures
            r@ == self.spec_name(),
    {
        "ping"
    }
}

} // verus!
