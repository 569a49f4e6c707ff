//! The desktop client's application state.
use vstd::prelude::*;

verus! {

/// The client window; it keeps no state of its own yet.
#[derive(Clone, Copy, Debug, Default)]
pub struct TodoApp {}

impl TodoApp {
    /// The title of the client window.
    pub fn name(&self) -> (r: &'static str)
        ensures
            r@ == "Todo gRPC"@,
    {
        "Todo gRPC"
    }
}

} // verus!
