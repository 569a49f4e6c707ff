//! What the remote interface hands back: its responses and its failure outcomes.
use vstd::prelude::*;

verus! {

/// The outcome class of a failed call.
#[derive(Clone, Copy, Debug, PartialEq, Eq, Structural)]
pub enum Code {
    InvalidArgument,
    Unauthenticated,
    Aborted,
}

/// A failed call: its class and the message shown to the caller.
#[derive(Clone, Debug)]
pub struct RpcError {
    pub code: Code,
    pub message: String,
}

pub open spec fn is_error(e: RpcError, code: Code, message: Seq<char>) -> bool {
    e.code == code && e.message@ == message
}

/// The reply to a successful sign-up.
#[derive(Clone, Debug)]
pub struct SignUpResponse {
    pub message: String,
    pub success: bool,
}

/// The reply to a successful sign-in.
#[derive(Clone, Debug)]
pub struct SignInResponse {
    pub token: String,
}

/// One task as it goes out on the wire.
#[derive(Clone, Debug)]
pub struct TodoItem {
    pub id: String,
    pub description: String,
    pub status: String,
}

impl TodoItem {
    /// A field-by-field copy.
    pub fn duplicate(&self) -> (r: TodoItem)
        ensures
            r == *self,
    {
        TodoItem {
            id: self.id.clone(),
            description: self.description.clone(),
            status: self.status.clone(),
        }
    }
}

} // verus!
