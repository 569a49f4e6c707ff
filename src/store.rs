//! The coordinator's requests and how each storage outcome becomes a reply.
use crate::rpc::TodoItem;
use crate::token::{signed_token, verify_spec, TokenCodec, TokenError};
use vstd::prelude::*;
use vstd::string::StringExecFns;

verus! {

/// A credential: a unique username and its PIN.
#[derive(Clone, Debug)]
pub struct User {
    pub username: String,
    pub pin: i32,
}

/// One operation that the coordinator runs against storage.
#[derive(Clone, Debug)]
pub enum Request {
    SignUp { username: String, pin: i32 },
    SignIn { username: String, pin: i32 },
    GetTodos { username: String },
}

/// How a storage operation failed.
#[derive(Clone, Debug)]
pub enum StoreError {
    /// The database refused the operation (a constraint, a domain error); its words
    /// are meant for the user.
    Database(String),
    /// A lookup that expected a row found none.
    NotFound(String),
    /// Anything else: connection trouble, decoding, a closed pool.
    Other,
}

/// The reply to a sign-up, from the outcome of the insert.
pub fn sign_up_reply(username: String, pin: i32, outcome: Result<(), StoreError>) -> (r: Result<
    User,
    String,
>)
    ensures
        match outcome {
            Ok(()) => r matches Ok(u) && u.username@ == username@ && u.pin == pin,
            Err(StoreError::Database(m)) => r matches Err(e) && e@ == m@,
            Err(_) => r matches Err(e) && e@ == "error while inserting user into database"@,
        },
{
    match outcome {
        Ok(()) => Ok(User { username, pin }),
        Err(StoreError::Database(m)) => Err(m),
        Err(_) => Err(String::from_str("error while inserting user into database")),
    }
}

/// The reply to a sign-in, from the row that matched both username and PIN: a
/// fresh token for that username, which verifies back to it.
pub fn sign_in_reply(codec: &TokenCodec, outcome: Result<User, StoreError>) -> (r: Result<
    String,
    String,
>)
    ensures
        match outcome {
            Ok(u) => r matches Ok(t) && t@ == signed_token(codec.secret(), u.username@) && (
            u.username@.len() > 0 ==> verify_spec(codec.secret(), t@) == Ok::<
                Seq<char>,
                TokenError,
            >(u.username@)),
            Err(StoreError::Database(m)) => r matches Err(e) && e@ == m@,
            Err(StoreError::NotFound(m)) => r matches Err(e) && e@ == m@,
            Err(StoreError::Other) => r matches Err(e) && e@ == "error while signing in"@,
        },
{
    match outcome {
        Ok(u) => Ok(codec.sign(&u.username)),
        Err(StoreError::Database(m)) => Err(m),
        Err(StoreError::NotFound(m)) => Err(m),
        Err(StoreError::Other) => Err(String::from_str("error while signing in")),
    }
}

/// The items that a task query sends back, one per row and in the rows' order; a
/// failed query ends the stream with one error item instead of stopping silently.
pub fn task_replies(outcome: &Result<Vec<TodoItem>, StoreError>) -> (r: Vec<
    Result<TodoItem, String>,
>)
    ensures
        match outcome {
            Ok(rows) => r@.len() == rows@.len() && forall|i: int|
                0 <= i < rows@.len() ==> #[trigger] r@[i] == Ok::<TodoItem, String>(rows@[i]),
            Err(_) => r@.len() == 1 && (r@[0] matches Err(e) && e@ == "error while getting todos"@),
        },
{
    let mut out: Vec<Result<TodoItem, String>> = Vec::new();
    match outcome {
        Ok(rows) => {
            let mut i: usize = 0;
            while i < rows.len()
                invariant
                    i <= rows@.len(),
                    out@.len() == i,
                    forall|j: int| 0 <= j < i ==> #[trigger] out@[j] == Ok::<TodoItem, String>(rows@[j]),
                decreases rows@.len() - i,
            {
                out.push(Ok(rows[i].duplicate()));
                i = i + 1;
            }
        },
        Err(_) => {
            out.push(Err(String::from_str("error while getting todos")));
        },
    }
    out
}

} // verus!
