//! The decisions of the remote handlers: which requests reach the coordinator, and
//! how its replies become responses.
use crate::rpc::{is_error, Code, RpcError, SignInResponse, SignUpResponse, TodoItem};
use crate::store::{Request, User};
use vstd::prelude::*;
use vstd::string::StringExecFns;

verus! {

pub open spec fn pin_in_range(pin: i32) -> bool {
    1000 <= pin <= 9999
}

/// Whether `pin` has exactly four digits.
pub fn valid_pin(pin: i32) -> (r: bool)
    ensures
        r == pin_in_range(pin),
{
    1000 <= pin && pin <= 9999
}

pub open spec fn bad_pin_message(username: Seq<char>) -> Seq<char> {
    "Sign Up for Username: "@ + username + " - PIN should consist only 4 digits"@
}

pub open spec fn is_sign_up(q: Request, username: Seq<char>, pin: i32) -> bool {
    match q {
        Request::SignUp { username: u, pin: p } => u@ == username && p == pin,
        _ => false,
    }
}

/// The sign-up message for the coordinator; a PIN without exactly four digits is
/// refused here, so no such credential ever reaches storage.
pub fn sign_up_request(username: String, pin: i32) -> (r: Result<Request, RpcError>)
    ensures
        r is Ok <==> pin_in_range(pin),
        r matches Ok(q) ==> is_sign_up(q, username@, pin),
        r matches Err(e) ==> is_error(e, Code::InvalidArgument, bad_pin_message(username@)),
{
    if !valid_pin(pin) {
        let message = String::from_str("Sign Up for Username: ").concat(username.as_str()).concat(
            " - PIN should consist only 4 digits",
        );
        return Err(RpcError { code: Code::InvalidArgument, message });
    }
    Ok(Request::SignUp { username, pin })
}

/// The response to a sign-up, from the coordinator's reply (`None` where the reply
/// never came).
pub fn sign_up_response(reply: Option<Result<User, String>>) -> (r: Result<
    SignUpResponse,
    RpcError,
>)
    ensures
        match reply {
            Some(Ok(_)) => r matches Ok(s) && s.success && s.message@ == "Signed up successfully"@,
            Some(Err(m)) => r matches Err(e) && is_error(
                e,
                Code::Aborted,
                "Error while signing up: "@ + m@,
            ),
            None => r matches Err(e) && is_error(e, Code::Aborted, "Error while signing up"@),
        },
{
    match reply {
        Some(Ok(_)) => Ok(
            SignUpResponse { message: String::from_str("Signed up successfully"), success: true },
        ),
        Some(Err(m)) => Err(
            RpcError {
                code: Code::Aborted,
                message: String::from_str("Error while signing up: ").concat(m.as_str()),
            },
        ),
        None => Err(
            RpcError { code: Code::Aborted, message: String::from_str("Error while signing up") },
        ),
    }
}

/// The response to a sign-in, from the coordinator's reply (`None` where the reply
/// never came): the token, or an authentication failure carrying the reason.
pub fn sign_in_response(reply: Option<Result<String, String>>) -> (r: Result<
    SignInResponse,
    RpcError,
>)
    ensures
        match reply {
            Some(Ok(t)) => r matches Ok(s) && s.token@ == t@,
            Some(Err(m)) => r matches Err(e) && is_error(e, Code::Unauthenticated, m@),
            None => r matches Err(e) && is_error(e, Code::Aborted, "Error while signing in"@),
        },
{
    match reply {
        Some(Ok(token)) => Ok(SignInResponse { token }),
        Some(Err(m)) => Err(RpcError { code: Code::Unauthenticated, message: m }),
        None => Err(
            RpcError { code: Code::Aborted, message: String::from_str("Error while signing in") },
        ),
    }
}

/// One item of the outgoing task stream, from one item of the coordinator's.
pub fn relay_item(item: Result<TodoItem, String>) -> (r: Result<TodoItem, RpcError>)
    ensures
        match item {
            Ok(t) => r == Ok::<TodoItem, RpcError>(t),
            Err(m) => r matches Err(e) && is_error(e, Code::Aborted, m@),
        },
{
    match item {
        Ok(t) => Ok(t),
        Err(m) => Err(RpcError { code: Code::Aborted, message: m }),
    }
}

} // verus!
