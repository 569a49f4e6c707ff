//! Bearer tokens on protected operations: a token in, an identity out.
use crate::rpc::{is_error, Code, RpcError};
use crate::token::{verify_spec, TokenCodec};
use vstd::prelude::*;
use vstd::string::StringExecFns;

verus! {

/// The identity attached to a call whose token verified.
#[derive(Clone, Debug)]
pub struct AuthExtension {
    pub username: String,
}

/// Checks the bearer token of each protected call. It holds no state but the key.
pub struct AuthInterceptor {
    codec: TokenCodec,
}

impl AuthInterceptor {
    pub closed spec fn secret(&self) -> Seq<u8> {
        self.codec.secret()
    }

    pub fn new(codec: TokenCodec) -> (r: AuthInterceptor)
        ensures
            r.secret() == codec.secret(),
    {
        AuthInterceptor { codec }
    }

    /// Lets a call through exactly when `authorization` holds a token that verifies,
    /// and then hands back the username it was signed for.
    pub fn call(&self, authorization: Option<&str>) -> (r: Result<AuthExtension, RpcError>)
        ensures
            match authorization {
                None => r matches Err(e) && is_error(e, Code::Unauthenticated, "No valid auth token"@),
                Some(t) => match verify_spec(self.secret(), t@) {
                    Ok(u) => r matches Ok(x) && x.username@ == u,
                    Err(_) => r matches Err(e) && is_error(e, Code::Unauthenticated, "No valid auth token"@),
                },
            },
    {
        match authorization {
            None => Err(unauthenticated()),
            Some(t) => match self.codec.verify(t) {
                Ok(username) => Ok(AuthExtension { username }),
                Err(_) => Err(unauthenticated()),
            },
        }
    }
}

fn unauthenticated() -> (e: RpcError)
    ensures
        is_error(e, Code::Unauthenticated, "No valid auth token"@),
{
    RpcError { code: Code::Unauthenticated, message: String::from_str("No valid auth token") }
}

/// The identity that a protected handler needs; without one the call is refused
/// before any work is done.
pub fn require_identity(extension: Option<&AuthExtension>) -> (r: Result<String, RpcError>)
    ensures
        match extension {
            Some(x) => r matches Ok(u) && u@ == x.username@,
            None => r matches Err(e) && is_error(e, Code::Unauthenticated, "Unauthorized request"@),
        },
{
    match extension {
        Some(x) => Ok(x.username.clone()),
        None => Err(
            RpcError { code: Code::Unauthenticated, message: String::from_str("Unauthorized request") },
        ),
    }
}

} // verus!
