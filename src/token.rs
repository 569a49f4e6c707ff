//! Session tokens: a username signed into an HS256 JSON web token and read back.
use hmac::{Hmac, NewMac};
use jwt::{RegisteredClaims, SignWithKey, VerifyWithKey};
use sha2::Sha256;
use vstd::prelude::*;

verus! {

#[verifier::external_type_specification]
#[verifier::external_body]
pub struct ExJwtError(jwt::Error);

/// The token that `jwt` produces for the claim set `{"sub": subject}`, signed with
/// HMAC-SHA256 under the key `secret`.
pub uninterp spec fn signed_token(secret: Seq<u8>, subject: Seq<char>) -> Seq<char>;

/// What `jwt` reads from `token` under the key `secret`: `None` where the token is
/// malformed or its signature does not match, else the subject claim, if any.
pub uninterp spec fn token_subject(secret: Seq<u8>, token: Seq<char>) -> Option<Option<Seq<char>>>;

pub open spec fn opt_view(o: Option<String>) -> Option<Seq<char>> {
    match o {
        Some(s) => Some(s@),
        None => None,
    }
}

/// Relies on `Hmac::<Sha256>::new_from_slice` (which accepts a key of any length)
/// and on `SignWithKey::sign_with_key` for a claim set holding the subject alone:
/// the claims serialise as a JSON object with string values, which cannot fail,
/// and the token it returns carries that subject under the same key.
#[verifier::external_body]
fn sign_subject(secret: &[u8], subject: &String) -> (r: Result<String, jwt::Error>)
    ensures
        r is Ok,
        r matches Ok(t) ==> t@ == signed_token(secret@, subject@),
        r matches Ok(t) ==> token_subject(secret@, t@) == Some(Some(subject@)),
{
    let key = Hmac::<Sha256>::new_from_slice(secret)?;
    let claims = RegisteredClaims { subject: Some(subject.clone()), ..Default::default() };
    claims.sign_with_key(&key)
}

/// Relies on `VerifyWithKey::verify_with_key` into `RegisteredClaims`: it parses the
/// token, checks its HMAC-SHA256 signature under the key and hands back the claims,
/// of which the subject is kept.
#[verifier::external_body]
fn verify_subject(secret: &[u8], token: &str) -> (r: Result<Option<String>, jwt::Error>)
    ensures
        r is Ok <==> token_subject(secret@, token@) is Some,
        r matches Ok(s) ==> token_subject(secret@, token@) == Some(opt_view(s)),
{
    let key = Hmac::<Sha256>::new_from_slice(secret)?;
    let claims: RegisteredClaims = token.verify_with_key(&key)?;
    Ok(claims.subject)
}

/// Why a token was refused.
#[derive(Clone, Copy, Debug, PartialEq, Eq, Structural)]
pub enum TokenError {
    /// The token is malformed or its signature does not match the key.
    Invalid,
    /// The signature holds but no non-empty subject is claimed.
    NoSubject,
}

/// What verification yields for `token` under `secret`.
pub open spec fn verify_spec(secret: Seq<u8>, token: Seq<char>) -> Result<Seq<char>, TokenError> {
    match token_subject(secret, token) {
        None => Err(TokenError::Invalid),
        Some(None) => Err(TokenError::NoSubject),
        Some(Some(s)) => if s.len() == 0 {
            Err(TokenError::NoSubject)
        } else {
            Ok(s)
        },
    }
}

/// Signs usernames into session tokens and verifies them, under one secret key.
pub struct TokenCodec {
    secret: Vec<u8>,
}

impl TokenCodec {
    pub closed spec fn secret(&self) -> Seq<u8> {
        self.secret@
    }

    pub fn new(secret: Vec<u8>) -> (r: TokenCodec)
        ensures
            r.secret() == secret@,
    {
        TokenCodec { secret }
    }

    /// The token for `username`; it verifies back to `username` under this codec.
    pub fn sign(&self, username: &String) -> (r: String)
        ensures
            r@ == signed_token(self.secret(), username@),
            username@.len() > 0 ==> verify_spec(self.secret(), r@) == Ok::<Seq<char>, TokenError>(
                username@,
            ),
    {
        match sign_subject(self.secret.as_slice(), username) {
            Ok(t) => t,
            Err(_) => String::new(),
        }
    }

    /// The username that `token` was signed for; fails closed on a malformed token,
    /// a wrong signature, or a missing or empty subject.
    pub fn verify(&self, token: &str) -> (r: Result<String, TokenError>)
        ensures
            match r {
                Ok(s) => verify_spec(self.secret(), token@) == Ok::<Seq<char>, TokenError>(s@),
                Err(e) => verify_spec(self.secret(), token@) == Err::<Seq<char>, TokenError>(e),
            },
    {
        match verify_subject(self.secret.as_slice(), token) {
            Err(_) => Err(TokenError::Invalid),
            Ok(None) => Err(TokenError::NoSubject),
            Ok(Some(s)) => {
                if s.as_str().is_empty() {
                    Err(TokenError::NoSubject)
                } else {
                    Ok(s)
                }
            },
        }
    }
}

} // verus!
