//! What the authentication middleware decides: whether the `Authorization` header of a
//! request carries a valid token, and for whom.

use std::rc::Rc;
use vstd::prelude::*;
use vstd::utf8::{encode_utf8, is_ascii_chars};

use super::state::is_expired;
use super::crypto::{base64_decode, base64_decoded, ed25519_accepts, ed25519_verify_strict};
use super::{decode_signed_token, decode_token, signed_token_decoding, token_decoding, Token};

verus! {

/// The user that a valid token was issued for.
#[derive(Debug, Clone, PartialEq, Eq, Hash)]
pub struct User {
    pub username: String,
}

impl User {
    pub fn new(username: String) -> (user: Self)
        ensures
            user.username == username,
    {
        Self { username }
    }

    pub fn username(&self) -> (username: &str)
        ensures
            username@ == self.username@,
    {
        self.username.as_str()
    }
}

/// The user of a request that has passed the middleware.
#[derive(Clone)]
pub struct AuthenticatedUser(pub Rc<User>);

impl AuthenticatedUser {
    pub fn user(&self) -> (user: &User)
        ensures
            *user == *self.0,
    {
        &self.0
    }
}

/// A handler asked for the user of a request that has not passed the middleware.
#[derive(Debug, Clone, Copy, PartialEq, Eq, Structural)]
pub struct NoUserSetError;

impl NoUserSetError {
    pub fn message(&self) -> (text: &'static str)
        ensures
            text@ == "Authenticated user not set! Authentication middleware not attached!"@,
    {
        "Authenticated user not set! Authentication middleware not attached!"
    }
}

/// The status that the middleware answers with where it lets a request not pass.
pub const UNAUTHORIZED: u16 = 401;

/// Whom a token admits at `now`, once its signature has been tested and its content read:
/// the signature has to be valid, the content has to be a token, and the token has to
/// expire after `now`.
pub open spec fn accept_spec(signature_valid: bool, token: Option<(Seq<char>, int)>, now: int)
    -> Option<Seq<char>> {
    match token {
        Some((user, expires)) => if signature_valid && expires > now {
            Some(user)
        } else {
            None
        },
        None => None,
    }
}

/// Decides whom a token admits at `now`.
pub fn accept_token(signature_valid: bool, token: Option<Token>, now: i128) -> (user: Option<
    User,
>)
    ensures
        match user {
            Some(user) => accept_spec(
                signature_valid,
                match token {
                    Some(token) => Some((token.user@, token.expires as int)),
                    None => None,
                },
                now as int,
            ) == Some(user.username@),
            None => accept_spec(
                signature_valid,
                match token {
                    Some(token) => Some((token.user@, token.expires as int)),
                    None => None,
                },
                now as int,
            ).is_none(),
        },
{
    if !signature_valid {
        return None;
    }
    match token {
        Some(token) => {
            if is_expired(token.expires, now) {
                None
            } else {
                Some(User::new(token.user))
            }
        },
        None => None,
    }
}

/// Whom the header `authorization` admits at `now` under the server's verifying key. The
/// header has to be ASCII and base64 of a serialized signed token; the signature has to
/// pass the strict verification; what was signed has to be a serialized token that
/// expires after `now`.
pub open spec fn authenticate_spec(authorization: Seq<char>, key: Seq<u8>, now: int) -> Option<
    Seq<char>,
> {
    if !is_ascii_chars(authorization) {
        None
    } else {
        match base64_decoded(encode_utf8(authorization)) {
            None => None,
            Some(bytes) => match signed_token_decoding(bytes) {
                None => None,
                Some((token_bytes, signature)) => accept_spec(
                    ed25519_accepts(key, token_bytes, signature),
                    token_decoding(token_bytes),
                    now,
                ),
            },
        }
    }
}

/// A header that carries a serialized signed token admits the user of the token exactly
/// when the signature is valid and the token expires after `now`; at and after its expiry,
/// and with any other signature, it admits nobody.
pub proof fn lemma_token_verification(
    authorization: Seq<char>,
    key: Seq<u8>,
    now: int,
    token_bytes: Seq<u8>,
    signature: Seq<u8>,
    user: Seq<char>,
    expires: int,
)
    requires
        is_ascii_chars(authorization),
        base64_decoded(encode_utf8(authorization)).is_some(),
        signed_token_decoding(base64_decoded(encode_utf8(authorization)).unwrap()) == Some(
            (token_bytes, signature),
        ),
        token_decoding(token_bytes) == Some((user, expires)),
    ensures
        authenticate_spec(authorization, key, now) == if ed25519_accepts(
            key,
            token_bytes,
            signature,
        ) && expires > now {
            Some(user)
        } else {
            None
        },
{
}

/// Verifies the `Authorization` header of a request. `None` is answered with
/// [`UNAUTHORIZED`] and nothing more.
pub fn authenticate(authorization: &str, verifying_key: &[u8; 32], now: i128) -> (user: Option<
    User,
>)
    ensures
        match user {
            Some(user) => authenticate_spec(authorization@, verifying_key@, now as int) == Some(
                user.username@,
            ),
            None => authenticate_spec(authorization@, verifying_key@, now as int).is_none(),
        },
{
    if !authorization.is_ascii() {
        return None;
    }
    let bytes: Vec<u8> = base64_decode(authorization.as_bytes())?;
    let signed = decode_signed_token(bytes.as_slice())?;
    if !ed25519_verify_strict(verifying_key, signed.token_bytes(), signed.signature()) {
        return None;
    }
    accept_token(true, decode_token(signed.token_bytes()), now)
}

} // verus!
