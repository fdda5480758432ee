//! What the two handlers of the registration decide. Only a user with a valid token
//! registers another user, and a username is registered once.

use vstd::prelude::*;
use vstd::utf8::encode_utf8;

use super::crypto::constant_time_eq;
use super::state::is_expired;

verus! {

/// Why the first step of a registration failed.
#[derive(Debug, Clone, Copy, PartialEq, Eq, Structural)]
pub enum InitiationFailure {
    /// The request is malformed.
    MalformedRequest,
    /// The username is taken, or the database could not tell.
    UserExists,
    /// The OPAQUE protocol refused the registration request.
    Protocol,
    /// The server setup could not be serialized.
    SetupSerialization,
    /// The server state could not be sealed.
    Sealing,
    /// The response could not be serialized.
    Serialization,
}

impl InitiationFailure {
    pub open spec fn spec_status_code(&self) -> u16 {
        match *self {
            InitiationFailure::MalformedRequest | InitiationFailure::Protocol => 400,
            _ => 500,
        }
    }

    #[verifier::when_used_as_spec(spec_status_code)]
    pub fn status_code(&self) -> (status: u16)
        ensures
            status == self.spec_status_code(),
    {
        match self {
            InitiationFailure::MalformedRequest | InitiationFailure::Protocol => 400,
            _ => 500,
        }
    }

    pub fn tag(&self) -> (tag: &'static str)
        ensures
            tag@ == match *self {
                InitiationFailure::MalformedRequest => ""@,
                InitiationFailure::UserExists => "1"@,
                InitiationFailure::Protocol => "2"@,
                InitiationFailure::SetupSerialization => "2.5"@,
                InitiationFailure::Sealing => "3"@,
                InitiationFailure::Serialization => "4"@,
            },
    {
        match self {
            InitiationFailure::MalformedRequest => "",
            InitiationFailure::UserExists => "1",
            InitiationFailure::Protocol => "2",
            InitiationFailure::SetupSerialization => "2.5",
            InitiationFailure::Sealing => "3",
            InitiationFailure::Serialization => "4",
        }
    }
}

/// Decides whether a username may be registered, by what the database says of it: `None`
/// where the lookup failed, else whether the username is there already. Only a username
/// that is known to be free is admitted.
pub fn admit_username(exists: Option<bool>) -> (verdict: Result<(), InitiationFailure>)
    ensures
        verdict == if exists == Some(false) {
            Ok::<(), InitiationFailure>(())
        } else {
            Err::<(), InitiationFailure>(InitiationFailure::UserExists)
        },
{
    match exists {
        Some(false) => Ok(()),
        _ => Err(InitiationFailure::UserExists),
    }
}

/// Why the second step of a registration failed.
#[derive(Debug, Clone, Copy, PartialEq, Eq, Structural)]
pub enum ConclusionFailure {
    /// The request is malformed.
    MalformedRequest,
    /// The sealed state cannot be opened under the username of the request.
    Unsealing,
    /// The username of the request is not as long as the sealed one.
    UsernameLength,
    /// The username of the request is not the sealed one.
    UsernameMismatch,
    /// The sealed state has expired.
    Expired,
    /// The password file could not be stored.
    Database,
}

impl ConclusionFailure {
    pub open spec fn spec_status_code(&self) -> u16 {
        match *self {
            ConclusionFailure::Database => 500,
            _ => 400,
        }
    }

    #[verifier::when_used_as_spec(spec_status_code)]
    pub fn status_code(&self) -> (status: u16)
        ensures
            status == self.spec_status_code(),
    {
        match self {
            ConclusionFailure::Database => 500,
            _ => 400,
        }
    }

    pub fn tag(&self) -> (tag: &'static str)
        ensures
            tag@ == match *self {
                ConclusionFailure::MalformedRequest => "1"@,
                ConclusionFailure::Unsealing => "2"@,
                ConclusionFailure::UsernameLength => "3"@,
                ConclusionFailure::UsernameMismatch => "4"@,
                ConclusionFailure::Expired => "5"@,
                ConclusionFailure::Database => "7"@,
            },
    {
        match self {
            ConclusionFailure::MalformedRequest => "1",
            ConclusionFailure::Unsealing => "2",
            ConclusionFailure::UsernameLength => "3",
            ConclusionFailure::UsernameMismatch => "4",
            ConclusionFailure::Expired => "5",
            ConclusionFailure::Database => "7",
        }
    }
}

/// What the checks of the second step say of an opened state: the username of the request
/// has to be as long as the sealed one, then the same, and the state must not have expired.
pub open spec fn conclusion_spec(
    username: Seq<char>,
    sealed_user: Seq<char>,
    valid_until: int,
    now: int,
) -> Result<(), ConclusionFailure> {
    if encode_utf8(username).len() != encode_utf8(sealed_user).len() {
        Err(ConclusionFailure::UsernameLength)
    } else if encode_utf8(username) != encode_utf8(sealed_user) {
        Err(ConclusionFailure::UsernameMismatch)
    } else if valid_until <= now {
        Err(ConclusionFailure::Expired)
    } else {
        Ok(())
    }
}

/// Checks an opened state against the request that brought it back. The lengths of the
/// two usernames are compared first; the names themselves in constant time.
pub fn check_conclusion(username: &str, sealed_user: &str, valid_until: i128, now: i128) -> (verdict:
    Result<(), ConclusionFailure>)
    ensures
        verdict == conclusion_spec(username@, sealed_user@, valid_until as int, now as int),
        verdict.is_ok() <==> username@ == sealed_user@ && valid_until > now,
{
    proof {
        vstd::utf8::encode_utf8_decode_utf8(username@);
        vstd::utf8::encode_utf8_decode_utf8(sealed_user@);
    }
    if username.as_bytes().len() != sealed_user.as_bytes().len() {
        return Err(ConclusionFailure::UsernameLength);
    }
    if !constant_time_eq(username.as_bytes(), sealed_user.as_bytes()) {
        return Err(ConclusionFailure::UsernameMismatch);
    }
    if is_expired(valid_until, now) {
        return Err(ConclusionFailure::Expired);
    }
    Ok(())
}

} // verus!
