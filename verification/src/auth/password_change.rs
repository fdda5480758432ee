//! What the two handlers of the password change decide. A user changes the password of
//! the username that the token was issued for, and of no other.

use vstd::prelude::*;

use super::state::is_expired;

verus! {

/// Why the first step of a password change failed.
#[derive(Debug, Clone, Copy, PartialEq, Eq, Structural)]
pub enum InitiationFailure {
    /// The request is malformed.
    MalformedRequest,
    /// The OPAQUE protocol refused the registration request.
    Protocol,
    /// The server setup could not be serialized.
    SetupSerialization,
    /// The server state could not be sealed.
    Sealing,
    /// The response could not be serialized.
    Serialization,
}

impl InitiationFailure {
    pub open spec fn spec_status_code(&self) -> u16 {
        match *self {
            InitiationFailure::MalformedRequest | InitiationFailure::Protocol => 400,
            _ => 500,
        }
    }

    #[verifier::when_used_as_spec(spec_status_code)]
    pub fn status_code(&self) -> (status: u16)
        ensures
            status == self.spec_status_code(),
    {
        match self {
            InitiationFailure::MalformedRequest | InitiationFailure::Protocol => 400,
            _ => 500,
        }
    }

    pub fn tag(&self) -> (tag: &'static str)
        ensures
            tag@ == match *self {
                InitiationFailure::MalformedRequest => ""@,
                InitiationFailure::Protocol => "2"@,
                InitiationFailure::SetupSerialization => "2.5"@,
                InitiationFailure::Sealing => "3"@,
                InitiationFailure::Serialization => "4"@,
            },
    {
        match self {
            InitiationFailure::MalformedRequest => "",
            InitiationFailure::Protocol => "2",
            InitiationFailure::SetupSerialization => "2.5",
            InitiationFailure::Sealing => "3",
            InitiationFailure::Serialization => "4",
        }
    }
}

/// Why the second step of a password change failed.
#[derive(Debug, Clone, Copy, PartialEq, Eq, Structural)]
pub enum ConclusionFailure {
    /// The request is malformed.
    MalformedRequest,
    /// The sealed state cannot be opened under the username of the token.
    Unsealing,
    /// The sealed state has expired.
    Expired,
    /// The password file could not be stored.
    Database,
}

impl ConclusionFailure {
    pub open spec fn spec_status_code(&self) -> u16 {
        match *self {
            ConclusionFailure::Database => 500,
            _ => 400,
        }
    }

    #[verifier::when_used_as_spec(spec_status_code)]
    pub fn status_code(&self) -> (status: u16)
        ensures
            status == self.spec_status_code(),
    {
        match self {
            ConclusionFailure::Database => 500,
            _ => 400,
        }
    }

    pub fn tag(&self) -> (tag: &'static str)
        ensures
            tag@ == match *self {
                ConclusionFailure::MalformedRequest => "1"@,
                ConclusionFailure::Unsealing => "2"@,
                ConclusionFailure::Expired => "5"@,
                ConclusionFailure::Database => "7"@,
            },
    {
        match self {
            ConclusionFailure::MalformedRequest => "1",
            ConclusionFailure::Unsealing => "2",
            ConclusionFailure::Expired => "5",
            ConclusionFailure::Database => "7",
        }
    }
}

/// Checks an opened state: it must not have expired. The username needs no check: the
/// state was opened under the username of the token.
pub fn check_conclusion(valid_until: i128, now: i128) -> (verdict: Result<(), ConclusionFailure>)
    ensures
        verdict == if valid_until <= now {
            Err::<(), ConclusionFailure>(ConclusionFailure::Expired)
        } else {
            Ok::<(), ConclusionFailure>(())
        },
{
    if is_expired(valid_until, now) {
        Err(ConclusionFailure::Expired)
    } else {
        Ok(())
    }
}

} // verus!
