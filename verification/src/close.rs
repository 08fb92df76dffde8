//! The codes with which a session is closed, and their texts.

use vstd::prelude::*;

verus! {

/// Why the server refused a session.
#[derive(Clone, Copy, Debug, PartialEq, Eq, Structural)]
pub enum CloseReason {
    Unauthorized,
    InvalidPort,
    InvalidProtocol,
    Unknown,
}

impl CloseReason {
    /// The number carried by the transport's application close.
    pub open spec fn number(self) -> u64 {
        match self {
            CloseReason::Unauthorized => 1u64,
            CloseReason::InvalidPort => 2u64,
            CloseReason::InvalidProtocol => 3u64,
            CloseReason::Unknown => 255u64,
        }
    }

    /// The reason that a close number stands for; any number without a
    /// meaning of its own is `Unknown`.
    pub open spec fn of_number(code: u64) -> CloseReason {
        if code == 1 {
            CloseReason::Unauthorized
        } else if code == 2 {
            CloseReason::InvalidPort
        } else if code == 3 {
            CloseReason::InvalidProtocol
        } else {
            CloseReason::Unknown
        }
    }

    /// The human text sent along with the number.
    pub open spec fn text(self) -> Seq<char> {
        match self {
            CloseReason::Unauthorized => "Unauthorized connection attempt"@,
            CloseReason::InvalidPort => "Invalid port requested, must be between 1024 and 65535"@,
            CloseReason::InvalidProtocol => "Invalid protocol requested, must be TCP or UDP"@,
            CloseReason::Unknown => "Unknown close reason"@,
        }
    }

    /// Encodes the reason as its close number.
    pub fn code(&self) -> (c: u64)
        ensures
            c == self.number(),
            CloseReason::of_number(c) == *self,
    {
        match self {
            CloseReason::Unauthorized => 1u64,
            CloseReason::InvalidPort => 2u64,
            CloseReason::InvalidProtocol => 3u64,
            CloseReason::Unknown => 255u64,
        }
    }

    /// Decodes a close number received from the peer.
    pub fn from_code(code: u64) -> (r: CloseReason)
        ensures
            r == CloseReason::of_number(code),
    {
        if code == 1 {
            CloseReason::Unauthorized
        } else if code == 2 {
            CloseReason::InvalidPort
        } else if code == 3 {
            CloseReason::InvalidProtocol
        } else {
            CloseReason::Unknown
        }
    }

    /// The reason text, as it is sent and shown.
    pub fn to_string(&self) -> (s: String)
        ensures
            s@ == self.text(),
    {
        match self {
            CloseReason::Unauthorized => "Unauthorized connection attempt".to_owned(),
            CloseReason::InvalidPort => "Invalid port requested, must be between 1024 and 65535".to_owned(),
            CloseReason::InvalidProtocol => "Invalid protocol requested, must be TCP or UDP".to_owned(),
            CloseReason::Unknown => "Unknown close reason".to_owned(),
        }
    }
}

/// Decoding the number of a reason gives the reason back.
pub proof fn code_round_trip(reason: CloseReason)
    ensures
        CloseReason::of_number(reason.number()) == reason,
{
}

/// A number decodes to a reason other than `Unknown` exactly when it is that
/// reason's own number.
pub proof fn known_codes(code: u64)
    ensures
        CloseReason::of_number(code) != CloseReason::Unknown ==> CloseReason::of_number(
            code,
        ).number() == code,
        (code != 1 && code != 2 && code != 3) ==> CloseReason::of_number(code)
            == CloseReason::Unknown,
{
}

} // verus!
