//! The reasons for which the contract refuses a request.

use vstd::prelude::*;

verus! {

/// Why a request was refused.
#[derive(Copy, Clone, Debug, PartialEq, Eq, Structural)]
pub enum Error {
    // Auth / access
    Unauthorized,
    Blacklisted,

    // Event lifecycle
    EventNotFound,
    EventAlreadyExists,
    EventNotActive,
    EventAlreadyEnded,

    // Registration
    NotRegistered,
    AlreadyRegistered,

    // Check-in
    AlreadyCheckedIn,
    NotCheckedIn,
    FaceVerificationFailed,

    // QR / nonce
    InvalidNonce,
    NonceExpired,
    NonceAlreadyUsed,

    // Presence ping
    NoPingActive,
    PingWindowExpired,
    AlreadyConfirmedPing,

    // Check-out / certificate
    AlreadyCheckedOut,
    AttendanceInsufficient,
    CertificateAlreadyMinted,
    NotEligible,
}

impl Error {
    /// The number under which clients see this error.
    pub open spec fn spec_code(self) -> u32 {
        match self {
            Error::Unauthorized => 1,
            Error::Blacklisted => 2,
            Error::EventNotFound => 10,
            Error::EventAlreadyExists => 11,
            Error::EventNotActive => 12,
            Error::EventAlreadyEnded => 13,
            Error::NotRegistered => 20,
            Error::AlreadyRegistered => 21,
            Error::AlreadyCheckedIn => 30,
            Error::NotCheckedIn => 31,
            Error::FaceVerificationFailed => 32,
            Error::InvalidNonce => 40,
            Error::NonceExpired => 41,
            Error::NonceAlreadyUsed => 42,
            Error::NoPingActive => 50,
            Error::PingWindowExpired => 51,
            Error::AlreadyConfirmedPing => 52,
            Error::AlreadyCheckedOut => 60,
            Error::AttendanceInsufficient => 61,
            Error::CertificateAlreadyMinted => 62,
            Error::NotEligible => 63,
        }
    }

    /// Returns the number under which clients see this error.
    pub fn code(self) -> (code: u32)
        ensures
            code == self.spec_code(),
    {
        match self {
            Error::Unauthorized => 1,
            Error::Blacklisted => 2,
            Error::EventNotFound => 10,
            Error::EventAlreadyExists => 11,
            Error::EventNotActive => 12,
            Error::EventAlreadyEnded => 13,
            Error::NotRegistered => 20,
            Error::AlreadyRegistered => 21,
            Error::AlreadyCheckedIn => 30,
            Error::NotCheckedIn => 31,
            Error::FaceVerificationFailed => 32,
            Error::InvalidNonce => 40,
            Error::NonceExpired => 41,
            Error::NonceAlreadyUsed => 42,
            Error::NoPingActive => 50,
            Error::PingWindowExpired => 51,
            Error::AlreadyConfirmedPing => 52,
            Error::AlreadyCheckedOut => 60,
            Error::AttendanceInsufficient => 61,
            Error::CertificateAlreadyMinted => 62,
            Error::NotEligible => 63,
        }
    }
}

/// Clients can tell any two errors apart by their numbers.
pub proof fn law_codes_are_distinct(a: Error, b: Error)
    ensures
        a.spec_code() == b.spec_code() ==> a == b,
{
}

} // verus!
