//! The ledger's failure taxonomy and its stable numeric codes.

use vstd::prelude::*;

verus! {

/// Why a ledger operation was rejected.
///
/// Every rejection leaves the ledger exactly as it was. Each variant has a
/// stable numeric code (see [`Error::code`]) so that clients can match on it
/// without comparing strings.
#[derive(Copy, Clone, Debug, PartialEq, Eq, Structural, PartialOrd, Ord, Hash)]
pub enum Error {
    /// The confidence score lies outside `0..=100`.
    InvalidConfidence,
    /// The submitter has already attested this video hash.
    DuplicateVerification,
    /// The signer of the call is not the submitter it names.
    Unauthorized,
    /// No attestation exists for the addressed hash and submitter.
    NotFound,
    /// The video hash is malformed. The fixed-size hash type keeps this from
    /// arising inside the ledger; the code is reserved.
    InvalidHash,
}

impl Error {
    /// The numeric code of each variant.
    pub open spec fn spec_code(self) -> u32 {
        match self {
            Error::InvalidConfidence => 1,
            Error::DuplicateVerification => 2,
            Error::Unauthorized => 3,
            Error::NotFound => 4,
            Error::InvalidHash => 5,
        }
    }

    /// The variant that a numeric code stands for, if any.
    pub open spec fn spec_from_code(code: u32) -> Option<Error> {
        if code == 1 {
            Some(Error::InvalidConfidence)
        } else if code == 2 {
            Some(Error::DuplicateVerification)
        } else if code == 3 {
            Some(Error::Unauthorized)
        } else if code == 4 {
            Some(Error::NotFound)
        } else if code == 5 {
            Some(Error::InvalidHash)
        } else {
            None
        }
    }

    /// Returns the stable numeric code of this error.
    #[verifier::when_used_as_spec(spec_code)]
    pub fn code(self) -> (code: u32)
        ensures
            code == self.spec_code(),
            1 <= code <= 5,
    {
        match self {
            Error::InvalidConfidence => 1,
            Error::DuplicateVerification => 2,
            Error::Unauthorized => 3,
            Error::NotFound => 4,
            Error::InvalidHash => 5,
        }
    }

    /// Returns the error that `code` stands for, or `None` when `code` is not
    /// one of the five assigned codes.
    pub fn from_code(code: u32) -> (error: Option<Error>)
        ensures
            error == Error::spec_from_code(code),
            error is Some <==> 1 <= code <= 5,
    {
        match code {
            1 => Some(Error::InvalidConfidence),
            2 => Some(Error::DuplicateVerification),
            3 => Some(Error::Unauthorized),
            4 => Some(Error::NotFound),
            5 => Some(Error::InvalidHash),
            _ => None,
        }
    }

    /// Codes identify errors: decoding the code of an error gives that error
    /// back, and two errors with the same code are the same error.
    pub proof fn lemma_code_round_trip(a: Error, b: Error)
        ensures
            Error::spec_from_code(a.spec_code()) == Some(a),
            a.spec_code() == b.spec_code() ==> a == b,
    {
    }

    /// A short description of this error for people.
    pub fn message(self) -> (text: &'static str)
        ensures
            text@ == self.spec_message(),
    {
        match self {
            Error::InvalidConfidence => "confidence score must be between 0 and 100",
            Error::DuplicateVerification => "video hash already verified by this submitter",
            Error::Unauthorized => "caller is not authorized",
            Error::NotFound => "verification record not found",
            Error::InvalidHash => "video hash is invalid",
        }
    }

    /// The text that [`Error::message`] returns.
    pub open spec fn spec_message(self) -> Seq<char> {
        match self {
            Error::InvalidConfidence => "confidence score must be between 0 and 100"@,
            Error::DuplicateVerification => "video hash already verified by this submitter"@,
            Error::Unauthorized => "caller is not authorized"@,
            Error::NotFound => "verification record not found"@,
            Error::InvalidHash => "video hash is invalid"@,
        }
    }
}

} // verus!
