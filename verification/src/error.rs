use vstd::prelude::*;
use vstd::string::StringExecFns;

verus! {

/// Errors of the WRAPS operations.
#[derive(Debug)]
pub enum WRAPSError {
    /// Multi-purpose error type for describing invalid inputs
    InvalidInput(String),
    /// Multi-purpose error type for describing prover failure
    CryptographyError,
    /// Error indicating address book size exceeded maximum allowed
    AddressBookSizeExceeded,
    /// The proving artifacts are unavailable or unreadable
    BinaryArtifactMissing,
}

impl WRAPSError {
    /// The human-readable description of the error.
    pub fn message(&self) -> (r: String)
        ensures
            r@ == match self {
                WRAPSError::InvalidInput(s) => "Invalid input: "@ + s@,
                WRAPSError::CryptographyError => "CryptographyError error"@,
                WRAPSError::AddressBookSizeExceeded => "Address book size exceeded maximum allowed"@,
                WRAPSError::BinaryArtifactMissing => "TSS_LIB_WRAPS_ARTIFACTS_PATH is undefined or the binary artifacts are missing"@,
            },
    {
        match self {
            WRAPSError::InvalidInput(s) => {
                let mut m = String::from_str("Invalid input: ");
                m.append(s.as_str());
                m
            },
            WRAPSError::CryptographyError => String::from_str("CryptographyError error"),
            WRAPSError::AddressBookSizeExceeded => String::from_str("Address book size exceeded maximum allowed"),
            WRAPSError::BinaryArtifactMissing => String::from_str(
                "TSS_LIB_WRAPS_ARTIFACTS_PATH is undefined or the binary artifacts are missing",
            ),
        }
    }
}

} // verus!
