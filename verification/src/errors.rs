use vstd::prelude::*;

verus! {

/// Domain errors surfaced by the constructors and conversions of this crate.
#[derive(Clone, PartialEq, Eq, Debug)]
pub enum Error {
    /// A block failed its construction-time validity rules.
    InvalidBlock { reason: String },
    /// A raw check-transaction request carried an unknown kind discriminant.
    UnsupportedCheckTxType,
    /// A raw block carried no header field.
    MissingHeader,
    /// A raw block carried no transaction data field.
    MissingData,
    /// A raw block carried no evidence field.
    MissingEvidence,
    /// A raw begin-block request carried no last-commit info field.
    MissingLastCommitInfo,
    /// A raw integer did not fit the domain type's range.
    IntegerOverflow,
    /// A trust threshold with a zero denominator was requested.
    UndefinedTrustThreshold,
    /// A trust threshold above one was requested.
    TrustThresholdTooLarge,
    /// A trust threshold below one third was requested.
    TrustThresholdTooSmall,
}

/// Stands in for the cause of an error that carries no underlying source.
#[derive(Clone, Copy, PartialEq, Eq, Debug, Structural)]
pub struct NoSource;

/// Outcome classification of a light-client operation, as consumed by the
/// fork detector. The two classifications the detector branches on, expiry
/// and timeout, are first-class variants.
#[derive(Clone, Copy, PartialEq, Eq, Debug, Structural)]
pub enum VerifierError {
    /// The trusted state's trusting period had expired.
    ExpiredTrust,
    /// The operation did not complete within the allotted time.
    Timeout,
    /// Verification failed for a reason other than expiry or timeout.
    Failed,
}

impl VerifierError {
    /// True exactly when the error reports an expired trusting period.
    pub fn has_expired(&self) -> (r: bool)
        ensures
            r == (*self is ExpiredTrust),
    {
        matches!(self, VerifierError::ExpiredTrust)
    }

    /// True exactly when the error reports a timeout.
    pub fn is_timeout(&self) -> (r: bool)
        ensures
            r == (*self is Timeout),
    {
        matches!(self, VerifierError::Timeout)
    }
}

} // verus!
