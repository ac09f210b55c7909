use vstd::prelude::*;
use crate::errors::Error;

verus! {

/// The minimum fraction of the trusted validator set that must sign an
/// untrusted header to transfer trust: a rational between one third and
/// one, inclusive.
#[derive(Clone, Copy, PartialEq, Eq, Debug, Structural)]
pub struct TrustThreshold {
    numerator: u64,
    denominator: u64,
}

/// Whether the fraction `num / den` is an admissible trust threshold:
/// defined, no more than one, and no less than one third.
pub open spec fn trust_threshold_valid(num: u64, den: u64) -> bool {
    den != 0 && num <= den && 3 * num >= den
}

impl TrustThreshold {
    pub closed spec fn num_spec(self) -> u64 {
        self.numerator
    }

    pub closed spec fn den_spec(self) -> u64 {
        self.denominator
    }

    /// Builds a trust threshold from a fraction.
    ///
    /// Construction succeeds exactly on admissible fractions; each way a
    /// fraction can fail carries its own error: an undefined one (zero
    /// denominator), one above one, one below one third.
    pub fn new(numerator: u64, denominator: u64) -> (r: Result<TrustThreshold, Error>)
        ensures
            trust_threshold_valid(numerator, denominator) <==> r is Ok,
            r matches Ok(t) ==> t.num_spec() == numerator && t.den_spec() == denominator,
            denominator == 0 ==> r == Err::<TrustThreshold, Error>(
                Error::UndefinedTrustThreshold,
            ),
            denominator != 0 && numerator > denominator ==> r == Err::<TrustThreshold, Error>(
                Error::TrustThresholdTooLarge,
            ),
            denominator != 0 && numerator <= denominator && 3 * numerator < denominator ==> r
                == Err::<TrustThreshold, Error>(Error::TrustThresholdTooSmall),
    {
        if denominator == 0 {
            return Err(Error::UndefinedTrustThreshold);
        }
        if numerator > denominator {
            return Err(Error::TrustThresholdTooLarge);
        }
        if (numerator as u128) * 3 < denominator as u128 {
            return Err(Error::TrustThresholdTooSmall);
        }
        Ok(TrustThreshold { numerator, denominator })
    }

    /// The fraction's numerator.
    pub fn numerator(&self) -> (r: u64)
        ensures
            r == self.num_spec(),
    {
        self.numerator
    }

    /// The fraction's denominator.
    pub fn denominator(&self) -> (r: u64)
        ensures
            r == self.den_spec(),
    {
        self.denominator
    }
}

/// The options a light-client verifier runs under, durations in seconds.
#[derive(Clone, Copy, PartialEq, Eq, Debug, Structural)]
pub struct Options {
    /// The fraction of trusted validator signatures required.
    pub trust_threshold: TrustThreshold,
    /// How long a trusted state stays trusted.
    pub trusting_period_secs: u64,
    /// The tolerated clock difference to the block emitters.
    pub clock_drift_secs: u64,
}

/// Simplified options as foreign callers supply them: the threshold a
/// bare fraction, the durations in seconds.
#[derive(Clone, Copy, PartialEq, Eq, Debug)]
pub struct JsOptions {
    pub trust_threshold: (u64, u64),
    pub trusting_period: u64,
    pub clock_drift: u64,
}

impl Options {
    /// Builds verifier options from their foreign form. The threshold
    /// fraction is validated; an inadmissible one is rejected with the
    /// error that names its defect.
    pub fn try_from_js(o: &JsOptions) -> (r: Result<Options, Error>)
        ensures
            trust_threshold_valid(o.trust_threshold.0, o.trust_threshold.1) <==> r is Ok,
            r matches Ok(opts) ==> opts.trust_threshold.num_spec() == o.trust_threshold.0
                && opts.trust_threshold.den_spec() == o.trust_threshold.1
                && opts.trusting_period_secs == o.trusting_period
                && opts.clock_drift_secs == o.clock_drift,
            r matches Err(e) ==> (e is UndefinedTrustThreshold || e is TrustThresholdTooLarge
                || e is TrustThresholdTooSmall),
    {
        let (num, den) = o.trust_threshold;
        let trust_threshold = match TrustThreshold::new(num, den) {
            Ok(t) => t,
            Err(e) => {
                return Err(e);
            },
        };
        Ok(
            Options {
                trust_threshold,
                trusting_period_secs: o.trusting_period,
                clock_drift_secs: o.clock_drift,
            },
        )
    }
}

} // verus!
