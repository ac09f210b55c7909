use tendermint_core::errors::{Error, NoSource, VerifierError};
use tendermint_core::options::{JsOptions, Options, TrustThreshold};

#[test]
fn admissible_thresholds_are_accepted() {
    for (num, den) in [(1u64, 3u64), (2, 3), (1, 1), (u64::MAX, u64::MAX)] {
        let t = TrustThreshold::new(num, den).unwrap();
        assert_eq!(t.numerator(), num);
        assert_eq!(t.denominator(), den);
    }
}

#[test]
fn zero_denominator_is_undefined() {
    assert_eq!(TrustThreshold::new(1, 0), Err(Error::UndefinedTrustThreshold));
}

#[test]
fn threshold_above_one_is_too_large() {
    assert_eq!(TrustThreshold::new(4, 3), Err(Error::TrustThresholdTooLarge));
}

#[test]
fn threshold_below_one_third_is_too_small() {
    assert_eq!(TrustThreshold::new(1, 4), Err(Error::TrustThresholdTooSmall));
    assert_eq!(TrustThreshold::new(0, 3), Err(Error::TrustThresholdTooSmall));
}

#[test]
fn options_read_their_foreign_form() {
    let js = JsOptions { trust_threshold: (1, 3), trusting_period: 1209600, clock_drift: 5 };
    let opts = Options::try_from_js(&js).unwrap();
    assert_eq!(opts.trust_threshold.numerator(), 1);
    assert_eq!(opts.trust_threshold.denominator(), 3);
    assert_eq!(opts.trusting_period_secs, 1209600);
    assert_eq!(opts.clock_drift_secs, 5);
}

#[test]
fn options_reject_an_inadmissible_threshold() {
    let undefined = JsOptions { trust_threshold: (0, 0), trusting_period: 60, clock_drift: 1 };
    assert_eq!(Options::try_from_js(&undefined), Err(Error::UndefinedTrustThreshold));

    let too_large = JsOptions { trust_threshold: (3, 2), trusting_period: 60, clock_drift: 1 };
    assert_eq!(Options::try_from_js(&too_large), Err(Error::TrustThresholdTooLarge));

    let too_small = JsOptions { trust_threshold: (1, 5), trusting_period: 60, clock_drift: 1 };
    assert_eq!(Options::try_from_js(&too_small), Err(Error::TrustThresholdTooSmall));
}

#[test]
fn verifier_error_predicates_classify_the_variants() {
    assert!(VerifierError::ExpiredTrust.has_expired());
    assert!(!VerifierError::ExpiredTrust.is_timeout());
    assert!(VerifierError::Timeout.is_timeout());
    assert!(!VerifierError::Timeout.has_expired());
    assert!(!VerifierError::Failed.has_expired());
    assert!(!VerifierError::Failed.is_timeout());
}

#[test]
fn no_source_is_a_plain_marker() {
    assert_eq!(NoSource, NoSource);
}
