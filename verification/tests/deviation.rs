use feed_keeper::deviation::{
    DeviationEngine, FeedSpec, FeedSpecError, Justification, SkipReason, SubmitCause,
    UpdateDecision,
};
use feed_keeper::state::FeedState;
use feed_keeper::uint::{I256, U256};

fn num(v: i128) -> I256 {
    I256::from_i128(v)
}

fn feed(minimum_update_frequency: u64, bps: u32, min: Option<i128>, max: Option<i128>) -> FeedSpec {
    FeedSpec::new(
        "eth_usd".to_string(),
        "ethereum".to_string(),
        "0x1234567890123456789012345678901234567890".to_string(),
        8,
        60,
        minimum_update_frequency,
        bps,
        min.map(num),
        max.map(num),
        vec![],
    )
    .unwrap()
}

fn state_updated_at(t: u64) -> FeedState {
    FeedState {
        last_value: num(100),
        last_update_timestamp: t,
        last_check_timestamp: t,
        consecutive_failures: 0,
        last_gas_price: 0,
    }
}

fn submit(v: i128, cause: SubmitCause, clamped: bool) -> UpdateDecision {
    UpdateDecision::Submit { new_value: num(v), justification: Justification { cause, clamped } }
}

const SKIP: UpdateDecision =
    UpdateDecision::Skip { reason: SkipReason::DeviationBelowThresholdAndNotStale };

#[test]
fn end_to_end_deviation_and_staleness() {
    let spec = feed(3600, 500, None, None);
    let state = state_updated_at(1_000);
    // Six percent against a threshold of five, fresh.
    assert_eq!(
        DeviationEngine::decide(&state, num(106), num(100), 1_100, &spec),
        submit(106, SubmitCause::Deviation, false)
    );
    // Two percent, fresh.
    assert_eq!(DeviationEngine::decide(&state, num(102), num(100), 1_100, &spec), SKIP);
    // Two percent, stale.
    assert_eq!(
        DeviationEngine::decide(&state, num(102), num(100), 4_600, &spec),
        submit(102, SubmitCause::Stale, false)
    );
}

#[test]
fn threshold_is_inclusive_and_exact() {
    let spec = feed(3600, 500, None, None);
    let state = state_updated_at(0);
    assert_eq!(
        DeviationEngine::decide(&state, num(105), num(100), 10, &spec),
        submit(105, SubmitCause::Deviation, false)
    );
    assert_eq!(
        DeviationEngine::decide(&state, num(95), num(100), 10, &spec),
        submit(95, SubmitCause::Deviation, false)
    );
    assert_eq!(DeviationEngine::decide(&state, num(104), num(100), 10, &spec), SKIP);
    // 4.999...% of a large value is below, 5% of it is not.
    let big: i128 = 2_000_000_000_000_000_000_000_000_000_000;
    assert_eq!(DeviationEngine::decide(&state, num(big + big / 20 - 1), num(big), 10, &spec), SKIP);
    assert!(matches!(
        DeviationEngine::decide(&state, num(big + big / 20), num(big), 10, &spec),
        UpdateDecision::Submit { .. }
    ));
    // The sign of the on-chain value does not matter.
    assert!(DeviationEngine::deviates(&num(-105), &num(-100), 500));
    assert!(!DeviationEngine::deviates(&num(-104), &num(-100), 500));
    assert!(DeviationEngine::deviates(&num(1), &num(-1), 10_000));
    // Half a percent.
    assert!(DeviationEngine::deviates(&num(1005), &num(1000), 50));
    assert!(!DeviationEngine::deviates(&num(1004), &num(1000), 50));
    // A threshold of zero is always reached, one of a hundred percent only by doubling.
    assert!(DeviationEngine::deviates(&num(100), &num(100), 0));
    assert!(!DeviationEngine::deviates(&num(199), &num(100), 10_000));
    assert!(DeviationEngine::deviates(&num(200), &num(100), 10_000));
    assert!(DeviationEngine::deviates(&num(0), &num(100), 10_000));
}

#[test]
fn zero_on_chain() {
    let spec = feed(3600, 500, None, None);
    let state = state_updated_at(1_000);
    assert_eq!(DeviationEngine::decide(&state, num(0), num(0), 1_001, &spec), SKIP);
    assert_eq!(
        DeviationEngine::decide(&state, num(1), num(0), 1_001, &spec),
        submit(1, SubmitCause::Deviation, false)
    );
    assert_eq!(
        DeviationEngine::decide(&state, num(-1), num(0), 1_001, &spec),
        submit(-1, SubmitCause::Deviation, false)
    );
    // Staleness overrides even zero against zero.
    assert_eq!(
        DeviationEngine::decide(&state, num(0), num(0), 4_600, &spec),
        submit(0, SubmitCause::Stale, false)
    );
    // Zero against zero is skipped even at a threshold of zero.
    let loose = feed(3600, 0, None, None);
    assert_eq!(DeviationEngine::decide(&state, num(0), num(0), 1_001, &loose), SKIP);
}

#[test]
fn staleness_boundary_and_clock() {
    let spec = feed(3600, 500, None, None);
    let state = state_updated_at(1_000);
    assert_eq!(DeviationEngine::decide(&state, num(100), num(100), 4_599, &spec), SKIP);
    assert_eq!(
        DeviationEngine::decide(&state, num(100), num(100), 4_600, &spec),
        submit(100, SubmitCause::Stale, false)
    );
    // A clock that stands before the last update counts as no time elapsed.
    assert_eq!(DeviationEngine::decide(&state, num(100), num(100), 10, &spec), SKIP);
    // With an interval of zero every tick is stale.
    let eager = feed(0, 500, None, None);
    assert_eq!(
        DeviationEngine::decide(&state, num(100), num(100), 10, &eager),
        submit(100, SubmitCause::Stale, false)
    );
}

#[test]
fn reference_is_clamped_before_the_decision() {
    let spec = feed(3600, 500, Some(90), Some(103));
    let state = state_updated_at(1_000);
    // 200 is held at 103, which is three percent away: skipped.
    assert_eq!(DeviationEngine::decide(&state, num(200), num(100), 1_001, &spec), SKIP);
    // 10 is raised to 90, which is ten percent away.
    assert_eq!(
        DeviationEngine::decide(&state, num(10), num(100), 1_001, &spec),
        submit(90, SubmitCause::Deviation, true)
    );
    // Stale: the bound is what is written.
    assert_eq!(
        DeviationEngine::decide(&state, num(200), num(100), 5_000, &spec),
        submit(103, SubmitCause::Stale, true)
    );
    assert_eq!(spec.clamp(num(200)), (num(103), true));
    assert_eq!(spec.clamp(num(103)), (num(103), false));
    assert_eq!(spec.clamp(num(90)), (num(90), false));
    assert_eq!(spec.clamp(num(89)), (num(90), true));
    // A reference value held at zero against zero on chain is skipped.
    let capped = feed(3600, 500, None, Some(0));
    assert_eq!(DeviationEngine::decide(&state, num(5), num(0), 1_001, &capped), SKIP);
}

#[test]
fn feed_spec_validation() {
    let make = |bps: u32, min: Option<i128>, max: Option<i128>| {
        FeedSpec::new(
            "f".to_string(),
            "n".to_string(),
            "a".to_string(),
            18,
            1,
            2,
            bps,
            min.map(num),
            max.map(num),
            vec![],
        )
    };
    assert_eq!(make(10_001, None, None).unwrap_err(), FeedSpecError::ThresholdOutOfRange);
    assert_eq!(make(10_001, Some(2), Some(1)).unwrap_err(), FeedSpecError::ThresholdOutOfRange);
    assert_eq!(make(10_000, Some(2), Some(1)).unwrap_err(), FeedSpecError::BoundsInverted);
    assert_eq!(make(0, Some(1), Some(-1)).unwrap_err(), FeedSpecError::BoundsInverted);
    let ok = make(10_000, Some(-1), Some(-1)).unwrap();
    assert_eq!(ok.deviation_threshold_bps(), 10_000);
    assert_eq!(ok.minimum_update_frequency(), 2);
    assert_eq!(ok.check_frequency(), 1);
    assert_eq!(ok.decimals(), 18);
    assert_eq!(ok.name(), "f");
    assert_eq!(ok.network(), "n");
    assert_eq!(ok.contract_address(), "a");
    assert!(ok.conditions().is_empty());
    assert!(make(0, None, Some(5)).is_ok());
    assert!(make(0, Some(5), None).is_ok());
}

#[test]
fn values_at_the_edge_of_256_bits() {
    let top = U256 { w0: 0, w1: 0, w2: 0, w3: 0x8000_0000_0000_0000 };
    let below_top = U256 { w0: u64::MAX, w1: u64::MAX, w2: u64::MAX, w3: 0x7fff_ffff_ffff_ffff };
    let least = I256::from_sign_magnitude(true, top).unwrap();
    let greatest = I256::from_sign_magnitude(false, below_top).unwrap();
    assert!(I256::from_sign_magnitude(false, top).is_none());
    let over = U256 { w0: 1, w1: 0, w2: 0, w3: 0x8000_0000_0000_0000 };
    assert!(I256::from_sign_magnitude(true, over).is_none());
    // Their distance is two to the power 256 less one.
    let all = U256 { w0: u64::MAX, w1: u64::MAX, w2: u64::MAX, w3: u64::MAX };
    assert_eq!(greatest.abs_diff(&least), all);
    assert_eq!(least.abs_diff(&greatest), all);
    assert!(DeviationEngine::deviates(&greatest, &least, 10_000));
    assert!(DeviationEngine::deviates(&least, &greatest, 10_000));
    assert!(!DeviationEngine::deviates(&least, &least, 1));
    assert!(DeviationEngine::deviates(&least, &least, 0));
    // One away from the greatest value is far below one basis point.
    let next = I256::from_sign_magnitude(
        false,
        U256 { w0: u64::MAX - 1, w1: u64::MAX, w2: u64::MAX, w3: 0x7fff_ffff_ffff_ffff },
    )
    .unwrap();
    assert!(!DeviationEngine::deviates(&next, &greatest, 1));
}
