use feed_keeper::state::{FeedState, STATE_BYTES};
use feed_keeper::uint::{I256, U256};

fn sample() -> FeedState {
    FeedState {
        last_value: I256::from_i128(-123_456_789_012_345_678_901_234_567_890),
        last_update_timestamp: 1_700_000_000,
        last_check_timestamp: 1_700_000_060,
        consecutive_failures: 3,
        last_gas_price: 25_000_000_000,
    }
}

#[test]
fn state_round_trip_is_byte_identical() {
    for state in [
        sample(),
        FeedState::initial(),
        FeedState {
            last_value: I256::from_sign_magnitude(
                true,
                U256 { w0: 0, w1: 0, w2: 0, w3: 0x8000_0000_0000_0000 },
            )
            .unwrap(),
            last_update_timestamp: u64::MAX,
            last_check_timestamp: u64::MAX,
            consecutive_failures: u32::MAX,
            last_gas_price: u128::MAX,
        },
    ] {
        let bytes = state.to_bytes();
        assert_eq!(bytes.len(), STATE_BYTES);
        let read = FeedState::from_bytes(&bytes).unwrap();
        assert_eq!(read, state);
        assert_eq!(read.to_bytes(), bytes);
    }
}

#[test]
fn state_layout() {
    let state = FeedState {
        last_value: I256::from_i128(0x0102),
        last_update_timestamp: 0x0a0b,
        last_check_timestamp: 0x0c,
        consecutive_failures: 0x0d0e0f,
        last_gas_price: 0x10,
    };
    let bytes = state.to_bytes();
    let mut expected = vec![0u8; 69];
    expected[1] = 0x02;
    expected[2] = 0x01;
    expected[33] = 0x0b;
    expected[34] = 0x0a;
    expected[41] = 0x0c;
    expected[49] = 0x0f;
    expected[50] = 0x0e;
    expected[51] = 0x0d;
    expected[53] = 0x10;
    assert_eq!(bytes, expected);
    let negative = FeedState { last_value: I256::from_i128(-1), ..state };
    assert_eq!(negative.to_bytes()[0], 1);
    assert_eq!(negative.to_bytes()[1], 1);
}

#[test]
fn bytes_that_store_no_state() {
    let good = sample().to_bytes();
    assert!(FeedState::from_bytes(&good[..68]).is_none());
    assert!(FeedState::from_bytes(&[]).is_none());
    let mut long = good.clone();
    long.push(0);
    assert!(FeedState::from_bytes(&long).is_none());
    // A sign byte that is neither 0 nor 1.
    let mut sign = good.clone();
    sign[0] = 2;
    assert!(FeedState::from_bytes(&sign).is_none());
    // A negative zero.
    let mut zero = FeedState::initial().to_bytes();
    zero[0] = 1;
    assert!(FeedState::from_bytes(&zero).is_none());
    // A magnitude of two to the power 255 without a sign.
    let mut wide = FeedState::initial().to_bytes();
    wide[32] = 0x80;
    assert!(FeedState::from_bytes(&wide).is_none());
    wide[0] = 1;
    assert!(FeedState::from_bytes(&wide).is_some());
    wide[1] = 1;
    assert!(FeedState::from_bytes(&wide).is_none());
}

#[test]
fn value_bytes() {
    let v = I256::from_i128(-258);
    let bytes = v.to_bytes();
    assert_eq!(bytes.len(), 33);
    assert_eq!(&bytes[..3], &[1, 2, 1]);
    assert_eq!(I256::from_bytes(&bytes), Some(v));
    assert_eq!(I256::from_bytes(&bytes[..32]), None);
}

#[test]
fn failures_and_successes() {
    let state = sample();
    let failed = state.after_failure();
    assert_eq!(failed, FeedState { consecutive_failures: 4, ..state });
    let saturated = FeedState { consecutive_failures: u32::MAX, ..state };
    assert_eq!(saturated.after_failure(), saturated);
    let written = failed.after_success(I256::from_i128(7), 99, 5);
    assert_eq!(
        written,
        FeedState {
            last_value: I256::from_i128(7),
            last_update_timestamp: 99,
            last_check_timestamp: 99,
            consecutive_failures: 0,
            last_gas_price: 5,
        }
    );
    assert_eq!(
        FeedState::initial(),
        FeedState {
            last_value: I256::zero(),
            last_update_timestamp: 0,
            last_check_timestamp: 0,
            consecutive_failures: 0,
            last_gas_price: 0,
        }
    );
}
