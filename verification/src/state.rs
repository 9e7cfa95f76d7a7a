//! What is remembered of a feed from one tick to the next, and the bytes it
//! is stored as.

use crate::uint::I256;
use vstd::bytes::{
    lemma_auto_spec_u128_to_from_le_bytes, lemma_auto_spec_u32_to_from_le_bytes,
    lemma_auto_spec_u64_to_from_le_bytes, spec_u128_from_le_bytes, spec_u128_to_le_bytes,
    spec_u32_from_le_bytes, spec_u32_to_le_bytes, spec_u64_from_le_bytes, spec_u64_to_le_bytes,
    u128_from_le_bytes, u128_to_le_bytes, u32_from_le_bytes, u32_to_le_bytes, u64_from_le_bytes,
    u64_to_le_bytes,
};
use vstd::prelude::*;
use vstd::slice::slice_subrange;

verus! {

/// The number of bytes that a feed's state is stored as.
pub const STATE_BYTES: usize = 69;

/// What is remembered of a feed from one tick to the next.
#[derive(Clone, Copy, Debug, PartialEq, Eq)]
pub struct FeedState {
    /// The value last written on chain.
    pub last_value: I256,
    /// When it was written, in seconds.
    pub last_update_timestamp: u64,
    /// When the feed was last checked, in seconds.
    pub last_check_timestamp: u64,
    /// How many ticks in a row have failed.
    pub consecutive_failures: u32,
    /// The gas price of the last submission, in the smallest unit.
    pub last_gas_price: u128,
}

/// Whether `state` is that of a feed that was never written.
pub open spec fn initial_state(state: FeedState) -> bool {
    &&& state.last_value@ == 0
    &&& state.last_update_timestamp == 0
    &&& state.last_check_timestamp == 0
    &&& state.consecutive_failures == 0
    &&& state.last_gas_price == 0
}

/// `state` after one more failure: the count is one higher, nothing else
/// changes.
pub open spec fn failed(state: FeedState) -> FeedState {
    FeedState {
        consecutive_failures: if state.consecutive_failures < u32::MAX {
            (state.consecutive_failures + 1) as u32
        } else {
            u32::MAX
        },
        ..state
    }
}

/// The bytes that `state` is stored as: the value, the two timestamps, the
/// failure count and the gas price, one after the other, each number with
/// its least significant byte first.
pub open spec fn state_bytes(state: FeedState) -> Seq<u8> {
    state.last_value.spec_to_bytes() + spec_u64_to_le_bytes(state.last_update_timestamp)
        + spec_u64_to_le_bytes(state.last_check_timestamp) + spec_u32_to_le_bytes(
        state.consecutive_failures,
    ) + spec_u128_to_le_bytes(state.last_gas_price)
}

/// The state that `bytes` store, if they store one.
pub open spec fn stored_state(bytes: Seq<u8>) -> Option<FeedState> {
    if bytes.len() != STATE_BYTES {
        None
    } else {
        match I256::spec_from_bytes(bytes.subrange(0, 33)) {
            None => None,
            Some(last_value) => Some(
                FeedState {
                    last_value,
                    last_update_timestamp: spec_u64_from_le_bytes(bytes.subrange(33, 41)),
                    last_check_timestamp: spec_u64_from_le_bytes(bytes.subrange(41, 49)),
                    consecutive_failures: spec_u32_from_le_bytes(bytes.subrange(49, 53)),
                    last_gas_price: spec_u128_from_le_bytes(bytes.subrange(53, 69)),
                },
            ),
        }
    }
}

/// A state that was written is read back as it was: the bytes store exactly
/// that state.
pub proof fn law_state_round_trip(state: FeedState)
    requires
        state.last_value.in_range(),
    ensures
        state_bytes(state).len() == STATE_BYTES,
        stored_state(state_bytes(state)) == Some(state),
{
    lemma_auto_spec_u32_to_from_le_bytes();
    lemma_auto_spec_u64_to_from_le_bytes();
    lemma_auto_spec_u128_to_from_le_bytes();
    state.last_value.lemma_bytes_round_trip();
    let bytes = state_bytes(state);
    assert(bytes.subrange(0, 33) =~= state.last_value.spec_to_bytes());
    assert(bytes.subrange(33, 41) =~= spec_u64_to_le_bytes(state.last_update_timestamp));
    assert(bytes.subrange(41, 49) =~= spec_u64_to_le_bytes(state.last_check_timestamp));
    assert(bytes.subrange(49, 53) =~= spec_u32_to_le_bytes(state.consecutive_failures));
    assert(bytes.subrange(53, 69) =~= spec_u128_to_le_bytes(state.last_gas_price));
}

/// Bytes that store a state are, byte for byte, what that state is written
/// as: writing what was read gives the same bytes again.
pub proof fn law_stored_bytes_identical(bytes: Seq<u8>)
    requires
        stored_state(bytes) is Some,
    ensures
        state_bytes(stored_state(bytes)->0) == bytes,
{
    lemma_auto_spec_u32_to_from_le_bytes();
    lemma_auto_spec_u64_to_from_le_bytes();
    lemma_auto_spec_u128_to_from_le_bytes();
    I256::lemma_bytes_canonical(bytes.subrange(0, 33));
    let state = stored_state(bytes)->0;
    assert(state_bytes(state) =~= bytes.subrange(0, 33) + bytes.subrange(33, 41) + bytes.subrange(
        41,
        49,
    ) + bytes.subrange(49, 53) + bytes.subrange(53, 69));
    assert(state_bytes(state) =~= bytes);
}

impl FeedState {
    /// The state of a feed that was never written.
    pub fn initial() -> (r: FeedState)
        ensures
            initial_state(r),
    {
        FeedState {
            last_value: I256::zero(),
            last_update_timestamp: 0,
            last_check_timestamp: 0,
            consecutive_failures: 0,
            last_gas_price: 0,
        }
    }

    /// The state after one more failure.
    pub fn after_failure(&self) -> (r: FeedState)
        ensures
            r == failed(*self),
    {
        FeedState {
            last_value: self.last_value,
            last_update_timestamp: self.last_update_timestamp,
            last_check_timestamp: self.last_check_timestamp,
            consecutive_failures: if self.consecutive_failures < u32::MAX {
                self.consecutive_failures + 1
            } else {
                u32::MAX
            },
            last_gas_price: self.last_gas_price,
        }
    }

    /// The state after `value` was written at time `now` for `gas_price`:
    /// the failures are forgotten.
    pub fn after_success(&self, value: I256, now: u64, gas_price: u128) -> (r: FeedState)
        ensures
            r == (FeedState {
                last_value: value,
                last_update_timestamp: now,
                last_check_timestamp: now,
                consecutive_failures: 0,
                last_gas_price: gas_price,
            }),
    {
        FeedState {
            last_value: value,
            last_update_timestamp: now,
            last_check_timestamp: now,
            consecutive_failures: 0,
            last_gas_price: gas_price,
        }
    }

    /// The bytes to store `self` as.
    pub fn to_bytes(&self) -> (r: Vec<u8>)
        ensures
            r@ == state_bytes(*self),
            r@.len() == STATE_BYTES,
            stored_state(r@) == Some(*self),
    {
        let mut out: Vec<u8> = self.last_value.to_bytes();
        let mut updated: Vec<u8> = u64_to_le_bytes(self.last_update_timestamp);
        let mut checked: Vec<u8> = u64_to_le_bytes(self.last_check_timestamp);
        let mut failures: Vec<u8> = u32_to_le_bytes(self.consecutive_failures);
        let mut gas: Vec<u8> = u128_to_le_bytes(self.last_gas_price);
        out.append(&mut updated);
        out.append(&mut checked);
        out.append(&mut failures);
        out.append(&mut gas);
        proof {
            use_type_invariant(&self.last_value);
            law_state_round_trip(*self);
        }
        out
    }

    /// The state that `bytes` store. There is none unless `bytes` are what
    /// some state is written as.
    pub fn from_bytes(bytes: &[u8]) -> (r: Option<FeedState>)
        ensures
            r == stored_state(bytes@),
            r matches Some(state) ==> state_bytes(state) == bytes@,
    {
        if bytes.len() != STATE_BYTES {
            return None;
        }
        let last_value: I256 = match I256::from_bytes(slice_subrange(bytes, 0, 33)) {
            Some(v) => v,
            None => {
                return None;
            },
        };
        proof {
            law_stored_bytes_identical(bytes@);
        }
        Some(
            FeedState {
                last_value,
                last_update_timestamp: u64_from_le_bytes(slice_subrange(bytes, 33, 41)),
                last_check_timestamp: u64_from_le_bytes(slice_subrange(bytes, 41, 49)),
                consecutive_failures: u32_from_le_bytes(slice_subrange(bytes, 49, 53)),
                last_gas_price: u128_from_le_bytes(slice_subrange(bytes, 53, 69)),
            },
        )
    }
}

} // verus!
