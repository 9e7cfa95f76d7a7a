//! The update decision: is the on-chain value stale, or far enough from the
//! reference value, for a new one to be written?

use crate::condition::CheckCondition;
use crate::state::FeedState;
use crate::uint::{fits_i256, I256, U256};
use vstd::prelude::*;

verus! {

/// One hundred percent in basis points, the unit of a deviation threshold.
pub const FULL_SCALE_BPS: u32 = 10_000;

/// Why a tick ends without an update.
#[derive(Clone, Copy, Debug, PartialEq, Eq, Structural)]
pub enum SkipReason {
    /// A gating condition does not hold, or could not be checked.
    GatingConditionNotMet,
    /// The value is close enough to the on-chain value, and the last write
    /// is recent enough.
    DeviationBelowThresholdAndNotStale,
    /// The feed is resting after a failure.
    ReadFailureBackoff,
}

/// Which rule asks for an update.
#[derive(Clone, Copy, Debug, PartialEq, Eq, Structural)]
pub enum SubmitCause {
    /// The last write is at least the minimum update interval old.
    Stale,
    /// The reference value is at least the threshold away from the on-chain value.
    Deviation,
}

/// Why an update is submitted, and whether the value submitted is a bound
/// that took the place of the reference value.
#[derive(Clone, Copy, Debug, PartialEq, Eq, Structural)]
pub struct Justification {
    pub cause: SubmitCause,
    pub clamped: bool,
}

/// The outcome of a tick's decision.
#[derive(Clone, Copy, Debug, PartialEq, Eq)]
pub enum UpdateDecision {
    Skip { reason: SkipReason },
    Submit { new_value: I256, justification: Justification },
}

/// An `UpdateDecision` with its value as a number.
pub enum Decision {
    Skip { reason: SkipReason },
    Submit { new_value: int, justification: Justification },
}

impl View for UpdateDecision {
    type V = Decision;

    open spec fn view(&self) -> Decision {
        match *self {
            UpdateDecision::Skip { reason } => Decision::Skip { reason },
            UpdateDecision::Submit { new_value, justification } => Decision::Submit {
                new_value: new_value@,
                justification,
            },
        }
    }
}

/// The thresholds of a feed, as numbers.
pub struct Thresholds {
    /// Seconds after which an update is forced.
    pub minimum_update_frequency: nat,
    /// The deviation that triggers an update, in basis points of the
    /// on-chain value.
    pub deviation_threshold_bps: nat,
    /// The least value that may be submitted.
    pub min_value: Option<int>,
    /// The greatest value that may be submitted.
    pub max_value: Option<int>,
}

impl Thresholds {
    /// The threshold is at most one hundred percent, and the bounds are in
    /// order.
    pub open spec fn wf(self) -> bool {
        &&& self.deviation_threshold_bps <= FULL_SCALE_BPS
        &&& (self.min_value matches Some(lo) ==> fits_i256(lo))
        &&& (self.max_value matches Some(hi) ==> fits_i256(hi))
        &&& (self.min_value is Some && self.max_value is Some ==> self.min_value->0
            <= self.max_value->0)
    }

    /// Whether `value` respects both bounds.
    pub open spec fn admits(self, value: int) -> bool {
        &&& (self.min_value matches Some(lo) ==> lo <= value)
        &&& (self.max_value matches Some(hi) ==> value <= hi)
    }
}

/// The distance of `v` from zero.
pub open spec fn magnitude(v: int) -> nat {
    if v < 0 {
        (-v) as nat
    } else {
        v as nat
    }
}

/// `reference` moved to the nearest bound where it lies outside the bounds.
pub open spec fn clamped(reference: int, min_value: Option<int>, max_value: Option<int>) -> int {
    if min_value is Some && reference < min_value->0 {
        min_value->0
    } else if max_value is Some && reference > max_value->0 {
        max_value->0
    } else {
        reference
    }
}

/// The seconds from `last_update` to `now`; none if the clock stands before
/// the last update.
pub open spec fn elapsed(last_update: u64, now: u64) -> nat {
    if now >= last_update {
        (now - last_update) as nat
    } else {
        0
    }
}

/// Whether the last update is at least the minimum update interval old.
pub open spec fn is_stale(last_update: u64, now: u64, minimum_update_frequency: nat) -> bool {
    elapsed(last_update, now) >= minimum_update_frequency
}

/// Whether `value` is at least `threshold_bps` basis points away from
/// `on_chain`, relative to `on_chain`: the relative deviation
/// `|value - on_chain| / |on_chain|`, as a percentage, reaches the threshold
/// percentage. Against an on-chain zero every other value deviates, and zero
/// does not.
pub open spec fn deviation_reached(value: int, on_chain: int, threshold_bps: nat) -> bool {
    if on_chain == 0 {
        value != 0
    } else {
        magnitude(value - on_chain) * FULL_SCALE_BPS >= threshold_bps * magnitude(on_chain)
    }
}

/// The decision for a feed last updated at `last_update`, at time `now`,
/// with the given reference and on-chain values.
pub open spec fn decided(
    last_update: u64,
    reference: int,
    on_chain: int,
    now: u64,
    thresholds: Thresholds,
) -> Decision {
    let value = clamped(reference, thresholds.min_value, thresholds.max_value);
    let clamped = value != reference;
    if is_stale(last_update, now, thresholds.minimum_update_frequency) {
        Decision::Submit {
            new_value: value,
            justification: Justification { cause: SubmitCause::Stale, clamped },
        }
    } else if deviation_reached(value, on_chain, thresholds.deviation_threshold_bps) {
        Decision::Submit {
            new_value: value,
            justification: Justification { cause: SubmitCause::Deviation, clamped },
        }
    } else {
        Decision::Skip { reason: SkipReason::DeviationBelowThresholdAndNotStale }
    }
}

/// With a nonzero on-chain value and a reference value within the bounds, an
/// update is submitted exactly if the feed is stale or the relative
/// deviation, `|reference - on_chain| / |on_chain| * 100`, is at least the
/// threshold percentage; here both sides are multiplied by `|on_chain|` and by
/// one hundred, which leaves basis points on the right. Otherwise the tick is
/// skipped.
pub proof fn law_submit_iff_stale_or_deviating(
    last_update: u64,
    reference: int,
    on_chain: int,
    now: u64,
    thresholds: Thresholds,
)
    requires
        on_chain != 0,
        thresholds.admits(reference),
    ensures
        decided(last_update, reference, on_chain, now, thresholds) is Submit <==> (is_stale(
            last_update,
            now,
            thresholds.minimum_update_frequency,
        ) || magnitude(reference - on_chain) * FULL_SCALE_BPS
            >= thresholds.deviation_threshold_bps * magnitude(on_chain)),
        decided(last_update, reference, on_chain, now, thresholds) is Submit ==> decided(
            last_update,
            reference,
            on_chain,
            now,
            thresholds,
        )->new_value == reference,
        !(decided(last_update, reference, on_chain, now, thresholds) is Submit) ==> decided(
            last_update,
            reference,
            on_chain,
            now,
            thresholds,
        ) == (Decision::Skip { reason: SkipReason::DeviationBelowThresholdAndNotStale }),
{
}

/// With zero on chain, a reference value of zero is skipped unless the feed
/// is stale, and any other reference value within the bounds is submitted.
pub proof fn law_zero_on_chain(last_update: u64, reference: int, now: u64, thresholds: Thresholds)
    requires
        thresholds.admits(reference),
    ensures
        reference == 0 && !is_stale(last_update, now, thresholds.minimum_update_frequency)
            ==> decided(last_update, reference, 0, now, thresholds) is Skip,
        reference != 0 ==> decided(last_update, reference, 0, now, thresholds) is Submit,
{
}

/// Between two updates less than the minimum update interval apart, the
/// deviation has reached the threshold.
pub proof fn law_early_submit_deviates(
    last_update: u64,
    reference: int,
    on_chain: int,
    now: u64,
    thresholds: Thresholds,
)
    requires
        decided(last_update, reference, on_chain, now, thresholds) is Submit,
        elapsed(last_update, now) < thresholds.minimum_update_frequency,
    ensures
        deviation_reached(
            clamped(reference, thresholds.min_value, thresholds.max_value),
            on_chain,
            thresholds.deviation_threshold_bps,
        ),
{
}

/// The value that is submitted respects the bounds.
pub proof fn law_submitted_value_in_bounds(
    last_update: u64,
    reference: int,
    on_chain: int,
    now: u64,
    thresholds: Thresholds,
)
    requires
        thresholds.wf(),
        decided(last_update, reference, on_chain, now, thresholds) is Submit,
    ensures
        thresholds.admits(decided(last_update, reference, on_chain, now, thresholds)->new_value),
{
}

/// Why a feed's settings are refused.
#[derive(Clone, Copy, Debug, PartialEq, Eq, Structural)]
pub enum FeedSpecError {
    /// The deviation threshold is above one hundred percent.
    ThresholdOutOfRange,
    /// The least value is above the greatest.
    BoundsInverted,
}

/// The settings of one feed. They do not change after loading.
#[derive(Debug)]
pub struct FeedSpec {
    name: String,
    network: String,
    contract_address: String,
    decimals: u8,
    check_frequency: u64,
    minimum_update_frequency: u64,
    deviation_threshold_bps: u32,
    min_value: Option<I256>,
    max_value: Option<I256>,
    conditions: Vec<CheckCondition>,
}

/// Why settings with this threshold and these bounds are refused, if they are.
pub open spec fn refusal(
    deviation_threshold_bps: u32,
    min_value: Option<I256>,
    max_value: Option<I256>,
) -> Option<FeedSpecError> {
    if deviation_threshold_bps > FULL_SCALE_BPS {
        Some(FeedSpecError::ThresholdOutOfRange)
    } else if min_value is Some && max_value is Some && min_value->0@ > max_value->0@ {
        Some(FeedSpecError::BoundsInverted)
    } else {
        None
    }
}

/// The numbers among a feed's settings.
pub open spec fn thresholds_of(
    minimum_update_frequency: u64,
    deviation_threshold_bps: u32,
    min_value: Option<I256>,
    max_value: Option<I256>,
) -> Thresholds {
    Thresholds {
        minimum_update_frequency: minimum_update_frequency as nat,
        deviation_threshold_bps: deviation_threshold_bps as nat,
        min_value: match min_value {
            Some(v) => Some(v@),
            None => None,
        },
        max_value: match max_value {
            Some(v) => Some(v@),
            None => None,
        },
    }
}

impl View for FeedSpec {
    type V = Thresholds;

    closed spec fn view(&self) -> Thresholds {
        thresholds_of(
            self.minimum_update_frequency,
            self.deviation_threshold_bps,
            self.min_value,
            self.max_value,
        )
    }
}

impl FeedSpec {
    /// The threshold is a percentage and the bounds are in order.
    #[verifier::type_invariant]
    pub closed spec fn valid(self) -> bool {
        &&& self.deviation_threshold_bps <= FULL_SCALE_BPS
        &&& (self.min_value matches Some(lo) ==> lo.in_range())
        &&& (self.max_value matches Some(hi) ==> hi.in_range())
        &&& (self.min_value is Some && self.max_value is Some ==> self.min_value->0@
            <= self.max_value->0@)
    }

    /// The feed's name as a text.
    pub closed spec fn spec_name(self) -> Seq<char> {
        self.name@
    }

    /// The name of the feed's network as a text.
    pub closed spec fn spec_network(self) -> Seq<char> {
        self.network@
    }

    /// The address of the feed's contract as a text.
    pub closed spec fn spec_contract_address(self) -> Seq<char> {
        self.contract_address@
    }

    /// The number of digits after the point in the feed's values.
    pub closed spec fn spec_decimals(self) -> u8 {
        self.decimals
    }

    /// The seconds between two checks.
    pub closed spec fn spec_check_frequency(self) -> u64 {
        self.check_frequency
    }

    /// The feed's gating conditions.
    pub closed spec fn spec_conditions(self) -> Seq<CheckCondition> {
        self.conditions@
    }

    /// The settings of a feed. Values have `decimals` digits after the point.
    /// The threshold is given in basis points, one hundredth of a percent
    /// each, and may not exceed one hundred percent; the least value may not
    /// exceed the greatest.
    pub fn new(
        name: String,
        network: String,
        contract_address: String,
        decimals: u8,
        check_frequency: u64,
        minimum_update_frequency: u64,
        deviation_threshold_bps: u32,
        min_value: Option<I256>,
        max_value: Option<I256>,
        conditions: Vec<CheckCondition>,
    ) -> (r: Result<FeedSpec, FeedSpecError>)
        ensures
            match refusal(deviation_threshold_bps, min_value, max_value) {
                Some(e) => r matches Err(x) && x == e,
                None => {
                    &&& r matches Ok(spec)
                    &&& spec@ == thresholds_of(
                        minimum_update_frequency,
                        deviation_threshold_bps,
                        min_value,
                        max_value,
                    )
                    &&& spec@.wf()
                    &&& spec.spec_name() == name@
                    &&& spec.spec_network() == network@
                    &&& spec.spec_contract_address() == contract_address@
                    &&& spec.spec_decimals() == decimals
                    &&& spec.spec_check_frequency() == check_frequency
                    &&& spec.spec_conditions() == conditions@
                },
            },
    {
        if deviation_threshold_bps > FULL_SCALE_BPS {
            return Err(FeedSpecError::ThresholdOutOfRange);
        }
        if let Some(lo) = &min_value {
            proof {
                use_type_invariant(lo);
                lo.lemma_in_range();
            }
        }
        if let Some(hi) = &max_value {
            proof {
                use_type_invariant(hi);
                hi.lemma_in_range();
            }
        }
        let inverted: bool = match (&min_value, &max_value) {
            (Some(lo), Some(hi)) => hi.less_than(lo),
            _ => false,
        };
        if inverted {
            return Err(FeedSpecError::BoundsInverted);
        }
        Ok(
            FeedSpec {
                name,
                network,
                contract_address,
                decimals,
                check_frequency,
                minimum_update_frequency,
                deviation_threshold_bps,
                min_value,
                max_value,
                conditions,
            },
        )
    }

    /// The feed's name.
    pub fn name(&self) -> (r: &str)
        ensures
            r@ == self.spec_name(),
    {
        self.name.as_str()
    }

    /// The name of the network that the feed lives on.
    pub fn network(&self) -> (r: &str)
        ensures
            r@ == self.spec_network(),
    {
        self.network.as_str()
    }

    /// The address of the feed's contract.
    pub fn contract_address(&self) -> (r: &str)
        ensures
            r@ == self.spec_contract_address(),
    {
        self.contract_address.as_str()
    }

    /// The number of digits after the point in the feed's values.
    pub fn decimals(&self) -> (r: u8)
        ensures
            r == self.spec_decimals(),
    {
        self.decimals
    }

    /// The seconds between two checks.
    pub fn check_frequency(&self) -> (r: u64)
        ensures
            r == self.spec_check_frequency(),
    {
        self.check_frequency
    }

    /// The seconds after which an update is forced.
    pub fn minimum_update_frequency(&self) -> (r: u64)
        ensures
            r == self@.minimum_update_frequency,
    {
        self.minimum_update_frequency
    }

    /// The deviation threshold in basis points.
    pub fn deviation_threshold_bps(&self) -> (r: u32)
        ensures
            r == self@.deviation_threshold_bps,
            r <= FULL_SCALE_BPS,
    {
        proof {
            use_type_invariant(self);
        }
        self.deviation_threshold_bps
    }

    /// The feed's gating conditions.
    pub fn conditions(&self) -> (r: &Vec<CheckCondition>)
        ensures
            r@ == self.spec_conditions(),
    {
        &self.conditions
    }

    /// `reference` moved to the nearest bound where it lies outside the
    /// bounds, and whether it was moved.
    pub fn clamp(&self, reference: I256) -> (r: (I256, bool))
        ensures
            r.0@ == clamped(reference@, self@.min_value, self@.max_value),
            r.1 == (r.0@ != reference@),
    {
        if let Some(lo) = &self.min_value {
            if reference.less_than(lo) {
                return (*lo, true);
            }
        }
        if let Some(hi) = &self.max_value {
            if hi.less_than(&reference) {
                return (*hi, true);
            }
        }
        (reference, false)
    }
}

/// Decides whether a feed is updated.
pub struct DeviationEngine;

impl DeviationEngine {
    /// Whether `value` is at least `threshold_bps` basis points away from
    /// `on_chain`.
    pub fn deviates(value: &I256, on_chain: &I256, threshold_bps: u32) -> (r: bool)
        ensures
            r == deviation_reached(value@, on_chain@, threshold_bps as nat),
    {
        if on_chain.is_zero() {
            return !value.is_zero();
        }
        let distance: U256 = value.abs_diff(on_chain);
        let base: U256 = on_chain.unsigned_abs();
        let (left_high, left_low) = distance.mul_small(FULL_SCALE_BPS);
        let (right_high, right_low) = base.mul_small(threshold_bps);
        proof {
            crate::uint::lemma_u256_bounded(left_low);
            crate::uint::lemma_u256_bounded(right_low);
            assert(distance@ == magnitude(value@ - on_chain@));
            assert(base@ == magnitude(on_chain@));
            assert(threshold_bps * magnitude(on_chain@) == base@ * threshold_bps)
                by (nonlinear_arith)
                requires
                    base@ == magnitude(on_chain@),
            ;
        }
        if left_high != right_high {
            left_high > right_high
        } else {
            !left_low.less_than(&right_low)
        }
    }

    /// Decides whether to write `reference_value` over `on_chain_value` at
    /// time `now`.
    ///
    /// The reference value is first moved within the feed's bounds. A feed
    /// whose last update is at least the minimum update interval old is
    /// updated whatever the values. Otherwise it is updated if the value
    /// deviates from the on-chain value by the threshold or more, and skipped
    /// if not.
    pub fn decide(
        state: &FeedState,
        reference_value: I256,
        on_chain_value: I256,
        now: u64,
        spec: &FeedSpec,
    ) -> (r: UpdateDecision)
        ensures
            r@ == decided(state.last_update_timestamp, reference_value@, on_chain_value@, now, spec@),
    {
        let (new_value, clamped) = spec.clamp(reference_value);
        let elapsed: u64 = if now >= state.last_update_timestamp {
            now - state.last_update_timestamp
        } else {
            0
        };
        if elapsed >= spec.minimum_update_frequency() {
            UpdateDecision::Submit {
                new_value,
                justification: Justification { cause: SubmitCause::Stale, clamped },
            }
        } else if DeviationEngine::deviates(
            &new_value,
            &on_chain_value,
            spec.deviation_threshold_bps(),
        ) {
            UpdateDecision::Submit {
                new_value,
                justification: Justification { cause: SubmitCause::Deviation, clamped },
            }
        } else {
            UpdateDecision::Skip { reason: SkipReason::DeviationBelowThresholdAndNotStale }
        }
    }
}

} // verus!
