//! The life of a feed: one cycle of checking, deciding, submitting and
//! confirming after another, with a pause after every failure.
//!
//! The scheduler does no work outside itself. It is told what happened, and
//! answers with what is to be done next; the deciding itself happens within
//! the step that takes in what was read.

use crate::condition::{all_met, ConditionChecker};
use crate::deviation::{
    decided, Decision, DeviationEngine, FeedSpec, Justification, SkipReason, UpdateDecision,
};
use crate::error::ConditionError;
use crate::gas::{
    capped, first_offer, GasError, GasPrice, GasPriceManager, GasQuote, NetworkSpec,
};
use crate::nonce::TxOutcome;
use crate::state::{failed, FeedState};
use crate::text::same_text;
use crate::uint::I256;
use vstd::prelude::*;

verus! {

/// How long a feed rests after a failure.
#[derive(Clone, Copy, Debug, PartialEq, Eq, Structural)]
pub struct BackoffPolicy {
    /// The rest after a first failure, in seconds.
    pub base_delay: u64,
    /// The longest rest, in seconds.
    pub max_delay: u64,
}

/// `base` doubled `times` times.
pub open spec fn doubled(base: nat, times: nat) -> nat
    decreases times,
{
    if times == 0 {
        base
    } else {
        2 * doubled(base, (times - 1) as nat)
    }
}

/// The rest after `failures` failures in a row: none without a failure, the
/// base delay after the first, twice as long after each further one, and
/// never longer than the longest rest.
pub open spec fn backoff_delay(policy: BackoffPolicy, failures: u32) -> nat {
    if failures == 0 {
        0
    } else {
        capped(doubled(policy.base_delay as nat, (failures - 1) as nat), policy.max_delay as nat)
    }
}

/// Doubling more often does not give less.
pub proof fn lemma_doubled_monotone(base: nat, fewer: nat, more: nat)
    requires
        fewer <= more,
    ensures
        doubled(base, fewer) <= doubled(base, more),
    decreases more,
{
    if fewer < more {
        lemma_doubled_monotone(base, fewer, (more - 1) as nat);
    }
}

/// Nothing doubled is nothing.
pub proof fn lemma_doubled_zero(times: nat)
    ensures
        doubled(0, times) == 0,
    decreases times,
{
    if times > 0 {
        lemma_doubled_zero((times - 1) as nat);
    }
}

/// The rest grows with the number of failures and is bounded by the longest
/// rest.
pub proof fn law_backoff_bounded_and_growing(policy: BackoffPolicy, fewer: u32, more: u32)
    requires
        fewer <= more,
    ensures
        backoff_delay(policy, fewer) <= backoff_delay(policy, more),
        backoff_delay(policy, more) <= policy.max_delay,
{
    if fewer > 0 {
        lemma_doubled_monotone(policy.base_delay as nat, (fewer - 1) as nat, (more - 1) as nat);
    }
}

impl BackoffPolicy {
    /// The rest, in seconds, after `failures` failures in a row.
    pub fn delay(&self, failures: u32) -> (r: u64)
        ensures
            r == backoff_delay(*self, failures),
    {
        if failures == 0 || self.base_delay == 0 {
            proof {
                lemma_doubled_zero((failures - 1) as nat);
            }
            return 0;
        }
        let max: u64 = self.max_delay;
        let mut delay: u64 = if self.base_delay > max {
            max
        } else {
            self.base_delay
        };
        let mut i: u32 = 1;
        while i < failures && delay < max
            invariant
                1 <= i <= failures,
                max == self.max_delay,
                delay == capped(doubled(self.base_delay as nat, (i - 1) as nat), max as nat),
            decreases failures - i,
        {
            delay = if delay > max / 2 {
                max
            } else {
                delay * 2
            };
            i += 1;
        }
        proof {
            lemma_doubled_monotone(self.base_delay as nat, (i - 1) as nat, (failures - 1) as nat);
        }
        delay
    }
}

/// What a tick has read.
#[derive(Debug)]
pub struct Inputs {
    /// The feed's remembered state.
    pub state: FeedState,
    /// The reference value, in the feed's fixed-point representation.
    pub reference_value: I256,
    /// The value on chain.
    pub on_chain_value: I256,
    /// The outcome of each gating condition.
    pub conditions: Vec<Result<bool, ConditionError>>,
    /// The network's current gas prices.
    pub gas_estimate: GasQuote,
    /// The time, in seconds.
    pub now: u64,
}

/// An update on its way to the chain.
#[derive(Clone, Copy, Debug, PartialEq, Eq)]
pub struct Submission {
    /// The feed's state when the tick began.
    pub state: FeedState,
    pub new_value: I256,
    pub justification: Justification,
    /// The price offered at this attempt.
    pub price: GasPrice,
    /// How many escalations preceded this attempt.
    pub attempt: u32,
}

/// Where a feed stands in its cycle.
#[derive(Clone, Copy, Debug, PartialEq, Eq)]
pub enum Phase {
    /// Waiting for the next check to fall due.
    Idle,
    /// Reading state, reference value, on-chain value and conditions.
    Checking,
    /// Signing and broadcasting.
    Submitting(Submission),
    /// Waiting for inclusion.
    Confirming(Submission),
    /// Resting after a failure.
    Backoff,
}

/// What happened, as the caller reports it.
#[derive(Debug)]
pub enum Event {
    /// The poll interval has elapsed, or a check was asked for. A feed that
    /// is resting skips the check.
    PollDue,
    /// One of the reads failed. `state` is the remembered state, or the
    /// initial one where none is known.
    ReadFailed { state: FeedState },
    /// All reads succeeded.
    InputsRead(Inputs),
    /// The transaction was broadcast.
    Broadcast,
    /// The transaction was refused before inclusion.
    BroadcastRejected,
    /// The transaction was included and succeeded, at time `now`.
    Confirmed { now: u64 },
    /// The wait for inclusion ran out.
    ConfirmationTimedOut,
    /// The transaction was included and reverted.
    Reverted,
    /// The rest after a failure is over.
    BackoffElapsed,
    /// The keeper is shutting down.
    Shutdown,
}

/// Why a tick failed.
#[derive(Clone, Copy, Debug, PartialEq, Eq, Structural)]
pub enum TickFailure {
    ReadFailed,
    BroadcastRejected,
    Reverted,
    GasExhausted,
}

/// What is to be done next.
#[derive(Clone, Copy, Debug, PartialEq, Eq)]
pub enum Action {
    /// Nothing: the event does not belong to the phase.
    Ignore,
    /// Read the feed's state, the reference value, the on-chain value and
    /// the conditions.
    ReadInputs,
    /// Record that the tick ends without an update, and wait for the next.
    RecordSkip { reason: SkipReason },
    /// Take the signer's slot, then sign and broadcast a first offer.
    /// `price_clamped` tells whether the ceiling cut the price down.
    Submit { submission: Submission, price_clamped: bool },
    /// Sign and broadcast the same update again at a raised price. It takes
    /// the place of the transaction in flight: the slot stays held, and the
    /// nonce is the one that transaction has.
    Resubmit { submission: Submission },
    /// Wait for the transaction to be included.
    AwaitConfirmation,
    /// Store the new state and report success.
    PersistSuccess { state: FeedState },
    /// Store the failure, report it, and rest for `delay` seconds.
    PersistFailure { state: FeedState, failure: TickFailure, delay: u64 },
    /// Wait for the next check to fall due.
    Resume,
    /// Stop. Where `ambiguous` is set, a transaction was broadcast whose fate
    /// is not known: nothing is stored about it, and the signer's nonce has
    /// to be asked of the network again.
    Stop { ambiguous: bool },
}

/// Whether a transaction may be on its way in `phase`: one was broadcast
/// and neither confirmed nor given up.
pub open spec fn in_doubt(phase: Phase) -> bool {
    match phase {
        Phase::Confirming(_) => true,
        Phase::Submitting(submission) => submission.attempt > 0,
        _ => false,
    }
}

/// Whether the signer's slot is held in `phase`: from the first offer until
/// the tick ends.
pub open spec fn holds_slot(phase: Phase) -> bool {
    phase is Submitting || phase is Confirming
}

/// How the signer's slot is given back when the step that began in `before`
/// answers with `action`, if it is given back at all.
///
/// A transaction that was included, whether it succeeded or reverted, has
/// used its nonce. A tick that ends otherwise has not used it if nothing was
/// broadcast; if something was, its fate is not known and the nonce has to be
/// asked of the network again. While the tick goes on the slot stays held.
pub open spec fn slot_release(before: Phase, action: Action) -> Option<TxOutcome> {
    match action {
        Action::PersistSuccess { state } => Some(TxOutcome::Included),
        Action::PersistFailure { state, failure, delay } => if failure == TickFailure::Reverted {
            Some(TxOutcome::Included)
        } else {
            release_unconfirmed(before)
        },
        Action::Stop { ambiguous } => release_unconfirmed(before),
        _ => None,
    }
}

/// How the slot is given back when a tick ends in `before` with nothing
/// confirmed.
pub open spec fn release_unconfirmed(before: Phase) -> Option<TxOutcome> {
    if !holds_slot(before) {
        None
    } else if in_doubt(before) {
        Some(TxOutcome::Dropped)
    } else {
        Some(TxOutcome::Rejected)
    }
}

/// Why a feed is not started.
#[derive(Clone, Copy, Debug, PartialEq, Eq, Structural)]
pub enum StartError {
    /// The feed names a network that is not defined.
    ConfigReference,
}

/// Whether `at` is the first of `networks` with the name `name`.
pub open spec fn is_network_named(networks: Seq<NetworkSpec>, name: Seq<char>, at: int) -> bool {
    &&& 0 <= at < networks.len()
    &&& networks[at].name@ == name
    &&& forall|j: int| 0 <= j < at ==> (#[trigger] networks[j]).name@ != name
}

/// Whether none of `networks` has the name `name`.
pub open spec fn no_network_named(networks: Seq<NetworkSpec>, name: Seq<char>) -> bool {
    forall|j: int| 0 <= j < networks.len() ==> (#[trigger] networks[j]).name@ != name
}

/// The first of `networks` with the name `name`.
pub fn find_network(networks: &Vec<NetworkSpec>, name: &str) -> (r: Option<usize>)
    ensures
        match r {
            Some(at) => is_network_named(networks@, name@, at as int),
            None => no_network_named(networks@, name@),
        },
{
    let n: usize = networks.len();
    let mut i: usize = 0;
    while i < n
        invariant
            i <= n,
            n == networks@.len(),
            forall|j: int| 0 <= j < i ==> (#[trigger] networks@[j]).name@ != name@,
        decreases n - i,
    {
        if same_text(networks[i].name.as_str(), name) {
            return Some(i);
        }
        i += 1;
    }
    None
}

/// Whether `action` stores the failure `failure` of a tick begun in `state`
/// and asks for the rest that the policy gives.
pub open spec fn is_failure(
    action: Action,
    state: FeedState,
    failure: TickFailure,
    policy: BackoffPolicy,
) -> bool {
    action == (Action::PersistFailure {
        state: failed(state),
        failure,
        delay: backoff_delay(policy, failed(state).consecutive_failures) as u64,
    })
}

/// Drives one feed through its cycle.
pub struct FeedScheduler {
    spec: FeedSpec,
    gas: GasPriceManager,
    backoff: BackoffPolicy,
    phase: Phase,
}

impl FeedScheduler {
    /// The feed's settings.
    pub closed spec fn spec_feed(self) -> FeedSpec {
        self.spec
    }

    /// The gas pricing of the feed's network.
    pub closed spec fn spec_gas(self) -> GasPriceManager {
        self.gas
    }

    /// The rests after failures.
    pub closed spec fn spec_backoff(self) -> BackoffPolicy {
        self.backoff
    }

    /// Where the feed stands.
    pub closed spec fn spec_phase(self) -> Phase {
        self.phase
    }

    /// What taking in the inputs of a tick leads to. If a condition does not
    /// hold, the tick is skipped whatever the values. Otherwise the update
    /// decision is taken: a skip ends the tick, a submission is priced with
    /// a first offer and goes out.
    pub open spec fn takes_in(self, inputs: Inputs, after: Phase, action: Action) -> bool {
        if !all_met(inputs.conditions@) {
            after is Idle && action == (Action::RecordSkip {
                reason: SkipReason::GatingConditionNotMet,
            })
        } else {
            match decided(
                inputs.state.last_update_timestamp,
                inputs.reference_value@,
                inputs.on_chain_value@,
                inputs.now,
                self.spec_feed()@,
            ) {
                Decision::Skip { reason } => after is Idle && action == (Action::RecordSkip {
                    reason,
                }),
                Decision::Submit { new_value, justification } => {
                    let offer = first_offer(
                        self.spec_gas().kind,
                        self.spec_gas().quote(inputs.gas_estimate),
                        self.spec_gas().price_ceiling,
                    );
                    &&& after matches Phase::Submitting(submission)
                    &&& action matches Action::Submit { submission: announced, price_clamped }
                    &&& announced == submission
                    &&& price_clamped == offer.clamped
                    &&& submission.state == inputs.state
                    &&& submission.new_value@ == new_value
                    &&& submission.justification == justification
                    &&& submission.price == offer.price
                    &&& submission.attempt == 0
                },
            }
        }
    }

    /// What a confirmation that did not come in time leads to: another
    /// attempt at a raised price while the retry limit allows one, and else
    /// the end of the tick.
    pub open spec fn times_out(self, submission: Submission, after: Phase, action: Action) -> bool {
        if submission.attempt >= self.spec_gas().max_retries {
            after is Backoff && is_failure(
                action,
                submission.state,
                TickFailure::GasExhausted,
                self.spec_backoff(),
            )
        } else {
            &&& after matches Phase::Submitting(next)
            &&& action matches Action::Resubmit { submission: announced }
            &&& announced == next
            &&& next.price == submission.price.raised(self.spec_gas().price_ceiling as nat)
            &&& next.attempt == submission.attempt + 1
            &&& next.state == submission.state
            &&& next.new_value == submission.new_value
            &&& next.justification == submission.justification
        }
    }

    /// Whether the event `event`, arriving in phase `self.spec_phase()`,
    /// leads to the phase `after` and the action `action`.
    pub open spec fn steps_to(self, event: Event, after: Phase, action: Action) -> bool {
        match (self.spec_phase(), event) {
            (Phase::Idle, Event::PollDue) => after is Checking && action is ReadInputs,
            (Phase::Checking, Event::ReadFailed { state }) => after is Backoff && is_failure(
                action,
                state,
                TickFailure::ReadFailed,
                self.spec_backoff(),
            ),
            (Phase::Checking, Event::InputsRead(inputs)) => self.takes_in(inputs, after, action),
            (Phase::Submitting(submission), Event::Broadcast) => after == Phase::Confirming(
                submission,
            ) && action is AwaitConfirmation,
            (Phase::Submitting(submission), Event::BroadcastRejected) => after is Backoff
                && is_failure(
                action,
                submission.state,
                TickFailure::BroadcastRejected,
                self.spec_backoff(),
            ),
            (Phase::Confirming(submission), Event::Confirmed { now }) => after is Idle && action
                == (Action::PersistSuccess {
                state: FeedState {
                    last_value: submission.new_value,
                    last_update_timestamp: now,
                    last_check_timestamp: now,
                    consecutive_failures: 0,
                    last_gas_price: capped(submission.price.spec_total(), u128::MAX as nat) as u128,
                },
            }),
            (Phase::Confirming(submission), Event::ConfirmationTimedOut) => self.times_out(
                submission,
                after,
                action,
            ),
            (Phase::Confirming(submission), Event::Reverted) => after is Backoff && is_failure(
                action,
                submission.state,
                TickFailure::Reverted,
                self.spec_backoff(),
            ),
            (Phase::Backoff, Event::BackoffElapsed) => after is Idle && action is Resume,
            (Phase::Backoff, Event::PollDue) => after is Backoff && action == (Action::RecordSkip {
                reason: SkipReason::ReadFailureBackoff,
            }),
            (phase, Event::Shutdown) => after is Idle && action == (Action::Stop {
                ambiguous: in_doubt(phase),
            }),
            _ => after == self.spec_phase() && action is Ignore,
        }
    }

    /// Every failure is stored and followed by a rest, every rest by a new
    /// wait for the next check, and nothing else leads into a rest.
    pub proof fn law_failures_rest(self, event: Event, after: Phase, action: Action)
        requires
            self.steps_to(event, after, action),
        ensures
            action is PersistFailure ==> after is Backoff,
            after is Backoff && !(self.spec_phase() is Backoff) ==> action is PersistFailure,
            self.spec_phase() is Backoff && event is BackoffElapsed ==> after is Idle,
    {
    }

    /// An update is stored as written only after its transaction was
    /// confirmed, and then with the failures forgotten.
    pub proof fn law_success_after_confirmation(self, event: Event, after: Phase, action: Action)
        requires
            self.steps_to(event, after, action),
            action is PersistSuccess,
        ensures
            self.spec_phase() is Confirming,
            event is Confirmed,
            after is Idle,
            action->PersistSuccess_state.consecutive_failures == 0,
            action->PersistSuccess_state.last_value == self.spec_phase()->Confirming_0.new_value,
    {
    }

    /// A slot is given back exactly when a tick that holds it ends. The nonce
    /// counts as unused only if nothing was broadcast, and as used only if
    /// the transaction was included.
    pub proof fn law_slot_release(self, event: Event, after: Phase, action: Action)
        requires
            self.steps_to(event, after, action),
        ensures
            slot_release(self.spec_phase(), action) is Some <==> holds_slot(self.spec_phase())
                && !holds_slot(after),
            slot_release(self.spec_phase(), action) == Some(TxOutcome::Rejected) ==> !in_doubt(
                self.spec_phase(),
            ),
            slot_release(self.spec_phase(), action) == Some(TxOutcome::Included) ==> (event
                is Confirmed || event is Reverted),
            slot_release(self.spec_phase(), action) == Some(TxOutcome::Included)
                ==> self.spec_phase() is Confirming,
    {
    }

    /// An update is offered again only after it was broadcast, so that there
    /// is a transaction whose place and nonce the new offer takes.
    pub proof fn law_resubmit_follows_broadcast(
        self,
        event: Event,
        after: Phase,
        action: Action,
    )
        requires
            self.steps_to(event, after, action),
            action is Resubmit,
        ensures
            self.spec_phase() is Confirming,
            event is ConfirmationTimedOut,
            in_doubt(after),
    {
    }

    /// A scheduler for one feed, idle.
    pub fn new(spec: FeedSpec, gas: GasPriceManager, backoff: BackoffPolicy) -> (r: FeedScheduler)
        ensures
            r.spec_feed() == spec,
            r.spec_gas() == gas,
            r.spec_backoff() == backoff,
            r.spec_phase() is Idle,
    {
        FeedScheduler { spec, gas, backoff, phase: Phase::Idle }
    }

    /// A scheduler for `spec` on the network that it names, idle. A feed
    /// whose network is not among `networks` is not started.
    pub fn start(
        spec: FeedSpec,
        networks: &Vec<NetworkSpec>,
        max_retries: u32,
        backoff: BackoffPolicy,
    ) -> (r: Result<FeedScheduler, StartError>)
        ensures
            match r {
                Ok(scheduler) => {
                    &&& scheduler.spec_feed() == spec
                    &&& scheduler.spec_backoff() == backoff
                    &&& scheduler.spec_phase() is Idle
                    &&& exists|at: int|
                        is_network_named(networks@, spec.spec_network(), at)
                            && scheduler.spec_gas() == GasPriceManager::for_network(
                            #[trigger] networks@[at],
                            max_retries,
                        )
                },
                Err(e) => e == StartError::ConfigReference && no_network_named(
                    networks@,
                    spec.spec_network(),
                ),
            },
    {
        match find_network(networks, spec.network()) {
            Some(at) => {
                let gas: GasPriceManager = GasPriceManager::new(&networks[at], max_retries);
                Ok(FeedScheduler { spec, gas, backoff, phase: Phase::Idle })
            },
            None => Err(StartError::ConfigReference),
        }
    }

    /// Where the feed stands.
    pub fn phase(&self) -> (r: Phase)
        ensures
            r == self.spec_phase(),
    {
        self.phase
    }

    /// The feed's settings.
    pub fn feed(&self) -> (r: &FeedSpec)
        ensures
            *r == self.spec_feed(),
    {
        &self.spec
    }

    /// The gas pricing of the feed's network.
    pub fn gas(&self) -> (r: GasPriceManager)
        ensures
            r == self.spec_gas(),
    {
        self.gas
    }

    /// The rests after failures.
    pub fn backoff(&self) -> (r: BackoffPolicy)
        ensures
            r == self.spec_backoff(),
    {
        self.backoff
    }

    /// The end of a tick that failed: the failure is stored and the feed
    /// rests.
    fn fail(&self, state: &FeedState, failure: TickFailure) -> (r: Action)
        ensures
            is_failure(r, *state, failure, self.spec_backoff()),
    {
        let next: FeedState = state.after_failure();
        Action::PersistFailure {
            state: next,
            failure,
            delay: self.backoff.delay(next.consecutive_failures),
        }
    }

    /// How the signer's slot is to be given back after the step that began
    /// in `before` answered with `action`; `None` where it is not given back.
    pub fn slot_release(before: &Phase, action: &Action) -> (r: Option<TxOutcome>)
        ensures
            r == slot_release(*before, *action),
    {
        let unconfirmed: Option<TxOutcome> = match before {
            Phase::Confirming(_) => Some(TxOutcome::Dropped),
            Phase::Submitting(submission) => if submission.attempt > 0 {
                Some(TxOutcome::Dropped)
            } else {
                Some(TxOutcome::Rejected)
            },
            _ => None,
        };
        match action {
            Action::PersistSuccess { state } => Some(TxOutcome::Included),
            Action::PersistFailure { state, failure, delay } => match failure {
                TickFailure::Reverted => Some(TxOutcome::Included),
                _ => unconfirmed,
            },
            Action::Stop { ambiguous } => unconfirmed,
            _ => None,
        }
    }

    /// The decision of a tick: whether the feed is updated, given what the
    /// tick has read.
    pub fn evaluate(&self, inputs: &Inputs) -> (r: UpdateDecision)
        ensures
            r@ == if all_met(inputs.conditions@) {
                decided(
                    inputs.state.last_update_timestamp,
                    inputs.reference_value@,
                    inputs.on_chain_value@,
                    inputs.now,
                    self.spec_feed()@,
                )
            } else {
                Decision::Skip { reason: SkipReason::GatingConditionNotMet }
            },
    {
        if !ConditionChecker::conditions_met(&inputs.conditions) {
            UpdateDecision::Skip { reason: SkipReason::GatingConditionNotMet }
        } else {
            DeviationEngine::decide(
                &inputs.state,
                inputs.reference_value,
                inputs.on_chain_value,
                inputs.now,
                &self.spec,
            )
        }
    }

    /// Takes in what happened and says what is to be done next.
    pub fn handle(&mut self, event: Event) -> (r: Action)
        ensures
            old(self).steps_to(event, final(self).spec_phase(), r),
            final(self).spec_feed() == old(self).spec_feed(),
            final(self).spec_gas() == old(self).spec_gas(),
            final(self).spec_backoff() == old(self).spec_backoff(),
    {
        let phase: Phase = self.phase;
        match (phase, event) {
            (Phase::Idle, Event::PollDue) => {
                self.phase = Phase::Checking;
                Action::ReadInputs
            },
            (Phase::Checking, Event::ReadFailed { state }) => {
                self.phase = Phase::Backoff;
                self.fail(&state, TickFailure::ReadFailed)
            },
            (Phase::Checking, Event::InputsRead(inputs)) => {
                match self.evaluate(&inputs) {
                    UpdateDecision::Skip { reason } => {
                        self.phase = Phase::Idle;
                        Action::RecordSkip { reason }
                    },
                    UpdateDecision::Submit { new_value, justification } => {
                        let offer = self.gas.initial_price(inputs.gas_estimate);
                        let submission: Submission = Submission {
                            state: inputs.state,
                            new_value,
                            justification,
                            price: offer.price,
                            attempt: 0,
                        };
                        self.phase = Phase::Submitting(submission);
                        Action::Submit { submission, price_clamped: offer.clamped }
                    },
                }
            },
            (Phase::Submitting(submission), Event::Broadcast) => {
                self.phase = Phase::Confirming(submission);
                Action::AwaitConfirmation
            },
            (Phase::Submitting(submission), Event::BroadcastRejected) => {
                self.phase = Phase::Backoff;
                self.fail(&submission.state, TickFailure::BroadcastRejected)
            },
            (Phase::Confirming(submission), Event::Confirmed { now }) => {
                self.phase = Phase::Idle;
                Action::PersistSuccess {
                    state: submission.state.after_success(
                        submission.new_value,
                        now,
                        submission.price.total(),
                    ),
                }
            },
            (Phase::Confirming(submission), Event::ConfirmationTimedOut) => {
                if submission.attempt >= self.gas.max_retries {
                    self.phase = Phase::Backoff;
                    return self.fail(&submission.state, TickFailure::GasExhausted);
                }
                let attempt: u32 = submission.attempt + 1;
                match self.gas.escalate(submission.price, attempt) {
                    Ok(price) => {
                        let next: Submission = Submission {
                            state: submission.state,
                            new_value: submission.new_value,
                            justification: submission.justification,
                            price,
                            attempt,
                        };
                        self.phase = Phase::Submitting(next);
                        Action::Resubmit { submission: next }
                    },
                    Err(GasError::GasExhausted) => {
                        self.phase = Phase::Backoff;
                        self.fail(&submission.state, TickFailure::GasExhausted)
                    },
                }
            },
            (Phase::Confirming(submission), Event::Reverted) => {
                self.phase = Phase::Backoff;
                self.fail(&submission.state, TickFailure::Reverted)
            },
            (Phase::Backoff, Event::BackoffElapsed) => {
                self.phase = Phase::Idle;
                Action::Resume
            },
            (Phase::Backoff, Event::PollDue) => {
                Action::RecordSkip { reason: SkipReason::ReadFailureBackoff }
            },
            (phase, Event::Shutdown) => {
                let ambiguous: bool = match phase {
                    Phase::Confirming(_) => true,
                    Phase::Submitting(submission) => submission.attempt > 0,
                    _ => false,
                };
                self.phase = Phase::Idle;
                Action::Stop { ambiguous }
            },
            _ => Action::Ignore,
        }
    }
}

} // verus!
