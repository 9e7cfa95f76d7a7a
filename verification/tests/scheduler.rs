use feed_keeper::condition::{CheckCondition, ConditionChecker, ExpectedValue};
use feed_keeper::deviation::{
    FeedSpec, Justification, SkipReason, SubmitCause, UpdateDecision,
};
use feed_keeper::error::ConditionError;
use feed_keeper::gas::{GasPolicy, GasPrice, GasPriceManager, GasQuote, NetworkSpec, TransactionKind};
use feed_keeper::scheduler::{
    find_network, Action, BackoffPolicy, Event, FeedScheduler, Inputs, Phase, StartError,
    Submission, TickFailure,
};
use feed_keeper::nonce::TxOutcome;
use feed_keeper::state::FeedState;
use feed_keeper::uint::I256;

const BACKOFF: BackoffPolicy = BackoffPolicy { base_delay: 5, max_delay: 60 };
const ESTIMATE: GasQuote = GasQuote { gas_price: 100, base_fee: 0, priority_fee: 0 };

fn num(v: i128) -> I256 {
    I256::from_i128(v)
}

fn feed(network: &str) -> FeedSpec {
    FeedSpec::new(
        "eth_usd".to_string(),
        network.to_string(),
        "0x1234567890123456789012345678901234567890".to_string(),
        8,
        60,
        3600,
        500,
        None,
        None,
        vec![],
    )
    .unwrap()
}

fn network(name: &str, price_ceiling: u128) -> NetworkSpec {
    NetworkSpec {
        name: name.to_string(),
        rpc_url: "https://eth.llamarpc.com".to_string(),
        default_kind: TransactionKind::Legacy,
        gas_policy: Some(GasPolicy {
            gas_limit_ceiling: 500_000,
            price_ceiling,
            kind: TransactionKind::Legacy,
            fixed_price: None,
        }),
    }
}

fn scheduler(max_retries: u32) -> FeedScheduler {
    FeedScheduler::new(
        feed("ethereum"),
        GasPriceManager::new(&network("ethereum", 130), max_retries),
        BACKOFF,
    )
}

fn state() -> FeedState {
    FeedState {
        last_value: num(100),
        last_update_timestamp: 1_000,
        last_check_timestamp: 1_000,
        consecutive_failures: 2,
        last_gas_price: 90,
    }
}

fn inputs(reference: i128, now: u64, conditions: Vec<Result<bool, ConditionError>>) -> Inputs {
    Inputs {
        state: state(),
        reference_value: num(reference),
        on_chain_value: num(100),
        conditions,
        gas_estimate: ESTIMATE,
        now,
    }
}

fn submission(price: u128, attempt: u32) -> Submission {
    Submission {
        state: state(),
        new_value: num(106),
        justification: Justification { cause: SubmitCause::Deviation, clamped: false },
        price: GasPrice::Legacy { price },
        attempt,
    }
}

#[test]
fn a_full_cycle() {
    let mut s = scheduler(3);
    assert_eq!(s.phase(), Phase::Idle);
    assert_eq!(s.handle(Event::PollDue), Action::ReadInputs);
    assert_eq!(s.phase(), Phase::Checking);
    let first = submission(100, 0);
    assert_eq!(
        s.handle(Event::InputsRead(inputs(106, 1_100, vec![Ok(true)]))),
        Action::Submit { submission: first, price_clamped: false }
    );
    assert_eq!(s.phase(), Phase::Submitting(first));
    assert_eq!(s.handle(Event::Broadcast), Action::AwaitConfirmation);
    assert_eq!(s.phase(), Phase::Confirming(first));
    assert_eq!(
        s.handle(Event::Confirmed { now: 1_130 }),
        Action::PersistSuccess {
            state: FeedState {
                last_value: num(106),
                last_update_timestamp: 1_130,
                last_check_timestamp: 1_130,
                consecutive_failures: 0,
                last_gas_price: 100,
            }
        }
    );
    assert_eq!(s.phase(), Phase::Idle);
}

#[test]
fn end_to_end_decisions() {
    // Six percent against five: submit 106.
    let s = scheduler(3);
    assert_eq!(
        s.evaluate(&inputs(106, 1_100, vec![])),
        UpdateDecision::Submit {
            new_value: num(106),
            justification: Justification { cause: SubmitCause::Deviation, clamped: false }
        }
    );
    // Two percent: skip.
    assert_eq!(
        s.evaluate(&inputs(102, 1_100, vec![])),
        UpdateDecision::Skip { reason: SkipReason::DeviationBelowThresholdAndNotStale }
    );
    // Two percent, but stale: submit 102.
    assert_eq!(
        s.evaluate(&inputs(102, 4_600, vec![])),
        UpdateDecision::Submit {
            new_value: num(102),
            justification: Justification { cause: SubmitCause::Stale, clamped: false }
        }
    );
    let mut s = scheduler(3);
    s.handle(Event::PollDue);
    assert_eq!(
        s.handle(Event::InputsRead(inputs(102, 1_100, vec![]))),
        Action::RecordSkip { reason: SkipReason::DeviationBelowThresholdAndNotStale }
    );
    assert_eq!(s.phase(), Phase::Idle);
}

#[test]
fn a_failing_condition_blocks_the_update_whatever_the_deviation() {
    // A property expected to be true, on a contract that returns false.
    let condition = CheckCondition::Property {
        contract_address: "0x1234567890123456789012345678901234567890".to_string(),
        property: "isReady".to_string(),
        expected_value: ExpectedValue::Bool(true),
    };
    let outcome = ConditionChecker::check_condition(&condition, &[0u8; 32]);
    assert_eq!(outcome, Ok(false));
    for (reference, now) in [(106, 1_100), (1_000_000, 1_100), (102, 1_100), (102, 1_000_000)] {
        let mut s = scheduler(3);
        assert_eq!(
            s.evaluate(&inputs(reference, now, vec![Ok(true), outcome])),
            UpdateDecision::Skip { reason: SkipReason::GatingConditionNotMet }
        );
        s.handle(Event::PollDue);
        assert_eq!(
            s.handle(Event::InputsRead(inputs(reference, now, vec![Ok(true), outcome]))),
            Action::RecordSkip { reason: SkipReason::GatingConditionNotMet }
        );
        assert_eq!(s.phase(), Phase::Idle);
    }
    // A condition that could not be checked blocks as well.
    let s = scheduler(3);
    assert_eq!(
        s.evaluate(&inputs(106, 1_100, vec![Err(ConditionError::AbiDecode)])),
        UpdateDecision::Skip { reason: SkipReason::GatingConditionNotMet }
    );
}

#[test]
fn the_first_offer_is_clamped() {
    let mut s = scheduler(3);
    s.handle(Event::PollDue);
    let mut read = inputs(106, 1_100, vec![]);
    read.gas_estimate = GasQuote { gas_price: 500, base_fee: 0, priority_fee: 0 };
    assert_eq!(
        s.handle(Event::InputsRead(read)),
        Action::Submit { submission: submission(130, 0), price_clamped: true }
    );
}

#[test]
fn timeouts_escalate_until_the_retries_run_out() {
    let mut s = scheduler(2);
    s.handle(Event::PollDue);
    s.handle(Event::InputsRead(inputs(106, 1_100, vec![])));
    s.handle(Event::Broadcast);
    assert_eq!(
        s.handle(Event::ConfirmationTimedOut),
        Action::Resubmit { submission: submission(120, 1) }
    );
    assert_eq!(s.phase(), Phase::Submitting(submission(120, 1)));
    s.handle(Event::Broadcast);
    // The ceiling of 130 holds the second escalation down.
    assert_eq!(
        s.handle(Event::ConfirmationTimedOut),
        Action::Resubmit { submission: submission(130, 2) }
    );
    s.handle(Event::Broadcast);
    assert_eq!(
        s.handle(Event::ConfirmationTimedOut),
        Action::PersistFailure {
            state: FeedState { consecutive_failures: 3, ..state() },
            failure: TickFailure::GasExhausted,
            delay: 20,
        }
    );
    assert_eq!(s.phase(), Phase::Backoff);
    // A check that falls due during the rest is skipped.
    assert_eq!(
        s.handle(Event::PollDue),
        Action::RecordSkip { reason: SkipReason::ReadFailureBackoff }
    );
    assert_eq!(s.phase(), Phase::Backoff);
    assert_eq!(s.handle(Event::Broadcast), Action::Ignore);
    assert_eq!(s.handle(Event::BackoffElapsed), Action::Resume);
    assert_eq!(s.phase(), Phase::Idle);
}

#[test]
fn every_failure_leads_to_backoff() {
    let failure = |failure: TickFailure| Action::PersistFailure {
        state: FeedState { consecutive_failures: 3, ..state() },
        failure,
        delay: 20,
    };
    let mut s = scheduler(3);
    s.handle(Event::PollDue);
    assert_eq!(s.handle(Event::ReadFailed { state: state() }), failure(TickFailure::ReadFailed));
    assert_eq!(s.phase(), Phase::Backoff);

    let mut s = scheduler(3);
    s.handle(Event::PollDue);
    s.handle(Event::InputsRead(inputs(106, 1_100, vec![])));
    assert_eq!(s.handle(Event::BroadcastRejected), failure(TickFailure::BroadcastRejected));
    assert_eq!(s.phase(), Phase::Backoff);

    let mut s = scheduler(3);
    s.handle(Event::PollDue);
    s.handle(Event::InputsRead(inputs(106, 1_100, vec![])));
    s.handle(Event::Broadcast);
    assert_eq!(s.handle(Event::Reverted), failure(TickFailure::Reverted));
    assert_eq!(s.phase(), Phase::Backoff);

    // A first failure of a feed without a history.
    let mut s = scheduler(3);
    s.handle(Event::PollDue);
    assert_eq!(
        s.handle(Event::ReadFailed { state: FeedState::initial() }),
        Action::PersistFailure {
            state: FeedState { consecutive_failures: 1, ..FeedState::initial() },
            failure: TickFailure::ReadFailed,
            delay: 5,
        }
    );
}

#[test]
fn events_out_of_place_are_ignored() {
    let mut s = scheduler(3);
    for event in [
        Event::Broadcast,
        Event::BroadcastRejected,
        Event::Confirmed { now: 1 },
        Event::ConfirmationTimedOut,
        Event::Reverted,
        Event::BackoffElapsed,
        Event::ReadFailed { state: state() },
        Event::InputsRead(inputs(106, 1_100, vec![])),
    ] {
        assert_eq!(s.handle(event), Action::Ignore);
        assert_eq!(s.phase(), Phase::Idle);
    }
    s.handle(Event::PollDue);
    assert_eq!(s.handle(Event::PollDue), Action::Ignore);
    assert_eq!(s.handle(Event::Confirmed { now: 1 }), Action::Ignore);
    assert_eq!(s.phase(), Phase::Checking);
    s.handle(Event::InputsRead(inputs(106, 1_100, vec![])));
    assert_eq!(s.handle(Event::Confirmed { now: 1 }), Action::Ignore);
    assert_eq!(s.handle(Event::ConfirmationTimedOut), Action::Ignore);
    assert_eq!(s.phase(), Phase::Submitting(submission(100, 0)));
    s.handle(Event::Broadcast);
    assert_eq!(s.handle(Event::Broadcast), Action::Ignore);
    assert_eq!(s.phase(), Phase::Confirming(submission(100, 0)));
}

#[test]
fn backoff_is_a_bounded_exponential() {
    let delays: Vec<u64> = (0..=8).map(|f| BACKOFF.delay(f)).collect();
    assert_eq!(delays, vec![0, 5, 10, 20, 40, 60, 60, 60, 60]);
    assert_eq!(BACKOFF.delay(u32::MAX), 60);
    let still = BackoffPolicy { base_delay: 0, max_delay: 60 };
    assert_eq!(still.delay(1), 0);
    assert_eq!(still.delay(1_000), 0);
    assert_eq!(still.delay(u32::MAX), 0);
    let short = BackoffPolicy { base_delay: 100, max_delay: 60 };
    assert_eq!(short.delay(1), 60);
    let wide = BackoffPolicy { base_delay: 1, max_delay: u64::MAX };
    assert_eq!(wide.delay(64), 1 << 63);
    assert_eq!(wide.delay(65), u64::MAX);
    assert_eq!(wide.delay(66), u64::MAX);
}

#[test]
fn the_scheduler_keeps_its_feed() {
    let s = scheduler(3);
    assert_eq!(s.feed().name(), "eth_usd");
    assert_eq!(s.feed().deviation_threshold_bps(), 500);
}

#[test]
fn a_feed_starts_on_the_network_it_names() {
    let networks = vec![network("base", 10), network("ethereum", 130), network("ethereum", 999)];
    assert_eq!(find_network(&networks, "ethereum"), Some(1));
    assert_eq!(find_network(&networks, "base"), Some(0));
    assert_eq!(find_network(&networks, "Ethereum"), None);
    assert_eq!(find_network(&vec![], "ethereum"), None);
    let s = FeedScheduler::start(feed("ethereum"), &networks, 4, BACKOFF).unwrap();
    assert_eq!(s.phase(), Phase::Idle);
    assert_eq!(s.gas(), GasPriceManager::new(&networks[1], 4));
    assert_eq!(s.gas().price_ceiling, 130);
    assert_eq!(s.backoff(), BACKOFF);
    assert_eq!(s.feed().network(), "ethereum");
    // A feed on a network that is not defined is not started.
    assert_eq!(
        FeedScheduler::start(feed("non_existent_network"), &networks, 4, BACKOFF).err(),
        Some(StartError::ConfigReference)
    );
}

#[test]
fn shutdown_never_forgets_a_broadcast() {
    // Nothing in flight: idle, checking, resting, and before the first broadcast.
    let mut s = scheduler(3);
    assert_eq!(s.handle(Event::Shutdown), Action::Stop { ambiguous: false });
    s.handle(Event::PollDue);
    assert_eq!(s.handle(Event::Shutdown), Action::Stop { ambiguous: false });
    assert_eq!(s.phase(), Phase::Idle);
    s.handle(Event::PollDue);
    s.handle(Event::InputsRead(inputs(106, 1_100, vec![])));
    assert_eq!(s.handle(Event::Shutdown), Action::Stop { ambiguous: false });
    assert_eq!(s.phase(), Phase::Idle);
    s.handle(Event::PollDue);
    s.handle(Event::ReadFailed { state: state() });
    assert_eq!(s.handle(Event::Shutdown), Action::Stop { ambiguous: false });

    // Broadcast and waiting.
    let mut s = scheduler(3);
    s.handle(Event::PollDue);
    s.handle(Event::InputsRead(inputs(106, 1_100, vec![])));
    s.handle(Event::Broadcast);
    assert_eq!(s.handle(Event::Shutdown), Action::Stop { ambiguous: true });
    assert_eq!(s.phase(), Phase::Idle);

    // Broadcast once, about to be broadcast again.
    let mut s = scheduler(3);
    s.handle(Event::PollDue);
    s.handle(Event::InputsRead(inputs(106, 1_100, vec![])));
    s.handle(Event::Broadcast);
    s.handle(Event::ConfirmationTimedOut);
    assert_eq!(s.handle(Event::Shutdown), Action::Stop { ambiguous: true });
}

/// Runs `events` from an idle scheduler and gives the release after each.
fn releases(max_retries: u32, events: Vec<Event>) -> Vec<Option<TxOutcome>> {
    let mut s = scheduler(max_retries);
    events
        .into_iter()
        .map(|event| {
            let before = s.phase();
            let action = s.handle(event);
            FeedScheduler::slot_release(&before, &action)
        })
        .collect()
}

fn read() -> Event {
    Event::InputsRead(inputs(106, 1_100, vec![]))
}

#[test]
fn the_slot_is_given_back_when_the_tick_ends() {
    let included = Some(TxOutcome::Included);
    let rejected = Some(TxOutcome::Rejected);
    let dropped = Some(TxOutcome::Dropped);
    // Confirmed, and reverted: the nonce is used.
    assert_eq!(
        releases(3, vec![Event::PollDue, read(), Event::Broadcast, Event::Confirmed { now: 9 }]),
        vec![None, None, None, included]
    );
    assert_eq!(
        releases(3, vec![Event::PollDue, read(), Event::Broadcast, Event::Reverted]),
        vec![None, None, None, included]
    );
    // Refused before anything was broadcast: the nonce is not used.
    assert_eq!(
        releases(3, vec![Event::PollDue, read(), Event::BroadcastRejected]),
        vec![None, None, rejected]
    );
    // Refused at the second offer: the first may still arrive.
    assert_eq!(
        releases(
            3,
            vec![
                Event::PollDue,
                read(),
                Event::Broadcast,
                Event::ConfirmationTimedOut,
                Event::BroadcastRejected
            ]
        ),
        vec![None, None, None, None, dropped]
    );
    // Out of retries.
    assert_eq!(
        releases(0, vec![Event::PollDue, read(), Event::Broadcast, Event::ConfirmationTimedOut]),
        vec![None, None, None, dropped]
    );
    // Stopped before, and after, a broadcast.
    assert_eq!(releases(3, vec![Event::PollDue, read(), Event::Shutdown]), vec![None, None, rejected]);
    assert_eq!(
        releases(3, vec![Event::PollDue, read(), Event::Broadcast, Event::Shutdown]),
        vec![None, None, None, dropped]
    );
    // No slot is held while reading, resting or idling.
    assert_eq!(
        releases(
            3,
            vec![
                Event::Shutdown,
                Event::PollDue,
                Event::ReadFailed { state: state() },
                Event::Shutdown
            ]
        ),
        vec![None, None, None, None]
    );
    assert_eq!(
        releases(3, vec![Event::PollDue, Event::InputsRead(inputs(102, 1_100, vec![]))]),
        vec![None, None]
    );
}
