use feed_keeper::gas::{
    GasError, GasPolicy, GasPrice, GasPriceManager, GasQuote, InitialPrice, NetworkSpec,
    TransactionKind,
};

fn network(policy: Option<GasPolicy>) -> NetworkSpec {
    NetworkSpec {
        name: "ethereum".to_string(),
        rpc_url: "https://eth.llamarpc.com".to_string(),
        default_kind: TransactionKind::FeeMarket,
        gas_policy: policy,
    }
}

fn policy(kind: TransactionKind, ceiling: u128, fixed: Option<GasQuote>) -> GasPolicy {
    GasPolicy { gas_limit_ceiling: 500_000, price_ceiling: ceiling, kind, fixed_price: fixed }
}

const ESTIMATE: GasQuote = GasQuote { gas_price: 150, base_fee: 80, priority_fee: 120 };

#[test]
fn manager_follows_the_policy() {
    let m = GasPriceManager::new(&network(Some(policy(TransactionKind::Legacy, 100, None))), 3);
    assert_eq!(m.kind, TransactionKind::Legacy);
    assert_eq!(m.price_ceiling, 100);
    assert_eq!(m.gas_limit_ceiling, 500_000);
    assert_eq!(m.fixed_price, None);
    assert_eq!(m.max_retries, 3);
    let open = GasPriceManager::new(&network(None), 1);
    assert_eq!(open.fixed_price, None);
    assert_eq!(open.max_retries, 1);
    assert_eq!(open.kind, TransactionKind::FeeMarket);
    assert_eq!(open.price_ceiling, u128::MAX);
    assert_eq!(open.gas_limit_ceiling, u64::MAX);
}

#[test]
fn initial_price_is_clamped_and_says_so() {
    let m = GasPriceManager::new(&network(Some(policy(TransactionKind::Legacy, 100, None))), 3);
    assert_eq!(
        m.initial_price(ESTIMATE),
        InitialPrice { price: GasPrice::Legacy { price: 100 }, clamped: true }
    );
    assert_eq!(
        m.initial_price(GasQuote { gas_price: 100, base_fee: 999, priority_fee: 999 }),
        InitialPrice { price: GasPrice::Legacy { price: 100 }, clamped: false }
    );
    let f = GasPriceManager::new(&network(Some(policy(TransactionKind::FeeMarket, 100, None))), 3);
    assert_eq!(
        f.initial_price(ESTIMATE),
        InitialPrice {
            price: GasPrice::FeeMarket { base_fee: 80, priority_fee: 100 },
            clamped: true
        }
    );
    let open = GasPriceManager::new(&network(None), 3);
    assert_eq!(
        open.initial_price(ESTIMATE),
        InitialPrice {
            price: GasPrice::FeeMarket { base_fee: 80, priority_fee: 120 },
            clamped: false
        }
    );
}

#[test]
fn fixed_price_takes_the_place_of_the_estimate() {
    let fixed = GasQuote { gas_price: 42, base_fee: 7, priority_fee: 1 };
    let m =
        GasPriceManager::new(&network(Some(policy(TransactionKind::Legacy, 100, Some(fixed)))), 3);
    assert_eq!(
        m.initial_price(ESTIMATE),
        InitialPrice { price: GasPrice::Legacy { price: 42 }, clamped: false }
    );
    let high = GasQuote { gas_price: 420, base_fee: 7, priority_fee: 1 };
    let m =
        GasPriceManager::new(&network(Some(policy(TransactionKind::Legacy, 100, Some(high)))), 3);
    assert_eq!(
        m.initial_price(ESTIMATE),
        InitialPrice { price: GasPrice::Legacy { price: 100 }, clamped: true }
    );
}

#[test]
fn gas_limit_is_capped() {
    let m = GasPriceManager::new(&network(Some(policy(TransactionKind::Legacy, 100, None))), 3);
    assert_eq!(m.gas_limit(21_000), 21_000);
    assert_eq!(m.gas_limit(500_000), 500_000);
    assert_eq!(m.gas_limit(500_001), 500_000);
}

#[test]
fn escalation_raises_by_a_fifth_rounded_up() {
    let m = GasPriceManager::new(&network(Some(policy(TransactionKind::Legacy, 1_000, None))), 9);
    let legacy = |p: u128| GasPrice::Legacy { price: p };
    assert_eq!(m.escalate(legacy(100), 1), Ok(legacy(120)));
    assert_eq!(m.escalate(legacy(10), 1), Ok(legacy(12)));
    assert_eq!(m.escalate(legacy(11), 1), Ok(legacy(14)));
    assert_eq!(m.escalate(legacy(1), 1), Ok(legacy(2)));
    assert_eq!(m.escalate(legacy(0), 1), Ok(legacy(0)));
    assert_eq!(m.escalate(legacy(900), 1), Ok(legacy(1_000)));
    assert_eq!(m.escalate(legacy(1_000), 2), Ok(legacy(1_000)));
    assert_eq!(m.escalate(legacy(5_000), 2), Ok(legacy(1_000)));
    let f = GasPriceManager::new(&network(Some(policy(TransactionKind::FeeMarket, 100, None))), 9);
    assert_eq!(
        f.escalate(GasPrice::FeeMarket { base_fee: 50, priority_fee: 90 }, 1),
        Ok(GasPrice::FeeMarket { base_fee: 60, priority_fee: 100 })
    );
    let open = GasPriceManager::new(&network(None), 9);
    assert_eq!(open.escalate(legacy(u128::MAX - 1), 1), Ok(legacy(u128::MAX)));
    assert_eq!(open.escalate(legacy(u128::MAX), 1), Ok(legacy(u128::MAX)));
}

#[test]
fn escalation_never_decreases_and_never_passes_the_ceiling() {
    let m = GasPriceManager::new(&network(Some(policy(TransactionKind::Legacy, 777, None))), 50);
    let mut price = m.initial_price(GasQuote { gas_price: 3, base_fee: 0, priority_fee: 0 }).price;
    let mut reached = false;
    for attempt in 1..=50u32 {
        let next = m.escalate(price, attempt).unwrap();
        let (GasPrice::Legacy { price: before }, GasPrice::Legacy { price: after }) = (price, next)
        else {
            panic!("kind changed");
        };
        assert!(after >= before);
        assert!(after <= 777);
        if before < 777 {
            assert!(after > before);
        }
        reached = reached || after == 777;
        price = next;
    }
    assert!(reached);
    assert_eq!(price, GasPrice::Legacy { price: 777 });
}

#[test]
fn escalation_ends_with_the_retry_limit() {
    let m = GasPriceManager::new(&network(Some(policy(TransactionKind::Legacy, 1_000, None))), 3);
    let p = GasPrice::Legacy { price: 100 };
    assert!(m.escalate(p, 0).is_ok());
    assert!(m.escalate(p, 3).is_ok());
    assert_eq!(m.escalate(p, 4), Err(GasError::GasExhausted));
    assert_eq!(m.escalate(p, u32::MAX), Err(GasError::GasExhausted));
    let none = GasPriceManager::new(&network(None), 0);
    assert_eq!(none.escalate(p, 1), Err(GasError::GasExhausted));
}

#[test]
fn total_price() {
    assert_eq!(GasPrice::Legacy { price: 9 }.total(), 9);
    assert_eq!(GasPrice::FeeMarket { base_fee: 9, priority_fee: 2 }.total(), 11);
    assert_eq!(GasPrice::FeeMarket { base_fee: u128::MAX, priority_fee: 2 }.total(), u128::MAX);
}
