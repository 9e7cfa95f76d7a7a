//! Gas pricing: the first offer for a submission, and the raised offers for
//! the attempts that follow when a transaction is stuck.

use vstd::prelude::*;

verus! {

/// How a network prices transactions.
#[derive(Clone, Copy, Debug, PartialEq, Eq, Structural)]
pub enum TransactionKind {
    /// One gas price.
    Legacy,
    /// A base fee and a priority fee.
    FeeMarket,
}

/// Prices per unit of gas, in the network's smallest unit: a live estimate,
/// or prices fixed by configuration.
#[derive(Clone, Copy, Debug, PartialEq, Eq, Structural)]
pub struct GasQuote {
    pub gas_price: u128,
    pub base_fee: u128,
    pub priority_fee: u128,
}

/// The gas policy of a network.
#[derive(Clone, Copy, Debug, PartialEq, Eq, Structural)]
pub struct GasPolicy {
    /// The most gas a transaction may use.
    pub gas_limit_ceiling: u64,
    /// The highest price per unit of gas that may be offered.
    pub price_ceiling: u128,
    /// How transactions are priced.
    pub kind: TransactionKind,
    /// Prices to offer in place of a live estimate.
    pub fixed_price: Option<GasQuote>,
}

/// The settings of one network. They do not change after loading.
#[derive(Clone, Debug)]
pub struct NetworkSpec {
    pub name: String,
    pub rpc_url: String,
    /// How transactions are priced where no gas policy says so.
    pub default_kind: TransactionKind,
    pub gas_policy: Option<GasPolicy>,
}

/// The price offered for a unit of gas.
#[derive(Clone, Copy, Debug, PartialEq, Eq, Structural)]
pub enum GasPrice {
    Legacy { price: u128 },
    FeeMarket { base_fee: u128, priority_fee: u128 },
}

/// A first offer, and whether the ceiling cut it down.
#[derive(Clone, Copy, Debug, PartialEq, Eq, Structural)]
pub struct InitialPrice {
    pub price: GasPrice,
    pub clamped: bool,
}

/// Why no further offer is made.
#[derive(Clone, Copy, Debug, PartialEq, Eq, Structural)]
pub enum GasError {
    /// More attempts were made than the retry limit allows.
    GasExhausted,
}

/// The smaller of `value` and `ceiling`.
pub open spec fn capped(value: nat, ceiling: nat) -> nat {
    if value > ceiling {
        ceiling
    } else {
        value
    }
}

/// `previous` raised by a fifth, rounded up, and held at `ceiling`.
pub open spec fn escalated(previous: nat, ceiling: nat) -> nat {
    capped(previous + (previous + 4) / 5, ceiling)
}

/// The offer after `attempts` escalations of `initial`.
pub open spec fn escalated_times(initial: nat, ceiling: nat, attempts: nat) -> nat
    decreases attempts,
{
    if attempts == 0 {
        initial
    } else {
        escalated(escalated_times(initial, ceiling, (attempts - 1) as nat), ceiling)
    }
}

impl GasPrice {
    /// Whether no component of the price is above `ceiling`.
    pub open spec fn within(self, ceiling: nat) -> bool {
        match self {
            GasPrice::Legacy { price } => price <= ceiling,
            GasPrice::FeeMarket { base_fee, priority_fee } => base_fee <= ceiling && priority_fee
                <= ceiling,
        }
    }

    /// Whether `self` is of the same kind as `other` and no component of it
    /// is above that of `other`.
    pub open spec fn at_most(self, other: GasPrice) -> bool {
        match (self, other) {
            (GasPrice::Legacy { price: a }, GasPrice::Legacy { price: b }) => a <= b,
            (
                GasPrice::FeeMarket { base_fee: a, priority_fee: p },
                GasPrice::FeeMarket { base_fee: b, priority_fee: q },
            ) => a <= b && p <= q,
            _ => false,
        }
    }

    /// The price with each component raised by a fifth and held at `ceiling`.
    pub open spec fn raised(self, ceiling: nat) -> GasPrice {
        match self {
            GasPrice::Legacy { price } => GasPrice::Legacy {
                price: escalated(price as nat, ceiling) as u128,
            },
            GasPrice::FeeMarket { base_fee, priority_fee } => GasPrice::FeeMarket {
                base_fee: escalated(base_fee as nat, ceiling) as u128,
                priority_fee: escalated(priority_fee as nat, ceiling) as u128,
            },
        }
    }

    /// The most that is paid for a unit of gas: the price itself, or both
    /// fees together.
    pub open spec fn spec_total(self) -> nat {
        match self {
            GasPrice::Legacy { price } => price as nat,
            GasPrice::FeeMarket { base_fee, priority_fee } => (base_fee + priority_fee) as nat,
        }
    }

    /// The most that is paid for a unit of gas, held at the largest number
    /// that `u128` can store.
    pub fn total(&self) -> (r: u128)
        ensures
            r == capped(self.spec_total(), u128::MAX as nat),
    {
        match *self {
            GasPrice::Legacy { price } => price,
            GasPrice::FeeMarket { base_fee, priority_fee } => match base_fee.checked_add(
                priority_fee,
            ) {
                Some(sum) => sum,
                None => u128::MAX,
            },
        }
    }

    /// The price after `attempts` escalations.
    pub open spec fn raised_times(self, ceiling: nat, attempts: nat) -> GasPrice
        decreases attempts,
    {
        if attempts == 0 {
            self
        } else {
            self.raised_times(ceiling, (attempts - 1) as nat).raised(ceiling)
        }
    }
}

/// The first offer of kind `kind` from `quote` under `ceiling`.
pub open spec fn first_offer(kind: TransactionKind, quote: GasQuote, ceiling: u128) -> InitialPrice {
    match kind {
        TransactionKind::Legacy => InitialPrice {
            price: GasPrice::Legacy { price: capped(quote.gas_price as nat, ceiling as nat) as u128 },
            clamped: quote.gas_price > ceiling,
        },
        TransactionKind::FeeMarket => InitialPrice {
            price: GasPrice::FeeMarket {
                base_fee: capped(quote.base_fee as nat, ceiling as nat) as u128,
                priority_fee: capped(quote.priority_fee as nat, ceiling as nat) as u128,
            },
            clamped: quote.base_fee > ceiling || quote.priority_fee > ceiling,
        },
    }
}

impl NetworkSpec {
    /// How the network prices transactions.
    pub open spec fn kind(self) -> TransactionKind {
        match self.gas_policy {
            Some(policy) => policy.kind,
            None => self.default_kind,
        }
    }

    /// The highest price that may be offered; without a policy, any.
    pub open spec fn price_ceiling(self) -> u128 {
        match self.gas_policy {
            Some(policy) => policy.price_ceiling,
            None => u128::MAX,
        }
    }

    /// The most gas a transaction may use; without a policy, any amount.
    pub open spec fn gas_limit_ceiling(self) -> u64 {
        match self.gas_policy {
            Some(policy) => policy.gas_limit_ceiling,
            None => u64::MAX,
        }
    }

    /// The prices fixed by configuration, if any.
    pub open spec fn fixed_price(self) -> Option<GasQuote> {
        match self.gas_policy {
            Some(policy) => policy.fixed_price,
            None => None,
        }
    }
}

/// Escalation never lowers an offer that respects the ceiling, and never
/// passes the ceiling.
pub proof fn law_escalated_between(previous: nat, ceiling: nat)
    ensures
        escalated(previous, ceiling) <= ceiling,
        previous <= ceiling ==> previous <= escalated(previous, ceiling),
        0 < previous < ceiling ==> previous < escalated(previous, ceiling),
        previous >= ceiling ==> escalated(previous, ceiling) == ceiling,
{
}

/// Starting from an offer that respects the ceiling, the offers of
/// successive attempts never decrease and never exceed the ceiling.
pub proof fn law_escalation_monotone(initial: nat, ceiling: nat, earlier: nat, later: nat)
    requires
        initial <= ceiling,
        earlier <= later,
    ensures
        escalated_times(initial, ceiling, earlier) <= escalated_times(initial, ceiling, later),
        escalated_times(initial, ceiling, later) <= ceiling,
    decreases later,
{
    if later > 0 {
        if earlier < later {
            law_escalation_monotone(initial, ceiling, earlier, (later - 1) as nat);
        } else {
            law_escalation_monotone(initial, ceiling, (later - 1) as nat, (later - 1) as nat);
        }
    }
}

/// The same for whole prices: from a first offer within the ceiling, each
/// attempt's price is at least the one before it, component by component,
/// and within the ceiling.
pub proof fn law_price_escalation_monotone(
    initial: GasPrice,
    ceiling: u128,
    earlier: nat,
    later: nat,
)
    requires
        initial.within(ceiling as nat),
        earlier <= later,
    ensures
        initial.raised_times(ceiling as nat, earlier).at_most(
            initial.raised_times(ceiling as nat, later),
        ),
        initial.raised_times(ceiling as nat, later).within(ceiling as nat),
    decreases later,
{
    if later > 0 {
        if earlier < later {
            law_price_escalation_monotone(initial, ceiling, earlier, (later - 1) as nat);
        } else {
            law_price_escalation_monotone(
                initial,
                ceiling,
                (later - 1) as nat,
                (later - 1) as nat,
            );
        }
    }
}

/// The price a fifth above `previous`, rounded up, held at `ceiling`.
fn escalate_component(previous: u128, ceiling: u128) -> (r: u128)
    ensures
        r == escalated(previous as nat, ceiling as nat),
{
    let step: u128 = previous / 5 + if previous % 5 == 0 {
        0
    } else {
        1
    };
    match previous.checked_add(step) {
        Some(raised) => if raised > ceiling {
            ceiling
        } else {
            raised
        },
        None => ceiling,
    }
}

/// Prices the submissions on one network.
#[derive(Clone, Copy, Debug, PartialEq, Eq, Structural)]
pub struct GasPriceManager {
    pub kind: TransactionKind,
    pub price_ceiling: u128,
    pub gas_limit_ceiling: u64,
    pub fixed_price: Option<GasQuote>,
    /// How many escalations a tick may make.
    pub max_retries: u32,
}

impl GasPriceManager {
    /// The manager for `network`, allowing `max_retries` escalations a tick.
    pub open spec fn for_network(network: NetworkSpec, max_retries: u32) -> GasPriceManager {
        GasPriceManager {
            kind: network.kind(),
            price_ceiling: network.price_ceiling(),
            gas_limit_ceiling: network.gas_limit_ceiling(),
            fixed_price: network.fixed_price(),
            max_retries,
        }
    }

    /// The manager for `network`, allowing `max_retries` escalations a tick.
    /// Without a gas policy the network's default kind is used, and neither
    /// price nor gas limit has a ceiling.
    pub fn new(network: &NetworkSpec, max_retries: u32) -> (r: GasPriceManager)
        ensures
            r == GasPriceManager::for_network(*network, max_retries),
    {
        match network.gas_policy {
            Some(policy) => GasPriceManager {
                kind: policy.kind,
                price_ceiling: policy.price_ceiling,
                gas_limit_ceiling: policy.gas_limit_ceiling,
                fixed_price: policy.fixed_price,
                max_retries,
            },
            None => GasPriceManager {
                kind: network.default_kind,
                price_ceiling: u128::MAX,
                gas_limit_ceiling: u64::MAX,
                fixed_price: None,
                max_retries,
            },
        }
    }

    /// The prices that the first offer starts from: the fixed ones where the
    /// policy fixes them, else the live estimate.
    pub open spec fn quote(self, estimate: GasQuote) -> GasQuote {
        match self.fixed_price {
            Some(fixed) => fixed,
            None => estimate,
        }
    }

    /// The first offer for a submission, of the network's kind. Prices above
    /// the ceiling are cut down to it, and the result says so.
    pub fn initial_price(&self, estimate: GasQuote) -> (r: InitialPrice)
        ensures
            r == first_offer(self.kind, self.quote(estimate), self.price_ceiling),
            r.price.within(self.price_ceiling as nat),
    {
        let quote: GasQuote = match self.fixed_price {
            Some(fixed) => fixed,
            None => estimate,
        };
        let ceiling: u128 = self.price_ceiling;
        match self.kind {
            TransactionKind::Legacy => InitialPrice {
                price: GasPrice::Legacy {
                    price: if quote.gas_price > ceiling {
                        ceiling
                    } else {
                        quote.gas_price
                    },
                },
                clamped: quote.gas_price > ceiling,
            },
            TransactionKind::FeeMarket => InitialPrice {
                price: GasPrice::FeeMarket {
                    base_fee: if quote.base_fee > ceiling {
                        ceiling
                    } else {
                        quote.base_fee
                    },
                    priority_fee: if quote.priority_fee > ceiling {
                        ceiling
                    } else {
                        quote.priority_fee
                    },
                },
                clamped: quote.base_fee > ceiling || quote.priority_fee > ceiling,
            },
        }
    }

    /// The gas limit for a submission estimated to use `estimated` gas.
    pub fn gas_limit(&self, estimated: u64) -> (r: u64)
        ensures
            r == capped(estimated as nat, self.gas_limit_ceiling as nat),
    {
        if estimated > self.gas_limit_ceiling {
            self.gas_limit_ceiling
        } else {
            estimated
        }
    }

    /// The offer for attempt number `attempt`, after `previous` went
    /// unanswered: a fifth more, rounded up, but never above the ceiling.
    /// Beyond the retry limit there is no further offer.
    pub fn escalate(&self, previous: GasPrice, attempt: u32) -> (r: Result<GasPrice, GasError>)
        ensures
            attempt > self.max_retries ==> r == Err::<GasPrice, GasError>(GasError::GasExhausted),
            attempt <= self.max_retries ==> r == Ok::<GasPrice, GasError>(
                previous.raised(self.price_ceiling as nat),
            ),
            r matches Ok(price) ==> price.within(self.price_ceiling as nat),
            r matches Ok(price) ==> (previous.within(self.price_ceiling as nat)
                ==> previous.at_most(price)),
    {
        if attempt > self.max_retries {
            return Err(GasError::GasExhausted);
        }
        let ceiling: u128 = self.price_ceiling;
        Ok(
            match previous {
                GasPrice::Legacy { price } => GasPrice::Legacy {
                    price: escalate_component(price, ceiling),
                },
                GasPrice::FeeMarket { base_fee, priority_fee } => GasPrice::FeeMarket {
                    base_fee: escalate_component(base_fee, ceiling),
                    priority_fee: escalate_component(priority_fee, ceiling),
                },
            },
        )
    }
}

} // verus!
