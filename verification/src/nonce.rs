//! Nonce coordination: one submission at a time for each signer on each
//! network.

use crate::text::same_text;
use vstd::prelude::*;
use vstd::string::*;

verus! {

/// How a submission ended, as far as the signer's nonce is concerned.
#[derive(Clone, Copy, Debug, PartialEq, Eq, Structural)]
pub enum TxOutcome {
    /// The transaction was included in a block, whether it succeeded or
    /// reverted.
    Included,
    /// The chain refused the transaction before inclusion, for example as
    /// underpriced.
    Rejected,
    /// The transaction was broadcast and then lost from sight.
    Dropped,
}

/// The state of one signer's slot on one network.
#[derive(Clone, Copy, Debug, PartialEq, Eq, Structural)]
pub struct SlotState {
    /// Whether a submission is in flight.
    pub held: bool,
    /// The next nonce to use, where it is known; where it is not, it has to
    /// be asked of the network.
    pub next_nonce: Option<u64>,
}

/// The answer to a request for a slot.
#[derive(Clone, Copy, Debug, PartialEq, Eq, Structural)]
pub enum Acquired {
    /// The slot is the caller's until released. `nonce` is the nonce to use,
    /// where it is known.
    Granted { nonce: Option<u64> },
    /// Another submission of this signer is in flight on this network.
    Busy,
}

/// What a submission reports when it is over: the nonce it used, and how it
/// ended.
#[derive(Clone, Copy, Debug, PartialEq, Eq, Structural)]
pub struct Submitted {
    pub nonce: u64,
    pub outcome: TxOutcome,
}

/// A slot that was never used: free, its nonce unknown.
pub open spec fn unused_slot() -> SlotState {
    SlotState { held: false, next_nonce: None }
}

/// The nonce to use after a submission with nonce `used` ended in
/// `outcome`. An included transaction has consumed its nonce, a rejected one
/// has not. After a dropped one nothing is certain, and the nonce has to be
/// asked of the network again.
pub open spec fn nonce_after(used: u64, outcome: TxOutcome) -> Option<u64> {
    match outcome {
        TxOutcome::Included => if used < u64::MAX {
            Some((used + 1) as u64)
        } else {
            None
        },
        TxOutcome::Rejected => Some(used),
        TxOutcome::Dropped => None,
    }
}

/// The slots after a request for the slot `key`, when they were `before`.
pub open spec fn after_acquire<K>(before: spec_fn(K) -> SlotState, key: K) -> spec_fn(
    K,
) -> SlotState {
    |k: K|
        if k == key && !before(key).held {
            SlotState { held: true, next_nonce: before(key).next_nonce }
        } else {
            before(k)
        }
}

/// The answer to a request for the slot `key`, when the slots were `before`.
pub open spec fn acquire_answer<K>(before: spec_fn(K) -> SlotState, key: K) -> Acquired {
    if before(key).held {
        Acquired::Busy
    } else {
        Acquired::Granted { nonce: before(key).next_nonce }
    }
}

/// The slots after the submission holding the slot `key` ended in `outcome`
/// with nonce `used`.
pub open spec fn after_release<K>(
    before: spec_fn(K) -> SlotState,
    key: K,
    used: u64,
    outcome: TxOutcome,
) -> spec_fn(K) -> SlotState {
    |k: K|
        if k == key && before(key).held {
            SlotState { held: false, next_nonce: nonce_after(used, outcome) }
        } else {
            before(k)
        }
}

/// The slots after the slot `key` was given back unused: it is free, and its
/// nonce is what it was.
pub open spec fn after_cancel<K>(before: spec_fn(K) -> SlotState, key: K) -> spec_fn(
    K,
) -> SlotState {
    |k: K|
        if k == key && before(key).held {
            SlotState { held: false, next_nonce: before(key).next_nonce }
        } else {
            before(k)
        }
}

/// While one request holds a slot, a second request for the same slot is
/// answered `Busy` and changes nothing.
pub proof fn law_slot_exclusive<K>(before: spec_fn(K) -> SlotState, key: K)
    requires
        acquire_answer(before, key) is Granted,
    ensures
        acquire_answer(after_acquire(before, key), key) == Acquired::Busy,
        after_acquire(after_acquire(before, key), key) == after_acquire(before, key),
{
    let once = after_acquire(before, key);
    let twice = after_acquire(once, key);
    assert(once(key).held);
    assert forall|k: K| #[trigger] twice(k) == once(k) by {}
    assert(twice =~= once);
}

/// A request for a slot is answered the same whether or not another slot
/// is held: no signer waits for another, and no network for another.
pub proof fn law_slots_independent<K>(before: spec_fn(K) -> SlotState, key: K, other: K)
    requires
        other != key,
    ensures
        acquire_answer(after_acquire(before, key), other) == acquire_answer(before, other),
        after_acquire(before, key)(other) == before(other),
{
}

/// Releasing a held slot frees it for the next request.
pub proof fn law_release_frees<K>(
    before: spec_fn(K) -> SlotState,
    key: K,
    used: u64,
    outcome: TxOutcome,
)
    requires
        before(key).held,
    ensures
        acquire_answer(after_release(before, key, used, outcome), key) == (Acquired::Granted {
            nonce: nonce_after(used, outcome),
        }),
{
}

/// Serialises the submissions of each signer on each network.
pub struct NonceCoordinator {
    networks: Vec<String>,
    signers: Vec<[u8; 20]>,
    states: Vec<SlotState>,
}

/// Whether `a` and `b` are the same address.
fn same_signer(a: &[u8; 20], b: &[u8; 20]) -> (r: bool)
    ensures
        r == (a@ == b@),
{
    let mut i: usize = 0;
    while i < 20
        invariant
            i <= 20,
            forall|j: int| 0 <= j < i ==> a@[j] == b@[j],
        decreases 20 - i,
    {
        if a[i] != b[i] {
            return false;
        }
        i += 1;
    }
    assert(a@ =~= b@);
    true
}

impl NonceCoordinator {
    /// The network and signer of the slot listed at `i`.
    spec fn key_at(self, i: int) -> (Seq<char>, Seq<u8>) {
        (self.networks[i]@, self.signers[i]@)
    }

    /// Whether the slot at `i` is that of `signer` on `network`.
    spec fn is_slot_of(self, i: int, network: Seq<char>, signer: Seq<u8>) -> bool {
        0 <= i < self.states.len() && self.key_at(i) == (network, signer)
    }

    /// Every slot is listed once.
    pub closed spec fn wf(self) -> bool {
        &&& self.networks.len() == self.states.len()
        &&& self.signers.len() == self.states.len()
        &&& forall|i: int, j: int|
            0 <= i < j < self.states.len() ==> self.key_at(i) != self.key_at(j)
    }

    /// The state of the slot of `signer` on `network`.
    pub closed spec fn slot(self, key: (Seq<char>, Seq<u8>)) -> SlotState {
        if exists|i: int| self.is_slot_of(i, key.0, key.1) {
            self.states[choose|i: int| self.is_slot_of(i, key.0, key.1)]
        } else {
            unused_slot()
        }
    }

    /// All slots, by network and signer.
    pub open spec fn slots(self) -> spec_fn((Seq<char>, Seq<u8>)) -> SlotState {
        |key: (Seq<char>, Seq<u8>)| self.slot(key)
    }

    /// A coordinator in which no slot is held.
    pub fn new() -> (r: NonceCoordinator)
        ensures
            r.wf(),
            forall|key: (Seq<char>, Seq<u8>)| #[trigger] r.slot(key) == unused_slot(),
    {
        NonceCoordinator { networks: Vec::new(), signers: Vec::new(), states: Vec::new() }
    }

    /// Where the slot of `signer` on `network` is listed.
    fn find(&self, network: &str, signer: &[u8; 20]) -> (r: Option<usize>)
        requires
            self.wf(),
        ensures
            match r {
                Some(i) => self.is_slot_of(i as int, network@, signer@),
                None => forall|i: int| !self.is_slot_of(i, network@, signer@),
            },
    {
        let n: usize = self.states.len();
        let mut i: usize = 0;
        while i < n
            invariant
                i <= n,
                n == self.states.len(),
                self.networks.len() == n,
                self.signers.len() == n,
                forall|j: int| 0 <= j < i ==> !self.is_slot_of(j, network@, signer@),
            decreases n - i,
        {
            if same_text(self.networks[i].as_str(), network) && same_signer(
                &self.signers[i],
                signer,
            ) {
                return Some(i);
            }
            i += 1;
        }
        None
    }

    /// The state of the slot of `signer` on `network`.
    pub fn state(&self, network: &str, signer: &[u8; 20]) -> (r: SlotState)
        requires
            self.wf(),
        ensures
            r == self.slot((network@, signer@)),
    {
        match self.find(network, signer) {
            Some(i) => self.states[i],
            None => SlotState { held: false, next_nonce: None },
        }
    }

    /// Asks for the slot of `signer` on `network`. A free slot is granted
    /// and held from then on; a held slot is not granted a second time.
    pub fn acquire(&mut self, network: &str, signer: &[u8; 20]) -> (r: Acquired)
        requires
            old(self).wf(),
        ensures
            final(self).wf(),
            r == acquire_answer(old(self).slots(), (network@, signer@)),
            final(self).slots() == after_acquire(old(self).slots(), (network@, signer@)),
    {
        let ghost key = (network@, signer@);
        let ghost before = *self;
        match self.find(network, signer) {
            Some(i) => {
                let state: SlotState = self.states[i];
                if state.held {
                    proof {
                        lemma_slot_changed(before, *self, key, i as int);
                        assert(self.slots() =~= after_acquire(before.slots(), key));
                    }
                    Acquired::Busy
                } else {
                    self.states.set(i, SlotState { held: true, next_nonce: state.next_nonce });
                    proof {
                        assert forall|j: int| 0 <= j < before.states.len() implies #[trigger]
                            self.key_at(j) == before.key_at(j) by {}
                        lemma_slot_changed(before, *self, key, i as int);
                        assert(self.slots() =~= after_acquire(before.slots(), key));
                    }
                    Acquired::Granted { nonce: state.next_nonce }
                }
            },
            None => {
                self.networks.push(String::from_str(network));
                self.signers.push(*signer);
                self.states.push(SlotState { held: true, next_nonce: None });
                proof {
                    let n = before.states.len() as int;
                    assert(self.key_at(n) == key);
                    assert forall|j: int| 0 <= j < n implies #[trigger] self.key_at(j)
                        == before.key_at(j) by {}
                    assert forall|i: int, j: int| 0 <= i < j < self.states.len() implies self.key_at(
                        i,
                    ) != self.key_at(j) by {
                        assert(self.key_at(i) == before.key_at(i));
                        if j < n {
                            assert(self.key_at(j) == before.key_at(j));
                        } else {
                            assert(!before.is_slot_of(i, key.0, key.1));
                        }
                    }
                    lemma_slot_changed(before, *self, key, n);
                    assert(self.slots() =~= after_acquire(before.slots(), key));
                }
                Acquired::Granted { nonce: None }
            },
        }
    }

    /// Gives back the slot of `signer` on `network` after a submission with
    /// nonce `used` ended in `outcome`, and tells whether the slot was held.
    /// Releasing a slot that is not held changes nothing.
    pub fn release(&mut self, network: &str, signer: &[u8; 20], used: u64, outcome: TxOutcome) -> (r:
        bool)
        requires
            old(self).wf(),
        ensures
            final(self).wf(),
            r == old(self).slot((network@, signer@)).held,
            final(self).slots() == after_release(
                old(self).slots(),
                (network@, signer@),
                used,
                outcome,
            ),
    {
        let ghost key = (network@, signer@);
        let ghost before = *self;
        match self.find(network, signer) {
            Some(i) => {
                let state: SlotState = self.states[i];
                if state.held {
                    let next: Option<u64> = match outcome {
                        TxOutcome::Included => used.checked_add(1),
                        TxOutcome::Rejected => Some(used),
                        TxOutcome::Dropped => None,
                    };
                    self.states.set(i, SlotState { held: false, next_nonce: next });
                    proof {
                        assert forall|j: int| 0 <= j < before.states.len() implies #[trigger]
                            self.key_at(j) == before.key_at(j) by {}
                        lemma_slot_changed(before, *self, key, i as int);
                        assert(self.slots() =~= after_release(before.slots(), key, used, outcome));
                    }
                    true
                } else {
                    proof {
                        lemma_slot_changed(before, *self, key, i as int);
                        assert(self.slots() =~= after_release(before.slots(), key, used, outcome));
                    }
                    false
                }
            },
            None => {
                proof {
                    assert(self.slots() =~= after_release(before.slots(), key, used, outcome));
                }
                false
            },
        }
    }

    /// Gives back the slot of `signer` on `network` without a submission
    /// having been made, and tells whether the slot was held. The nonce stays
    /// what it was.
    pub fn cancel(&mut self, network: &str, signer: &[u8; 20]) -> (r: bool)
        requires
            old(self).wf(),
        ensures
            final(self).wf(),
            r == old(self).slot((network@, signer@)).held,
            final(self).slots() == after_cancel(old(self).slots(), (network@, signer@)),
    {
        let ghost key = (network@, signer@);
        let ghost before = *self;
        match self.find(network, signer) {
            Some(i) => {
                let state: SlotState = self.states[i];
                if state.held {
                    self.states.set(i, SlotState { held: false, next_nonce: state.next_nonce });
                    proof {
                        assert forall|j: int| 0 <= j < before.states.len() implies #[trigger]
                            self.key_at(j) == before.key_at(j) by {}
                        lemma_slot_changed(before, *self, key, i as int);
                        assert(self.slots() =~= after_cancel(before.slots(), key));
                    }
                    true
                } else {
                    proof {
                        lemma_slot_changed(before, *self, key, i as int);
                        assert(self.slots() =~= after_cancel(before.slots(), key));
                    }
                    false
                }
            },
            None => {
                proof {
                    assert(self.slots() =~= after_cancel(before.slots(), key));
                }
                false
            },
        }
    }

    /// Runs `submit` while holding the slot of `signer` on `network`, and
    /// gives the slot back when `submit` is over. `submit` is handed the
    /// nonce to use, where it is known, and reports the nonce it used and how
    /// the submission ended. Where the slot is held already, `submit` is not
    /// run and nothing changes.
    pub fn with_next_nonce<F: FnOnce(Option<u64>) -> Submitted>(
        &mut self,
        signer: &[u8; 20],
        network: &str,
        submit: F,
    ) -> (r: Option<Submitted>)
        requires
            old(self).wf(),
            forall|nonce: Option<u64>| submit.requires((nonce,)),
        ensures
            final(self).wf(),
            r is None <==> old(self).slot((network@, signer@)).held,
            r is None ==> final(self).slots() == old(self).slots(),
            r matches Some(done) ==> submit.ensures(
                (old(self).slot((network@, signer@)).next_nonce,),
                done,
            ),
            r matches Some(done) ==> final(self).slots() == after_release(
                after_acquire(old(self).slots(), (network@, signer@)),
                (network@, signer@),
                done.nonce,
                done.outcome,
            ),
    {
        let ghost before = self.slots();
        match self.acquire(network, signer) {
            Acquired::Busy => {
                proof {
                    assert(after_acquire(before, (network@, signer@)) =~= before);
                }
                None
            },
            Acquired::Granted { nonce } => {
                let done: Submitted = submit(nonce);
                self.release(network, signer, done.nonce, done.outcome);
                Some(done)
            },
        }
    }
}

/// How the slots of `after` relate to those of `before` when at most the
/// slot of `key`, listed at `at`, was touched: set in place, or added at the
/// end of the list.
proof fn lemma_slot_changed(
    before: NonceCoordinator,
    after: NonceCoordinator,
    key: (Seq<char>, Seq<u8>),
    at: int,
)
    requires
        before.wf(),
        after.wf(),
        before.states.len() <= after.states.len() <= before.states.len() + 1,
        forall|i: int|
            0 <= i < before.states.len() ==> #[trigger] after.key_at(i) == before.key_at(i),
        forall|i: int|
            0 <= i < before.states.len() && i != at ==> #[trigger] after.states[i]
                == before.states[i],
        after.is_slot_of(at, key.0, key.1),
        at < before.states.len() || forall|i: int| !before.is_slot_of(i, key.0, key.1),
        at >= before.states.len() || after.states.len() == before.states.len(),
    ensures
        forall|k: (Seq<char>, Seq<u8>)| k != key ==> #[trigger] after.slot(k) == before.slot(k),
        after.slot(key) == after.states[at],
        before.slot(key) == if at < before.states.len() {
            before.states[at]
        } else {
            unused_slot()
        },
{
    assert forall|k: (Seq<char>, Seq<u8>)| k != key implies #[trigger] after.slot(k)
        == before.slot(k) by {
        if exists|i: int| before.is_slot_of(i, k.0, k.1) {
            let i = choose|i: int| before.is_slot_of(i, k.0, k.1);
            assert(after.key_at(i) == before.key_at(i));
            assert(after.is_slot_of(i, k.0, k.1));
            let j = choose|j: int| after.is_slot_of(j, k.0, k.1);
            assert(j == i);
        } else {
            if exists|j: int| after.is_slot_of(j, k.0, k.1) {
                let j = choose|j: int| after.is_slot_of(j, k.0, k.1);
                if j < before.states.len() {
                    assert(after.key_at(j) == before.key_at(j));
                    assert(before.is_slot_of(j, k.0, k.1));
                }
            }
        }
    }
    let j = choose|j: int| after.is_slot_of(j, key.0, key.1);
    assert(j == at);
    if at < before.states.len() {
        assert(after.key_at(at) == before.key_at(at));
        assert(before.is_slot_of(at, key.0, key.1));
        let i = choose|i: int| before.is_slot_of(i, key.0, key.1);
        assert(i == at);
    }
}

} // verus!
