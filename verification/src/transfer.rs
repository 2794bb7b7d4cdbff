//! The transfer dispatcher: one token transfer on the second chain for each
//! order, one attempt at a time, each with the nonce that follows the last
//! confirmed one.
//!
//! The dispatcher decides; the host signs, submits and looks up. An attempt
//! runs through `begin`, `Attempt::request`, `submitted` and `confirmed`, with
//! the host's remote calls in between.

use crate::address::EvmAddress;
use crate::amount::Uint256;
use crate::nonce::NonceCache;
use vstd::prelude::*;

verus! {

/// The identifier of the chain that the transfers go to.
pub const OPTIMISM_CHAIN_ID: u64 = 11155420;

/// The bytes of the token contract's address on that chain.
pub const TOKEN_CONTRACT: [u8; 20] = [
    0x63, 0xA0, 0xbf, 0xd6, 0xa5, 0xcd, 0xCF, 0x44, 0x6a, 0xe1,
    0x21, 0x35, 0xE2, 0xCD, 0x86, 0xb9, 0x08, 0x65, 0x95, 0x68,
];

/// What a decoded event asks for: `amount` tokens to `to`.
#[derive(Clone, Copy, Debug, PartialEq, Eq)]
pub struct TransferOrder {
    pub to: EvmAddress,
    pub amount: Uint256,
}

/// The transaction that the host is to sign and submit.
#[derive(Clone, Copy, Debug, PartialEq, Eq)]
pub struct TransferRequest {
    pub token: EvmAddress,
    pub to: EvmAddress,
    pub amount: Uint256,
    pub nonce: u64,
    pub chain_id: u64,
    pub from: EvmAddress,
}

/// The hash under which the chain accepted a transaction.
#[derive(Clone, Copy, Debug, PartialEq, Eq)]
pub struct TxHash {
    pub bytes: [u8; 32],
}

/// A transaction as the chain holds it once mined: the nonce it was recorded
/// with, and a description for the operator.
#[derive(Clone, Debug, PartialEq, Eq)]
pub struct MinedTransaction {
    pub nonce: u64,
    pub description: String,
}

/// Why a transfer attempt failed.
#[derive(Clone, Debug, PartialEq, Eq)]
pub enum TransferError {
    /// The chain client refused the submission; its own words are kept.
    SubmissionFailed(String),
    /// The accepted transaction could not be found as a mined one.
    Unconfirmed,
}

impl TransferError {
    /// The failure in words: the client's own for a refused submission.
    pub open spec fn text(self) -> Seq<char> {
        match self {
            TransferError::SubmissionFailed(description) => description@,
            TransferError::Unconfirmed => "Could not get transaction."@,
        }
    }

    /// A second value of the same error.
    pub fn duplicate(&self) -> (copy: TransferError)
        ensures
            copy == *self,
    {
        match self {
            TransferError::SubmissionFailed(description) => TransferError::SubmissionFailed(
                description.clone(),
            ),
            TransferError::Unconfirmed => TransferError::Unconfirmed,
        }
    }

    /// The failure in words, as `text` gives them.
    pub fn message(&self) -> (message: String)
        ensures
            message@ == self.text(),
    {
        match self {
            TransferError::SubmissionFailed(description) => description.clone(),
            TransferError::Unconfirmed => "Could not get transaction.".to_string(),
        }
    }
}

/// The nonce of a transfer: the cached successor where there is one, else the
/// account's transaction count as the chain reported it, else zero.
pub open spec fn chosen_nonce(cached: Option<int>, queried: Option<u64>) -> int {
    match cached {
        Some(nonce) => nonce,
        None => match queried {
            Some(count) => count as int,
            None => 0,
        },
    }
}

/// One transfer under way: the order, and the nonce that the cache prescribed
/// when the attempt began.
#[derive(Clone, Copy, Debug, PartialEq, Eq)]
pub struct Attempt {
    pub order: TransferOrder,
    pub cached_nonce: Option<u64>,
}

impl Attempt {
    /// The prescribed nonce as a number.
    pub open spec fn cached(self) -> Option<int> {
        match self.cached_nonce {
            Some(nonce) => Some(nonce as int),
            None => None,
        }
    }

    /// Whether the host has to ask the chain for the account's transaction
    /// count before the request can be made.
    pub fn needs_transaction_count(&self) -> (needed: bool)
        ensures
            needed == self.cached_nonce is None,
    {
        self.cached_nonce.is_none()
    }

    /// The transaction to submit for this attempt, sent by `sender`.
    /// `queried` is the account's transaction count, `None` where the query
    /// failed or was not needed.
    pub fn request(&self, sender: EvmAddress, queried: Option<u64>) -> (request: TransferRequest)
        ensures
            request.nonce == chosen_nonce(self.cached(), queried),
            request.token.bytes == TOKEN_CONTRACT,
            request.chain_id == OPTIMISM_CHAIN_ID,
            request.to == self.order.to,
            request.amount == self.order.amount,
            request.from == sender,
    {
        let nonce: u64 = match self.cached_nonce {
            Some(nonce) => nonce,
            None => match queried {
                Some(count) => count,
                None => 0,
            },
        };
        TransferRequest {
            token: EvmAddress { bytes: TOKEN_CONTRACT },
            to: self.order.to,
            amount: self.order.amount,
            nonce,
            chain_id: OPTIMISM_CHAIN_ID,
            from: sender,
        }
    }
}

/// What a dispatcher holds, as contracts speak of it.
pub struct DispatcherView {
    /// The nonce of the last confirmed transaction, as the cache holds it.
    pub last_used: Option<u64>,
    /// The orders that wait, oldest first.
    pub waiting: Seq<TransferOrder>,
    /// Whether an attempt is under way.
    pub busy: bool,
}

impl DispatcherView {
    /// The nonce that the cache prescribes for the next attempt.
    pub open spec fn successor(self) -> Option<int> {
        match self.last_used {
            Some(nonce) => Some(nonce + 1),
            None => None,
        }
    }

    /// With `order` behind those that wait.
    pub open spec fn enqueued(self, order: TransferOrder) -> DispatcherView {
        DispatcherView { waiting: self.waiting.push(order), ..self }
    }

    /// With all of `orders` behind those that wait, in their order.
    pub open spec fn enqueued_all(self, orders: Seq<TransferOrder>) -> DispatcherView {
        DispatcherView { waiting: self.waiting + orders, ..self }
    }

    /// An attempt begins only while none is under way and an order waits.
    pub open spec fn can_begin(self) -> bool {
        !self.busy && self.waiting.len() > 0
    }

    /// After `begin`: the oldest order has left the queue and is under way.
    pub open spec fn begun(self) -> DispatcherView {
        if self.can_begin() {
            DispatcherView { waiting: self.waiting.remove(0), busy: true, ..self }
        } else {
            self
        }
    }

    /// After the chain client answered a submission: a refusal ends the
    /// attempt, an acceptance leaves it under way.
    pub open spec fn after_submission(self, accepted: bool) -> DispatcherView {
        if accepted {
            self
        } else {
            DispatcherView { busy: false, ..self }
        }
    }

    /// After the lookup of an accepted transaction: the attempt is over, and
    /// the nonce of a transaction that was found is remembered.
    pub open spec fn after_lookup(self, found: Option<u64>) -> DispatcherView {
        match found {
            Some(nonce) => DispatcherView { last_used: Some(nonce), busy: false, ..self },
            None => DispatcherView { busy: false, ..self },
        }
    }
}

/// Dispatches the transfers of one sending account. Orders wait in a queue and
/// are attempted one at a time, so that no attempt reads the nonce cache while
/// another has yet to write it.
pub struct Dispatcher {
    nonce: NonceCache,
    waiting: Vec<TransferOrder>,
    busy: bool,
}

impl View for Dispatcher {
    type V = DispatcherView;

    closed spec fn view(&self) -> DispatcherView {
        DispatcherView { last_used: self.nonce.last_used, waiting: self.waiting@, busy: self.busy }
    }
}

impl Dispatcher {
    /// A dispatcher with an empty cache, no order and no attempt.
    pub fn new() -> (dispatcher: Dispatcher)
        ensures
            dispatcher@.last_used is None,
            dispatcher@.waiting.len() == 0,
            !dispatcher@.busy,
    {
        Dispatcher { nonce: NonceCache::new(), waiting: Vec::new(), busy: false }
    }

    /// The nonce of the last confirmed transaction, if any was confirmed.
    pub fn last_used_nonce(&self) -> (nonce: Option<u64>)
        ensures
            nonce == self@.last_used,
    {
        self.nonce.last_used
    }

    /// Whether an attempt is under way.
    pub fn is_busy(&self) -> (busy: bool)
        ensures
            busy == self@.busy,
    {
        self.busy
    }

    /// How many orders wait.
    pub fn waiting(&self) -> (count: usize)
        ensures
            count == self@.waiting.len(),
    {
        self.waiting.len()
    }

    /// Puts `order` behind those that wait. Nothing is attempted yet.
    pub fn enqueue(&mut self, order: TransferOrder)
        ensures
            final(self)@ == old(self)@.enqueued(order),
    {
        self.waiting.push(order);
    }

    /// Puts all of `orders` behind those that wait, in their order.
    pub fn enqueue_all(&mut self, orders: &Vec<TransferOrder>)
        ensures
            final(self)@ == old(self)@.enqueued_all(orders@),
    {
        let mut i: usize = 0;
        while i < orders.len()
            invariant
                i <= orders.len(),
                self.nonce == old(self).nonce,
                self.busy == old(self).busy,
                self.waiting@ == old(self).waiting@ + orders@.take(i as int),
            decreases orders.len() - i,
        {
            self.waiting.push(orders[i]);
            assert(orders@.take(i + 1) == orders@.take(i as int).push(orders@[i as int]));
            i += 1;
        }
        assert(orders@.take(orders.len() as int) == orders@);
    }

    /// Begins the attempt for the oldest waiting order, and reads the nonce
    /// cache for it. Returns `None`, and changes nothing, while another attempt
    /// is under way or no order waits.
    pub fn begin(&mut self) -> (attempt: Option<Attempt>)
        requires
            old(self)@.last_used != Some(u64::MAX),
        ensures
            final(self)@ == old(self)@.begun(),
            attempt is Some == old(self)@.can_begin(),
            attempt matches Some(a) ==> a.order == old(self)@.waiting[0] && a.cached()
                == old(self)@.successor(),
    {
        if self.busy || self.waiting.len() == 0 {
            return None;
        }
        let order = self.waiting.remove(0);
        let cached_nonce = self.nonce.next();
        self.busy = true;
        Some(Attempt { order, cached_nonce })
    }

    /// Takes the chain client's answer to the submission. A refusal ends the
    /// attempt with `SubmissionFailed` and the client's words; an acceptance
    /// hands back the hash to look up, and the attempt stays under way.
    pub fn submitted(&mut self, answer: Result<TxHash, String>) -> (next: Result<
        TxHash,
        TransferError,
    >)
        ensures
            final(self)@ == old(self)@.after_submission(answer is Ok),
            match answer {
                Ok(hash) => next == Ok::<TxHash, TransferError>(hash),
                Err(description) => next == Err::<TxHash, TransferError>(
                    TransferError::SubmissionFailed(description),
                ),
            },
    {
        match answer {
            Ok(hash) => Ok(hash),
            Err(description) => {
                self.busy = false;
                Err(TransferError::SubmissionFailed(description))
            },
        }
    }

    /// Takes the result of looking the accepted transaction up, and ends the
    /// attempt. A mined transaction has its nonce remembered and its
    /// description returned; where none was found the attempt is
    /// `Unconfirmed` and the cache keeps what it held.
    pub fn confirmed(&mut self, found: Option<MinedTransaction>) -> (outcome: Result<
        String,
        TransferError,
    >)
        ensures
            final(self)@ == old(self)@.after_lookup(
                match found {
                    Some(transaction) => Some(transaction.nonce),
                    None => None,
                },
            ),
            match found {
                Some(transaction) => outcome == Ok::<String, TransferError>(
                    transaction.description,
                ),
                None => outcome == Err::<String, TransferError>(TransferError::Unconfirmed),
            },
    {
        self.busy = false;
        match found {
            Some(transaction) => {
                self.nonce.record(transaction.nonce);
                Ok(transaction.description)
            },
            None => Err(TransferError::Unconfirmed),
        }
    }
}

/// Of two transfers dispatched one after the other, the second uses the
/// nonce that follows the one the chain confirmed for the first, whatever the
/// chain would report as the account's transaction count, and whatever was
/// enqueued in between.
pub proof fn lemma_sequential_nonces_increase(
    dispatcher: DispatcherView,
    confirmed: u64,
    order: TransferOrder,
    queried: Option<u64>,
)
    ensures
        ({
            let settled = dispatcher.after_lookup(Some(confirmed));
            let next = settled.enqueued(order);
            &&& next.can_begin()
            &&& next.begun().last_used == Some(confirmed)
            &&& chosen_nonce(next.successor(), queried) == confirmed + 1
            &&& chosen_nonce(next.successor(), queried) > confirmed
        }),
{
}

/// A failed attempt leaves the cache as it was: the next attempt uses the
/// nonce that the failed one was given, or asks the chain as that one did.
pub proof fn lemma_failure_keeps_nonce(dispatcher: DispatcherView)
    ensures
        dispatcher.after_submission(false).successor() == dispatcher.successor(),
        dispatcher.after_lookup(None).successor() == dispatcher.successor(),
{
}

/// While an attempt is under way no other begins, so none reads the cache
/// before the first has written it; and the end of the attempt, by refusal or
/// by lookup, lets the next one begin.
pub proof fn lemma_one_attempt_at_a_time(dispatcher: DispatcherView, found: Option<u64>)
    requires
        dispatcher.can_begin(),
    ensures
        dispatcher.begun().busy,
        !dispatcher.begun().can_begin(),
        dispatcher.begun().begun() == dispatcher.begun(),
        !dispatcher.begun().after_submission(false).busy,
        !dispatcher.begun().after_lookup(found).busy,
{
}

/// Orders are attempted in the order in which they were enqueued: the first
/// attempt takes the oldest order and leaves the others in their order.
pub proof fn lemma_orders_leave_oldest_first(dispatcher: DispatcherView, orders: Seq<TransferOrder>)
    requires
        !dispatcher.busy,
        dispatcher.waiting.len() == 0,
        orders.len() > 0,
    ensures
        dispatcher.enqueued_all(orders).can_begin(),
        dispatcher.enqueued_all(orders).waiting[0] == orders[0],
        dispatcher.enqueued_all(orders).begun().waiting == orders.skip(1),
{
    assert(dispatcher.enqueued_all(orders).waiting == orders);
    assert(orders.remove(0) == orders.skip(1));
}

} // verus!
