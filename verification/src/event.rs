//! What a poll delivers, and what the session keeps of it.

use crate::address::{parsed_address, EvmAddress};
use crate::amount::Uint256;
use crate::transfer::{TransferError, TransferOrder};
use vstd::prelude::*;

verus! {

/// An accepted proposal as decoded from a log: its number, the destination in
/// text form, and the quantity to transfer.
#[derive(Clone, Debug, PartialEq, Eq)]
pub struct DecodedEvent {
    pub proposal_id: Uint256,
    pub target_address: String,
    pub amount: Uint256,
}

/// One log of a poll batch, after the attempt to decode it.
#[derive(Clone, Debug, PartialEq, Eq)]
pub enum PolledLog {
    /// The log had the shape of the event.
    Decoded(DecodedEvent),
    /// The log did not decode; the decoder's words are kept.
    Malformed(String),
}

/// One entry of the session's observable log.
#[derive(Clone, Debug, PartialEq, Eq)]
pub enum LogRecord {
    /// An event was decoded and its transfer ordered.
    TransferOrdered { event: DecodedEvent },
    /// An event was decoded, but its destination is no address.
    InvalidAddress { event: DecodedEvent },
    /// A log did not decode.
    DecodeFailure { reason: String },
    /// A transfer was confirmed by the chain.
    TransferConfirmed { description: String },
    /// A transfer attempt failed.
    TransferFailed { error: TransferError },
}

/// The transfer that a log asks for: none for a log that did not decode, and
/// none for an event whose destination is no address.
pub open spec fn order_of(log: PolledLog) -> Option<TransferOrder> {
    match log {
        PolledLog::Decoded(event) => match parsed_address(event.target_address@) {
            Some(to) => Some(TransferOrder { to, amount: event.amount }),
            None => None,
        },
        PolledLog::Malformed(_) => None,
    }
}

/// The record that the session keeps of a log.
pub open spec fn record_of(log: PolledLog) -> LogRecord {
    match log {
        PolledLog::Decoded(event) => if parsed_address(event.target_address@) is Some {
            LogRecord::TransferOrdered { event }
        } else {
            LogRecord::InvalidAddress { event }
        },
        PolledLog::Malformed(reason) => LogRecord::DecodeFailure { reason },
    }
}

/// The transfers that a batch asks for, in the order of its logs.
pub open spec fn orders_of(batch: Seq<PolledLog>) -> Seq<TransferOrder>
    decreases batch.len(),
{
    if batch.len() == 0 {
        Seq::empty()
    } else {
        match order_of(batch.last()) {
            Some(order) => orders_of(batch.drop_last()).push(order),
            None => orders_of(batch.drop_last()),
        }
    }
}

/// The records of a batch: one for each log, in their order.
pub open spec fn records_of(batch: Seq<PolledLog>) -> Seq<LogRecord> {
    Seq::new(batch.len(), |i: int| record_of(batch[i]))
}

impl PolledLog {
    /// Examines one log: the record to keep, and the transfer to order if the
    /// log asks for one.
    pub fn examine(&self) -> (found: (LogRecord, Option<TransferOrder>))
        ensures
            found.0 == record_of(*self),
            found.1 == order_of(*self),
    {
        match self {
            PolledLog::Decoded(event) => {
                let kept = DecodedEvent {
                    proposal_id: event.proposal_id,
                    target_address: event.target_address.clone(),
                    amount: event.amount,
                };
                match EvmAddress::parse(event.target_address.as_str()) {
                    Some(to) => (
                        LogRecord::TransferOrdered { event: kept },
                        Some(TransferOrder { to, amount: event.amount }),
                    ),
                    None => (LogRecord::InvalidAddress { event: kept }, None),
                }
            },
            PolledLog::Malformed(reason) => (
                LogRecord::DecodeFailure { reason: reason.clone() },
                None,
            ),
        }
    }
}

impl LogRecord {
    /// Whether the record tells of something that went wrong.
    pub open spec fn failed(self) -> bool {
        !(self is TransferOrdered || self is TransferConfirmed)
    }

    /// The record in words.
    pub open spec fn text(self) -> Seq<char> {
        match self {
            LogRecord::TransferOrdered { event } => "transfer ordered to "@
                + event.target_address@,
            LogRecord::InvalidAddress { event } => "invalid target address: "@
                + event.target_address@,
            LogRecord::DecodeFailure { reason } => "decode failure: "@ + reason@,
            LogRecord::TransferConfirmed { description } => "transfer confirmed: "@
                + description@,
            LogRecord::TransferFailed { error } => "transfer failed: "@ + error.text(),
        }
    }

    /// Whether the record tells of something that went wrong.
    pub fn is_failure(&self) -> (failed: bool)
        ensures
            failed == self.failed(),
    {
        match self {
            LogRecord::TransferOrdered { .. } => false,
            LogRecord::TransferConfirmed { .. } => false,
            _ => true,
        }
    }

    /// The record in words, as `text` gives them.
    pub fn describe(&self) -> (description: String)
        ensures
            description@ == self.text(),
    {
        match self {
            LogRecord::TransferOrdered { event } => {
                let mut words = "transfer ordered to ".to_string();
                words.append(event.target_address.as_str());
                words
            },
            LogRecord::InvalidAddress { event } => {
                let mut words = "invalid target address: ".to_string();
                words.append(event.target_address.as_str());
                words
            },
            LogRecord::DecodeFailure { reason } => {
                let mut words = "decode failure: ".to_string();
                words.append(reason.as_str());
                words
            },
            LogRecord::TransferConfirmed { description } => {
                let mut words = "transfer confirmed: ".to_string();
                words.append(description.as_str());
                words
            },
            LogRecord::TransferFailed { error } => {
                let mut words = "transfer failed: ".to_string();
                let message = error.message();
                words.append(message.as_str());
                words
            },
        }
    }
}

/// No batch asks for more transfers than it has logs.
pub proof fn lemma_orders_within_batch(batch: Seq<PolledLog>)
    ensures
        orders_of(batch).len() <= batch.len(),
    decreases batch.len(),
{
    if batch.len() > 0 {
        lemma_orders_within_batch(batch.drop_last());
    }
}

/// Every log of a batch that asks for a transfer has it ordered, whatever the
/// other logs of the batch are.
pub proof fn lemma_every_valid_event_is_ordered(batch: Seq<PolledLog>, i: int)
    requires
        0 <= i < batch.len(),
        order_of(batch[i]) is Some,
    ensures
        orders_of(batch).contains(order_of(batch[i])->Some_0),
    decreases batch.len(),
{
    let rest = orders_of(batch.drop_last());
    if i == batch.len() - 1 {
        let order = order_of(batch.last())->Some_0;
        assert(rest.push(order)[rest.len() as int] == order);
    } else {
        lemma_every_valid_event_is_ordered(batch.drop_last(), i);
        let wanted = order_of(batch[i])->Some_0;
        let k = choose|k: int| 0 <= k < rest.len() && rest[k] == wanted;
        match order_of(batch.last()) {
            Some(order) => {
                assert(rest.push(order)[k] == wanted);
            },
            None => {},
        }
    }
}

/// A batch of which no log asks for a transfer orders none.
pub proof fn lemma_no_order_without_valid_event(batch: Seq<PolledLog>)
    requires
        forall|i: int| 0 <= i < batch.len() ==> order_of(#[trigger] batch[i]) is None,
    ensures
        orders_of(batch).len() == 0,
    decreases batch.len(),
{
    if batch.len() > 0 {
        assert(order_of(batch[batch.len() - 1]) is None);
        lemma_no_order_without_valid_event(batch.drop_last());
    }
}

} // verus!
