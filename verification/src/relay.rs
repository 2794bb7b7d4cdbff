//! The relay as one service: the watch session and the transfer dispatcher
//! held together, so that what a poll orders reaches the dispatcher and what
//! becomes of each transfer reaches the session's records.

use crate::event::{orders_of, PolledLog};
use crate::session::{
    campaign_plan, transfer_record, watching_text, PollReport, SessionError, SessionState,
    SessionView, WatchPlan, POLL_LIMIT,
};
use crate::transfer::{
    Attempt, Dispatcher, DispatcherView, MinedTransaction, TransferError, TransferOrder, TxHash,
};
use ic_cdk_timers::TimerId;
use vstd::prelude::*;

verus! {

/// What a relay holds, as contracts speak of it.
pub struct RelayView {
    pub session: SessionView,
    pub dispatcher: DispatcherView,
}

/// The transfers that a poll hands to the dispatcher: those of the batch
/// while a campaign runs, none while none runs.
pub open spec fn orders_taken(session: SessionView, batch: Seq<PolledLog>) -> Seq<TransferOrder> {
    if session.is_polling() {
        orders_of(batch)
    } else {
        Seq::empty()
    }
}

impl RelayView {
    /// After a poll delivered `batch`: the session has taken it, and the
    /// transfers it orders wait in the dispatcher behind those that waited.
    pub open spec fn polled(self, batch: Seq<PolledLog>) -> RelayView {
        RelayView {
            session: self.session.polled(batch),
            dispatcher: self.dispatcher.enqueued_all(orders_taken(self.session, batch)),
        }
    }

    /// After the chain client answered a submission: an acceptance changes
    /// nothing, a refusal ends the attempt and is recorded.
    pub open spec fn after_submission(self, answer: Result<TxHash, String>) -> RelayView {
        match answer {
            Ok(_) => self,
            Err(description) => RelayView {
                session: self.session.recorded(
                    transfer_record(
                        Err::<String, TransferError>(TransferError::SubmissionFailed(description)),
                    ),
                ),
                dispatcher: self.dispatcher.after_submission(false),
            },
        }
    }

    /// After the lookup of an accepted transaction: the attempt is over and
    /// its outcome recorded, and the nonce of a mined transaction is
    /// remembered.
    pub open spec fn after_lookup(self, found: Option<MinedTransaction>) -> RelayView {
        match found {
            Some(transaction) => RelayView {
                session: self.session.recorded(
                    transfer_record(Ok::<String, TransferError>(transaction.description)),
                ),
                dispatcher: self.dispatcher.after_lookup(Some(transaction.nonce)),
            },
            None => RelayView {
                session: self.session.recorded(
                    transfer_record(Err::<String, TransferError>(TransferError::Unconfirmed)),
                ),
                dispatcher: self.dispatcher.after_lookup(None),
            },
        }
    }
}

/// The relay: one watch session and one transfer dispatcher.
pub struct Relay {
    session: SessionState,
    dispatcher: Dispatcher,
}

impl View for Relay {
    type V = RelayView;

    closed spec fn view(&self) -> RelayView {
        RelayView { session: self.session@, dispatcher: self.dispatcher@ }
    }
}

impl Relay {
    /// A relay that has never watched and never transferred.
    pub fn new() -> (relay: Relay)
        ensures
            !relay@.session.is_polling(),
            relay@.session.logs.len() == 0,
            relay@.session.poll_count == 0,
            relay@.dispatcher.last_used is None,
            relay@.dispatcher.waiting.len() == 0,
            !relay@.dispatcher.busy,
    {
        Relay { session: SessionState::default(), dispatcher: Dispatcher::new() }
    }

    /// The watch session, for its queries.
    pub fn session(&self) -> (session: &SessionState)
        ensures
            session@ == self@.session,
    {
        &self.session
    }

    /// The transfer dispatcher, for its queries.
    pub fn dispatcher(&self) -> (dispatcher: &Dispatcher)
        ensures
            dispatcher@ == self@.dispatcher,
    {
        &self.dispatcher
    }

    /// The plan of the campaign that a start would begin, as the session
    /// gives it.
    pub fn watch_plan(&self) -> (plan: Result<WatchPlan, SessionError>)
        ensures
            self@.session.is_polling() ==> plan == Err::<WatchPlan, SessionError>(
                SessionError::AlreadyWatching,
            ),
            !self@.session.is_polling() ==> plan == Ok::<WatchPlan, SessionError>(campaign_plan()),
    {
        self.session.watch_plan()
    }

    /// Starts a campaign under `timer`, as the session does. The dispatcher is
    /// left as it is: transfers of an earlier campaign go on.
    pub fn start(&mut self, timer: TimerId) -> (confirmation: Result<String, SessionError>)
        ensures
            final(self)@.session == old(self)@.session.started(timer),
            final(self)@.dispatcher == old(self)@.dispatcher,
            old(self)@.session.is_polling() ==> confirmation == Err::<String, SessionError>(
                SessionError::AlreadyWatching,
            ),
            !old(self)@.session.is_polling() ==> confirmation is Ok && confirmation->Ok_0@
                == watching_text(POLL_LIMIT as nat),
    {
        self.session.start(timer)
    }

    /// Stops the running campaign, as the session does. Transfers that wait or
    /// are under way are not cancelled.
    pub fn stop(&mut self) -> (confirmation: Result<String, SessionError>)
        ensures
            final(self)@.dispatcher == old(self)@.dispatcher,
            old(self)@.session.is_polling() ==> final(self)@.session
                == old(self)@.session.stopped() && confirmation is Ok && confirmation->Ok_0@
                == "Watching for logs stopped."@,
            !old(self)@.session.is_polling() ==> final(self)@.session == old(self)@.session
                && confirmation == Err::<String, SessionError>(SessionError::NotWatching),
    {
        self.session.stop()
    }

    /// Takes the batch that a poll delivered: the session records and counts
    /// it, and the transfers it orders are put behind those that wait. The
    /// poll does not wait for any transfer.
    pub fn on_poll(&mut self, batch: &Vec<PolledLog>) -> (report: PollReport)
        ensures
            final(self)@ == old(self)@.polled(batch@),
            report.accepted == old(self)@.session.is_polling(),
            report.orders@ == orders_taken(old(self)@.session, batch@),
            report.rejected == (if report.accepted {
                batch@.len() - orders_of(batch@).len()
            } else {
                0
            }),
            report.finished == (old(self)@.session.is_polling()
                && !final(self)@.session.is_polling()),
    {
        let report = self.session.on_poll(batch);
        self.dispatcher.enqueue_all(&report.orders);
        assert(report.orders@ =~= orders_taken(old(self)@.session, batch@));
        report
    }

    /// Begins the attempt for the oldest waiting transfer, as the dispatcher
    /// does: `None` while another attempt is under way or nothing waits.
    pub fn begin(&mut self) -> (attempt: Option<Attempt>)
        requires
            old(self)@.dispatcher.last_used != Some(u64::MAX),
        ensures
            final(self)@.session == old(self)@.session,
            final(self)@.dispatcher == old(self)@.dispatcher.begun(),
            attempt is Some == old(self)@.dispatcher.can_begin(),
            attempt matches Some(a) ==> a.order == old(self)@.dispatcher.waiting[0] && a.cached()
                == old(self)@.dispatcher.successor(),
    {
        self.dispatcher.begin()
    }

    /// Takes the chain client's answer to the submission. A refusal ends the
    /// attempt with `SubmissionFailed` and is recorded; an acceptance hands
    /// back the hash to look up.
    pub fn submitted(&mut self, answer: Result<TxHash, String>) -> (next: Result<
        TxHash,
        TransferError,
    >)
        ensures
            final(self)@ == old(self)@.after_submission(answer),
            match answer {
                Ok(hash) => next == Ok::<TxHash, TransferError>(hash),
                Err(description) => next == Err::<TxHash, TransferError>(
                    TransferError::SubmissionFailed(description),
                ),
            },
    {
        let next = self.dispatcher.submitted(answer);
        match &next {
            Ok(_) => {},
            Err(error) => {
                self.session.record_transfer(&Err(error.duplicate()));
            },
        }
        next
    }

    /// Takes the result of looking the accepted transaction up, ends the
    /// attempt and records its outcome: the description of a mined
    /// transaction, or `Unconfirmed` where none was found.
    pub fn confirmed(&mut self, found: Option<MinedTransaction>) -> (outcome: Result<
        String,
        TransferError,
    >)
        ensures
            final(self)@ == old(self)@.after_lookup(found),
            match found {
                Some(transaction) => outcome == Ok::<String, TransferError>(
                    transaction.description,
                ),
                None => outcome == Err::<String, TransferError>(TransferError::Unconfirmed),
            },
    {
        let outcome = self.dispatcher.confirmed(found);
        self.session.record_transfer(&outcome);
        outcome
    }
}

/// No attempt ends without a record: a refused submission and either result
/// of a lookup each add exactly one record to the session, and a failure is
/// recorded as a failure.
pub proof fn lemma_every_outcome_is_recorded(
    relay: RelayView,
    description: String,
    found: Option<MinedTransaction>,
)
    ensures
        relay.after_submission(Err(description)).session.logs.len() == relay.session.logs.len()
            + 1,
        relay.after_submission(Err(description)).session.logs.last().failed(),
        relay.after_lookup(found).session.logs.len() == relay.session.logs.len() + 1,
        relay.after_lookup(found).session.logs.last().failed() == (found is None),
{
}

/// Every event of a batch that a running campaign takes, and whose
/// destination is an address, waits in the dispatcher after the poll, behind
/// the transfers that waited before; and the poll is counted whether or not
/// any transfer has begun.
pub proof fn lemma_poll_feeds_dispatcher(relay: RelayView, batch: Seq<PolledLog>)
    requires
        relay.session.is_polling(),
    ensures
        relay.polled(batch).dispatcher.waiting == relay.dispatcher.waiting + orders_of(batch),
        relay.polled(batch).dispatcher.busy == relay.dispatcher.busy,
        relay.polled(batch).dispatcher.last_used == relay.dispatcher.last_used,
        relay.polled(batch).session.poll_count == relay.session.poll_count + 1,
{
}

} // verus!
