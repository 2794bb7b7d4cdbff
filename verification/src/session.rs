//! The watch session: one bounded campaign of polls at a time, started and
//! stopped on demand, and ended by itself at the poll limit.
//!
//! The session is `Idle` while it holds no timer and `Watching` while it holds
//! one. The host registers the periodic poll and hands its timer to `start`;
//! each batch that the poll delivers goes to `on_poll`.

use crate::address::EvmAddress;
use crate::event::{orders_of, record_of, records_of, LogRecord, PolledLog};
use crate::transfer::{TransferError, TransferOrder};
use ic_cdk_timers::TimerId;
use vstd::prelude::*;

verus! {

/// The handle of a periodic timer of the host. Nothing is known of what it
/// holds; it is kept to be handed back for cancellation.
#[verifier::external_type_specification]
#[verifier::external_body]
pub struct ExTimerId(TimerId);

/// How many polls a campaign makes before it ends by itself.
pub const POLL_LIMIT: usize = 3;

/// The seconds between two polls.
pub const POLL_INTERVAL_SECS: u64 = 10;

/// The bytes of the address of the contract whose events are watched.
pub const WATCHED_CONTRACT: [u8; 20] = [
    0xA6, 0xE7, 0x82, 0xaf, 0x1b, 0x18, 0x23, 0x29, 0x28, 0x2C,
    0xC6, 0x7f, 0x1c, 0xe0, 0xf4, 0x68, 0x00, 0x30, 0xE1, 0x2F,
];

/// Why a session operation was refused.
#[derive(Clone, Copy, Debug, PartialEq, Eq)]
pub enum SessionError {
    /// A start was asked for while a campaign is running.
    AlreadyWatching,
    /// A stop was asked for while no campaign is running.
    NotWatching,
}

impl SessionError {
    /// The refusal in words.
    pub open spec fn text(self) -> Seq<char> {
        match self {
            SessionError::AlreadyWatching => "Already watching for logs."@,
            SessionError::NotWatching => "No timer to clear."@,
        }
    }

    /// The refusal in words, as `text` gives them.
    pub fn message(&self) -> (message: String)
        ensures
            message@ == self.text(),
    {
        match self {
            SessionError::AlreadyWatching => "Already watching for logs.".to_string(),
            SessionError::NotWatching => "No timer to clear.".to_string(),
        }
    }
}

/// What the host is to register for a campaign: a filter on the watched
/// contract's event from the latest block onward, polled every
/// `poll_interval_secs` seconds, `poll_limit` times at most.
#[derive(Clone, Copy, Debug, PartialEq, Eq)]
pub struct WatchPlan {
    pub contract: EvmAddress,
    pub poll_interval_secs: u64,
    pub poll_limit: usize,
}

/// The plan of every campaign: the watched contract, polled every ten seconds,
/// three times at most.
pub open spec fn campaign_plan() -> WatchPlan {
    WatchPlan {
        contract: EvmAddress { bytes: WATCHED_CONTRACT },
        poll_interval_secs: POLL_INTERVAL_SECS,
        poll_limit: POLL_LIMIT,
    }
}

/// The decimal digit for `d`, which is below ten.
pub open spec fn digit_char(d: nat) -> char {
    ((48 + d) as u8) as char
}

/// The decimal digits of `n`, without sign or padding.
pub open spec fn decimal_text(n: nat) -> Seq<char>
    decreases n,
{
    if n < 10 {
        seq![digit_char(n)]
    } else {
        decimal_text(n / 10).push(digit_char(n % 10))
    }
}

/// The confirmation of a start, for a campaign of `limit` polls.
pub open spec fn watching_text(limit: nat) -> Seq<char> {
    "Watching for logs, polling "@ + decimal_text(limit) + " times."@
}

/// Writes `n` with `format!` under `{}`, which gives the decimal digits of an
/// unsigned integer, without sign or padding.
#[verifier::external_body]
fn decimal_string(n: usize) -> (digits: String)
    ensures
        digits@ == decimal_text(n as nat),
{
    format!("{}", n)
}

/// Calls `ic_cdk_timers::clear_timer`, which cancels the timer and does
/// nothing where it was cancelled before. It returns nothing.
#[verifier::external_body]
fn clear_timer(timer: TimerId) {
    ic_cdk_timers::clear_timer(timer)
}

/// What a poll came to.
#[derive(Clone, Debug, PartialEq, Eq)]
pub struct PollReport {
    /// Whether a campaign was running, so that the batch was taken.
    pub accepted: bool,
    /// The transfers to dispatch, in the order of the logs that ask for them.
    pub orders: Vec<TransferOrder>,
    /// How many logs of the batch ask for no transfer: those that did not
    /// decode and those whose destination is no address.
    pub rejected: usize,
    /// Whether this poll ended the campaign.
    pub finished: bool,
}

/// What a session holds, as contracts speak of it.
pub struct SessionView {
    /// The timer of the running campaign; `None` while none runs.
    pub active_timer: Option<TimerId>,
    /// The records collected since the last start, oldest first.
    pub logs: Seq<LogRecord>,
    /// The polls delivered since the last start.
    pub poll_count: nat,
}

impl SessionView {
    /// Whether a campaign is running.
    pub open spec fn is_polling(self) -> bool {
        self.active_timer is Some
    }

    /// A running campaign has not reached the poll limit.
    pub open spec fn valid(self) -> bool {
        self.is_polling() ==> self.poll_count < POLL_LIMIT
    }

    /// After a start with `timer`: a fresh campaign where none was running,
    /// and no change where one was.
    pub open spec fn started(self, timer: TimerId) -> SessionView {
        if self.is_polling() {
            self
        } else {
            SessionView { active_timer: Some(timer), logs: Seq::empty(), poll_count: 0 }
        }
    }

    /// After a stop: no campaign, with the records and the count kept.
    pub open spec fn stopped(self) -> SessionView {
        SessionView { active_timer: None, ..self }
    }

    /// After a poll delivered `batch`. A running campaign keeps one record for
    /// each log, counts the poll, and ends where the count reaches the limit.
    /// Without a campaign the batch is ignored.
    pub open spec fn polled(self, batch: Seq<PolledLog>) -> SessionView {
        if self.is_polling() {
            SessionView {
                active_timer: if self.poll_count + 1 >= POLL_LIMIT {
                    None
                } else {
                    self.active_timer
                },
                logs: self.logs + records_of(batch),
                poll_count: self.poll_count + 1,
            }
        } else {
            self
        }
    }

    /// With `record` behind the records collected so far.
    pub open spec fn recorded(self, record: LogRecord) -> SessionView {
        SessionView { logs: self.logs.push(record), ..self }
    }
}

/// The record that the outcome of a transfer attempt leaves.
pub open spec fn transfer_record(outcome: Result<String, TransferError>) -> LogRecord {
    match outcome {
        Ok(description) => LogRecord::TransferConfirmed { description },
        Err(error) => LogRecord::TransferFailed { error },
    }
}

/// The timer and the count of a session. While a timer is held the count is
/// below the poll limit.
struct Campaign {
    active_timer: Option<TimerId>,
    poll_count: usize,
}

impl Campaign {
    #[verifier::type_invariant]
    spec fn running_below_limit(self) -> bool {
        self.active_timer is Some ==> self.poll_count < POLL_LIMIT
    }
}

/// The state of the watch session.
pub struct SessionState {
    campaign: Campaign,
    collected_logs: Vec<LogRecord>,
}

impl View for SessionState {
    type V = SessionView;

    closed spec fn view(&self) -> SessionView {
        SessionView {
            active_timer: self.campaign.active_timer,
            logs: self.collected_logs@,
            poll_count: self.campaign.poll_count as nat,
        }
    }
}

impl Default for SessionState {
    /// A session that has never watched: idle, with no record and no poll.
    fn default() -> (state: SessionState)
        ensures
            !state@.is_polling(),
            state@.logs.len() == 0,
            state@.poll_count == 0,
    {
        SessionState {
            campaign: Campaign { active_timer: None, poll_count: 0 },
            collected_logs: Vec::new(),
        }
    }
}

impl SessionState {
    /// Whether a campaign is running. A running campaign has not reached the
    /// poll limit.
    pub fn is_polling(&self) -> (polling: bool)
        ensures
            polling == self@.is_polling(),
            self@.valid(),
    {
        proof {
            use_type_invariant(&self.campaign);
        }
        self.campaign.active_timer.is_some()
    }

    /// The polls delivered since the last start. While a campaign runs they
    /// are fewer than the poll limit.
    pub fn poll_count(&self) -> (count: usize)
        ensures
            count == self@.poll_count,
            self@.valid(),
    {
        proof {
            use_type_invariant(&self.campaign);
        }
        self.campaign.poll_count
    }

    /// The records collected since the last start, oldest first.
    pub fn records(&self) -> (records: &Vec<LogRecord>)
        ensures
            records@ == self@.logs,
    {
        &self.collected_logs
    }

    /// The plan of the campaign that a start would begin; `AlreadyWatching`
    /// while a campaign is running. Nothing changes.
    pub fn watch_plan(&self) -> (plan: Result<WatchPlan, SessionError>)
        ensures
            self@.is_polling() ==> plan == Err::<WatchPlan, SessionError>(
                SessionError::AlreadyWatching,
            ),
            !self@.is_polling() ==> plan == Ok::<WatchPlan, SessionError>(campaign_plan()),
    {
        if self.campaign.active_timer.is_some() {
            Err(SessionError::AlreadyWatching)
        } else {
            Ok(
                WatchPlan {
                    contract: EvmAddress { bytes: WATCHED_CONTRACT },
                    poll_interval_secs: POLL_INTERVAL_SECS,
                    poll_limit: POLL_LIMIT,
                },
            )
        }
    }

    /// Starts a campaign whose periodic poll runs under `timer`. Fails with
    /// `AlreadyWatching`, and changes nothing, while a campaign is running.
    /// Otherwise the records are cleared, the count is zero, the timer is kept
    /// and the confirmation names the poll limit.
    pub fn start(&mut self, timer: TimerId) -> (confirmation: Result<String, SessionError>)
        ensures
            final(self)@ == old(self)@.started(timer),
            old(self)@.is_polling() ==> confirmation == Err::<String, SessionError>(
                SessionError::AlreadyWatching,
            ),
            !old(self)@.is_polling() ==> confirmation is Ok && confirmation->Ok_0@
                == watching_text(POLL_LIMIT as nat),
    {
        if self.campaign.active_timer.is_some() {
            return Err(SessionError::AlreadyWatching);
        }
        self.collected_logs.clear();
        self.campaign = Campaign { active_timer: Some(timer), poll_count: 0 };
        let mut confirmation = "Watching for logs, polling ".to_string();
        let limit = decimal_string(POLL_LIMIT);
        confirmation.append(limit.as_str());
        confirmation.append(" times.");
        Ok(confirmation)
    }

    /// Stops the running campaign: cancels its timer and forgets it. The
    /// records and the count stay for inspection. Fails with `NotWatching`,
    /// and changes nothing, while no campaign is running.
    pub fn stop(&mut self) -> (confirmation: Result<String, SessionError>)
        ensures
            old(self)@.is_polling() ==> final(self)@ == old(self)@.stopped() && confirmation is Ok
                && confirmation->Ok_0@ == "Watching for logs stopped."@,
            !old(self)@.is_polling() ==> final(self)@ == old(self)@ && confirmation == Err::<
                String,
                SessionError,
            >(SessionError::NotWatching),
    {
        match self.campaign.active_timer {
            Some(timer) => {
                clear_timer(timer);
                self.campaign = Campaign { active_timer: None, poll_count: self.campaign.poll_count };
                Ok("Watching for logs stopped.".to_string())
            },
            None => Err(SessionError::NotWatching),
        }
    }

    /// The records collected since the last start in words, oldest first.
    pub fn collected_logs(&self) -> (texts: Vec<String>)
        ensures
            texts@.len() == self@.logs.len(),
            forall|i: int| 0 <= i < texts@.len() ==> (#[trigger] texts@[i])@ == self@.logs[i].text(),
    {
        let mut texts: Vec<String> = Vec::new();
        let mut i: usize = 0;
        while i < self.collected_logs.len()
            invariant
                i <= self.collected_logs.len(),
                texts@.len() == i,
                forall|j: int|
                    0 <= j < i ==> (#[trigger] texts@[j])@ == self.collected_logs@[j].text(),
            decreases self.collected_logs.len() - i,
        {
            texts.push(self.collected_logs[i].describe());
            i += 1;
        }
        texts
    }

    /// Takes the batch that a poll delivered. While a campaign runs, every log
    /// leaves a record, a malformed one too; every event with a valid
    /// destination is ordered for transfer, in the order of the batch; the
    /// poll is counted; and the campaign ends where the count reaches the
    /// limit. While none runs the batch is ignored and nothing changes.
    pub fn on_poll(&mut self, batch: &Vec<PolledLog>) -> (report: PollReport)
        ensures
            final(self)@ == old(self)@.polled(batch@),
            report.accepted == old(self)@.is_polling(),
            report.accepted ==> report.orders@ == orders_of(batch@) && report.rejected
                == batch@.len() - orders_of(batch@).len(),
            !report.accepted ==> report.orders@.len() == 0 && report.rejected == 0,
            report.finished == (old(self)@.is_polling() && !final(self)@.is_polling()),
    {
        if self.campaign.active_timer.is_none() {
            return PollReport { accepted: false, orders: Vec::new(), rejected: 0, finished: false };
        }
        proof {
            use_type_invariant(&self.campaign);
        }
        let ghost before = self.collected_logs@;
        let mut orders: Vec<TransferOrder> = Vec::new();
        let mut rejected: usize = 0;
        let mut i: usize = 0;
        while i < batch.len()
            invariant
                i <= batch.len(),
                self.campaign == old(self).campaign,
                self.collected_logs@ == before + records_of(batch@.take(i as int)),
                orders@ == orders_of(batch@.take(i as int)),
                rejected + orders@.len() == i,
            decreases batch.len() - i,
        {
            let (record, order) = batch[i].examine();
            self.collected_logs.push(record);
            match order {
                Some(order) => {
                    orders.push(order);
                },
                None => {
                    rejected += 1;
                },
            }
            proof {
                let longer = batch@.take(i + 1);
                assert(longer.drop_last() == batch@.take(i as int));
                assert(longer.last() == batch@[i as int]);
                assert(records_of(longer) == records_of(batch@.take(i as int)).push(
                    record_of(batch@[i as int]),
                ));
            }
            i += 1;
        }
        assert(batch@.take(batch.len() as int) == batch@);
        let next: usize = self.campaign.poll_count + 1;
        let finished = next >= POLL_LIMIT;
        let timer = if finished {
            None
        } else {
            self.campaign.active_timer
        };
        self.campaign = Campaign { active_timer: timer, poll_count: next };
        PollReport { accepted: true, orders, rejected, finished }
    }

    /// Keeps the outcome of a transfer attempt among the records: its
    /// description where it was confirmed, its error where it failed.
    pub fn record_transfer(&mut self, outcome: &Result<String, TransferError>)
        ensures
            final(self)@ == old(self)@.recorded(transfer_record(*outcome)),
    {
        let record = match outcome {
            Ok(description) => LogRecord::TransferConfirmed { description: description.clone() },
            Err(error) => LogRecord::TransferFailed { error: error.duplicate() },
        };
        self.collected_logs.push(record);
    }
}

/// With the poll limit of three the confirmation of a start reads
/// "Watching for logs, polling 3 times."
pub proof fn lemma_confirmation_names_limit()
    ensures
        watching_text(POLL_LIMIT as nat) == "Watching for logs, polling 3 times."@,
{
    reveal_strlit("Watching for logs, polling ");
    reveal_strlit(" times.");
    reveal_strlit("Watching for logs, polling 3 times.");
    assert(decimal_text(3) == seq!['3']);
    assert(watching_text(3) =~= "Watching for logs, polling 3 times."@);
}

/// A start begins a campaign exactly where none is running: from an idle
/// session it leads to a running one, and a running session it leaves as it
/// is.
pub proof fn lemma_start_needs_idle(session: SessionView, timer: TimerId)
    ensures
        !session.is_polling() ==> session.started(timer).is_polling(),
        session.is_polling() ==> session.started(timer) == session,
{
}

/// A stop leaves no campaign running, and keeps the records and the count.
pub proof fn lemma_stop_ends_campaign(session: SessionView)
    ensures
        !session.stopped().is_polling(),
        session.stopped().logs == session.logs,
        session.stopped().poll_count == session.poll_count,
{
}

/// A second start without a stop or the campaign's end in between changes
/// neither the records nor the count, whatever was polled since the first.
pub proof fn lemma_second_start_changes_nothing(
    session: SessionView,
    first: TimerId,
    batch: Seq<PolledLog>,
    second: TimerId,
)
    requires
        !session.is_polling(),
        session.started(first).polled(batch).is_polling(),
    ensures
        session.started(first).started(second) == session.started(first),
        session.started(first).polled(batch).started(second) == session.started(first).polled(
            batch,
        ),
{
}

/// Each poll that a running campaign takes counts as exactly one, and the
/// campaign goes on exactly while the count stays below the limit.
pub proof fn lemma_poll_counts_one(session: SessionView, batch: Seq<PolledLog>)
    requires
        session.is_polling(),
    ensures
        session.polled(batch).poll_count == session.poll_count + 1,
        session.polled(batch).is_polling() == (session.poll_count + 1 < POLL_LIMIT),
{
}

/// A campaign starts at zero polls, runs through one and two, and ends by
/// itself with the third, at exactly the poll limit.
pub proof fn lemma_campaign_ends_at_limit(
    session: SessionView,
    timer: TimerId,
    first: Seq<PolledLog>,
    second: Seq<PolledLog>,
    third: Seq<PolledLog>,
)
    requires
        !session.is_polling(),
    ensures
        ({
            let started = session.started(timer);
            let once = started.polled(first);
            let twice = once.polled(second);
            let thrice = twice.polled(third);
            &&& started.is_polling() && started.poll_count == 0
            &&& once.is_polling() && once.poll_count == 1
            &&& twice.is_polling() && twice.poll_count == 2
            &&& !thrice.is_polling() && thrice.poll_count == POLL_LIMIT
        }),
{
}

/// Starting, stopping, polling and recording lead from valid sessions to
/// valid sessions.
pub proof fn lemma_session_stays_valid(
    session: SessionView,
    timer: TimerId,
    batch: Seq<PolledLog>,
    record: LogRecord,
)
    requires
        session.valid(),
    ensures
        session.started(timer).valid(),
        session.stopped().valid(),
        session.polled(batch).valid(),
        session.recorded(record).valid(),
{
}

/// A log that does not decode does not stop the poll: it leaves a record of
/// the failure at its own place among the records of the batch, every other
/// log of the batch leaves its record too, and the poll is counted.
pub proof fn lemma_malformed_log_is_recorded(session: SessionView, batch: Seq<PolledLog>, i: int)
    requires
        session.is_polling(),
        0 <= i < batch.len(),
        batch[i] is Malformed,
    ensures
        session.polled(batch).logs.len() == session.logs.len() + batch.len(),
        session.polled(batch).logs[session.logs.len() + i] == (LogRecord::DecodeFailure {
            reason: batch[i]->Malformed_0,
        }),
        session.polled(batch).logs[session.logs.len() + i].failed(),
        forall|j: int|
            0 <= j < batch.len() ==> #[trigger] session.polled(batch).logs[session.logs.len() + j]
                == record_of(batch[j]),
        session.polled(batch).poll_count == session.poll_count + 1,
{
}

} // verus!
