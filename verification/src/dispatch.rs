//! One daily dispatch cycle as an explicit state machine.
//!
//! A cycle runs fetch-fact, fetch-subscribers, then one send per
//! subscriber.  The two fetches are all-or-nothing: without a fact or a
//! recipient list there is nothing meaningful to send, so either failure
//! (or an empty fact table) aborts the cycle with
//! [`DispatchError::DataFetchError`] before any mail goes out.  The send
//! phase is best-effort per item: a failed send is counted and the batch
//! moves on to the next recipient, never aborting.  An empty subscriber
//! list completes the cycle successfully with zero attempts.
//!
//! The machine makes every decision; the surrounding process only
//! executes the [`CycleAction`] it is handed — run a store query, send
//! one message — and reports the outcome back through the `on_*`
//! methods.  Each method's contract is exact, so the whole cycle refines
//! the spec-level fold [`run_sends`], over which the batch laws at the
//! end of this module are proved.

use vstd::prelude::*;

verus! {

use crate::message::body_of;

/// Why a cycle aborted.
#[derive(PartialEq, Eq, Structural, Clone, Copy, Debug)]
pub enum DispatchError {
    /// The fact query or the subscriber query failed, or the fact table
    /// was empty.  No mail is sent in this cycle.
    DataFetchError,
}

/// What a finished cycle reports: how many sends were attempted, and
/// how they split into successes and failures.
#[derive(PartialEq, Eq, Structural, Clone, Copy, Debug)]
pub struct CycleReport {
    pub attempted: usize,
    pub succeeded: usize,
    pub failed: usize,
}

/// The phases of one dispatch cycle.
pub enum DispatchCycle {
    /// Waiting for the random-fact query.
    FetchingFact,
    /// Waiting for the subscriber-list query.
    FetchingSubscribers { fact: String },
    /// Sending to `recipients[next]`; `succeeded + failed == next` sends
    /// are already behind us.
    Sending { fact: String, recipients: Vec<String>, next: usize, succeeded: usize, failed: usize },
    /// All sends done (or there was nobody to send to).
    Complete { report: CycleReport },
    /// Aborted before any send.
    Failed { error: DispatchError },
}

/// The one thing the surrounding process should do next.
pub enum CycleAction {
    /// Run the random-fact query against the store.
    FetchFact,
    /// Run the subscriber-list query against the store.
    FetchSubscribers,
    /// Send one message and report whether the transport accepted it.
    Send { recipient: String, body: String },
    /// The cycle succeeded; log the report.
    Finish { report: CycleReport },
    /// The cycle aborted; log the error.  Never terminate the scheduler.
    Abort { error: DispatchError },
}

/// The state after the fact query returns: `None` — a query failure or
/// an empty fact table — aborts the cycle; a fact moves it on.
pub open spec fn after_fact(fact: Option<String>) -> DispatchCycle {
    match fact {
        Option::Some(f) => DispatchCycle::FetchingSubscribers { fact: f },
        Option::None => DispatchCycle::Failed { error: DispatchError::DataFetchError },
    }
}

/// The state after the subscriber query returns: a failure aborts; an
/// empty list completes at once with zero attempts; otherwise the send
/// phase starts at the first recipient.
pub open spec fn after_subscribers(c: DispatchCycle, subscribers: Option<Vec<String>>) -> DispatchCycle {
    match c {
        DispatchCycle::FetchingSubscribers { fact } => match subscribers {
            Option::None => DispatchCycle::Failed { error: DispatchError::DataFetchError },
            Option::Some(rs) => if rs@.len() == 0 {
                DispatchCycle::Complete {
                    report: CycleReport { attempted: 0, succeeded: 0, failed: 0 },
                }
            } else {
                DispatchCycle::Sending { fact, recipients: rs, next: 0, succeeded: 0, failed: 0 }
            },
        },
        _ => c,
    }
}

/// The state after one send outcome: the counters advance, and the last
/// outcome completes the cycle with the final report.
pub open spec fn after_send(c: DispatchCycle, ok: bool) -> DispatchCycle {
    match c {
        DispatchCycle::Sending { fact, recipients, next, succeeded, failed } => {
            let n2 = (next + 1) as usize;
            let s2 = if ok { (succeeded + 1) as usize } else { succeeded };
            let f2 = if ok { failed } else { (failed + 1) as usize };
            if n2 == recipients@.len() {
                DispatchCycle::Complete {
                    report: CycleReport { attempted: n2, succeeded: s2, failed: f2 },
                }
            } else {
                DispatchCycle::Sending { fact, recipients, next: n2, succeeded: s2, failed: f2 }
            }
        },
        _ => c,
    }
}

impl DispatchCycle {
    /// In the send phase the cursor is strictly inside the list and the
    /// counters account for exactly the sends behind it.
    pub open spec fn wf(&self) -> bool {
        match *self {
            DispatchCycle::Sending { recipients, next, succeeded, failed, .. } => {
                &&& next < recipients@.len()
                &&& succeeded + failed == next
            },
            DispatchCycle::Complete { report } => report.succeeded + report.failed
                == report.attempted,
            _ => true,
        }
    }

    /// A fresh cycle, about to fetch the day's fact.
    pub fn new() -> (c: Self)
        ensures
            c == (DispatchCycle::FetchingFact),
            c.wf(),
    {
        DispatchCycle::FetchingFact
    }

    /// What the surrounding process should do next in this state.
    pub fn next_action(&self) -> (a: CycleAction)
        requires
            self.wf(),
        ensures
            (*self is FetchingFact) ==> a == (CycleAction::FetchFact),
            (*self is FetchingSubscribers) ==> a == (CycleAction::FetchSubscribers),
            (*self matches DispatchCycle::Sending { fact, recipients, next, .. } ==> (
                a matches CycleAction::Send { recipient, body }
                    && recipient == recipients@[next as int] && body@ == body_of(fact@)
            )),
            (*self matches DispatchCycle::Complete { report } ==> a == (CycleAction::Finish {
                report,
            })),
            (*self matches DispatchCycle::Failed { error } ==> a == (CycleAction::Abort { error })),
    {
        match self {
            DispatchCycle::FetchingFact => CycleAction::FetchFact,
            DispatchCycle::FetchingSubscribers { .. } => CycleAction::FetchSubscribers,
            DispatchCycle::Sending { fact, recipients, next, .. } => {
                let recipient = recipients[*next].clone();
                let body = crate::message::message_body(fact.as_str());
                CycleAction::Send { recipient, body }
            },
            DispatchCycle::Complete { report } => CycleAction::Finish { report: *report },
            DispatchCycle::Failed { error } => CycleAction::Abort { error: *error },
        }
    }

    /// Feeds in the fact-query result.  `None` stands for a failed query
    /// or an empty fact table; either aborts the cycle before any send.
    pub fn on_fact_result(self, fact: Option<String>) -> (c: Self)
        requires
            self is FetchingFact,
        ensures
            c == after_fact(fact),
            c.wf(),
    {
        match fact {
            Option::Some(f) => DispatchCycle::FetchingSubscribers { fact: f },
            Option::None => DispatchCycle::Failed { error: DispatchError::DataFetchError },
        }
    }

    /// Feeds in the subscriber-query result.  `None` aborts the cycle;
    /// an empty list is success with zero attempts, not an error.
    pub fn on_subscribers_result(self, subscribers: Option<Vec<String>>) -> (c: Self)
        requires
            self is FetchingSubscribers,
        ensures
            c == after_subscribers(self, subscribers),
            c.wf(),
    {
        match self {
            DispatchCycle::FetchingSubscribers { fact } => match subscribers {
                Option::None => DispatchCycle::Failed { error: DispatchError::DataFetchError },
                Option::Some(rs) => if rs.len() == 0 {
                    DispatchCycle::Complete {
                        report: CycleReport { attempted: 0, succeeded: 0, failed: 0 },
                    }
                } else {
                    DispatchCycle::Sending {
                        fact,
                        recipients: rs,
                        next: 0,
                        succeeded: 0,
                        failed: 0,
                    }
                },
            },
            _ => vstd::pervasive::unreached(),
        }
    }

    /// Feeds in one send outcome.  A failure is counted and the batch
    /// moves on; it never aborts the cycle.
    pub fn on_send_result(self, ok: bool) -> (c: Self)
        requires
            self is Sending,
            self.wf(),
        ensures
            c == after_send(self, ok),
            c.wf(),
    {
        match self {
            DispatchCycle::Sending { fact, recipients, next, succeeded, failed } => {
                let len = recipients.len();
                let n2 = next + 1;
                let s2 = if ok {
                    succeeded + 1
                } else {
                    succeeded
                };
                let f2 = if ok {
                    failed
                } else {
                    failed + 1
                };
                if n2 == len {
                    DispatchCycle::Complete {
                        report: CycleReport { attempted: n2, succeeded: s2, failed: f2 },
                    }
                } else {
                    DispatchCycle::Sending { fact, recipients, next: n2, succeeded: s2, failed: f2 }
                }
            },
            _ => vstd::pervasive::unreached(),
        }
    }

    /// `Some` once the cycle has finished: the report on success, the
    /// error on an aborted fetch phase.
    pub fn outcome(&self) -> (r: Option<Result<CycleReport, DispatchError>>)
        ensures
            (*self matches DispatchCycle::Complete { report } ==> r == Some(
                Ok::<CycleReport, DispatchError>(report),
            )),
            (*self matches DispatchCycle::Failed { error } ==> r == Some(
                Err::<CycleReport, DispatchError>(error),
            )),
            !(*self is Complete) && !(*self is Failed) ==> r is None,
    {
        match self {
            DispatchCycle::Complete { report } => Some(Ok(*report)),
            DispatchCycle::Failed { error } => Some(Err(*error)),
            _ => None,
        }
    }
}

/// The send phase as a fold: the state reached after feeding in each
/// outcome in turn.
pub open spec fn run_sends(c: DispatchCycle, outcomes: Seq<bool>) -> DispatchCycle
    decreases outcomes.len(),
{
    if outcomes.len() == 0 {
        c
    } else {
        run_sends(after_send(c, outcomes[0]), outcomes.drop_first())
    }
}

/// How many of the outcomes are successes.
pub open spec fn successes(outcomes: Seq<bool>) -> int
    decreases outcomes.len(),
{
    if outcomes.len() == 0 {
        0
    } else {
        (if outcomes[0] {
            1int
        } else {
            0int
        }) + successes(outcomes.drop_first())
    }
}

/// The state in which the send phase starts.
pub open spec fn start_sending(fact: String, recipients: Vec<String>) -> DispatchCycle {
    DispatchCycle::Sending { fact, recipients, next: 0, succeeded: 0, failed: 0 }
}

proof fn lemma_successes_bounds(outcomes: Seq<bool>)
    ensures
        0 <= successes(outcomes) <= outcomes.len(),
    decreases outcomes.len(),
{
    if outcomes.len() > 0 {
        lemma_successes_bounds(outcomes.drop_first());
    }
}

proof fn lemma_run_sends_completes(
    fact: String,
    recipients: Vec<String>,
    next: usize,
    succeeded: usize,
    failed: usize,
    outcomes: Seq<bool>,
)
    requires
        next + outcomes.len() == recipients@.len(),
        succeeded + failed == next,
        next < recipients@.len(),
    ensures
        run_sends(
            DispatchCycle::Sending { fact, recipients, next, succeeded, failed },
            outcomes,
        ) matches DispatchCycle::Complete { report } && report.attempted == recipients@.len()
            && report.succeeded == succeeded + successes(outcomes) && report.failed == failed + (
        outcomes.len() - successes(outcomes)),
    decreases outcomes.len(),
{
    vstd::std_specs::vec::axiom_spec_len(&recipients);
    lemma_successes_bounds(outcomes);
    lemma_successes_bounds(outcomes.drop_first());
    let c = DispatchCycle::Sending { fact, recipients, next, succeeded, failed };
    let c1 = after_send(c, outcomes[0]);
    if outcomes.len() == 1 {
        assert(run_sends(c1, outcomes.drop_first()) == c1);
    } else {
        let s2 = if outcomes[0] {
            (succeeded + 1) as usize
        } else {
            succeeded
        };
        let f2 = if outcomes[0] {
            failed
        } else {
            (failed + 1) as usize
        };
        lemma_run_sends_completes(
            fact,
            recipients,
            (next + 1) as usize,
            s2,
            f2,
            outcomes.drop_first(),
        );
    }
}

/// Best-effort fan-out, counted exactly: with `recipients.len()` sends
/// of which the `false` positions of `outcomes` fail, the cycle reaches
/// `Complete` and reports exactly `recipients.len()` attempts, one
/// success per `true` outcome and one failure per `false` outcome.
/// Failures anywhere in the batch never keep it from finishing.
pub proof fn lemma_cycle_send_counts(fact: String, recipients: Vec<String>, outcomes: Seq<bool>)
    requires
        recipients@.len() > 0,
        outcomes.len() == recipients@.len(),
    ensures
        run_sends(start_sending(fact, recipients), outcomes) matches DispatchCycle::Complete {
            report,
        } && report.attempted == recipients@.len() && report.succeeded == successes(outcomes)
            && report.failed == outcomes.len() - successes(outcomes),
{
    lemma_run_sends_completes(fact, recipients, 0, 0, 0, outcomes);
}

proof fn lemma_run_sends_partial(
    fact: String,
    recipients: Vec<String>,
    next: usize,
    succeeded: usize,
    failed: usize,
    outcomes: Seq<bool>,
)
    requires
        next + outcomes.len() < recipients@.len(),
        succeeded + failed == next,
    ensures
        run_sends(
            DispatchCycle::Sending { fact, recipients, next, succeeded, failed },
            outcomes,
        ) matches DispatchCycle::Sending {
            fact: f2,
            recipients: r2,
            next: n2,
            succeeded: s2,
            failed: fl2,
        } && f2 == fact && r2 == recipients && n2 == next + outcomes.len() && s2 + fl2 == n2,
    decreases outcomes.len(),
{
    vstd::std_specs::vec::axiom_spec_len(&recipients);
    if outcomes.len() > 0 {
        let s2 = if outcomes[0] {
            (succeeded + 1) as usize
        } else {
            succeeded
        };
        let f2 = if outcomes[0] {
            failed
        } else {
            (failed + 1) as usize
        };
        lemma_run_sends_partial(
            fact,
            recipients,
            (next + 1) as usize,
            s2,
            f2,
            outcomes.drop_first(),
        );
    }
}

/// Earlier failures never change what is attempted next: after the
/// first `i` outcomes — however many of them failed — the machine is
/// still in the send phase, pointed at recipient `i` of the unchanged
/// list, so [`DispatchCycle::next_action`] asks for the send to
/// `recipients[i]` with the unchanged fact's body.
pub proof fn lemma_failures_do_not_stop_batch(
    fact: String,
    recipients: Vec<String>,
    outcomes: Seq<bool>,
    i: int,
)
    requires
        outcomes.len() == recipients@.len(),
        0 <= i < recipients@.len(),
    ensures
        run_sends(start_sending(fact, recipients), outcomes.take(i)) matches DispatchCycle::Sending {
            fact: f2,
            recipients: r2,
            next,
            ..
        } && f2 == fact && r2 == recipients && next == i,
{
    assert(outcomes.take(i).len() == i);
    lemma_run_sends_partial(fact, recipients, 0, 0, 0, outcomes.take(i));
}

} // verus!
