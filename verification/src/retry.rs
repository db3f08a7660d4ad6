//! The retry controller: one logical fetch as a bounded backoff loop.
//!
//! A fetch sends its request again and again until an answer settles it.
//! Each answer is classified by [`classify`], in a fixed order of precedence,
//! and [`RetryState`] is the state machine that the classification drives.
//! The caller performs what [`RetryState::action`] asks for (send the
//! request, or sleep) and reports back with [`RetryState::advance`].

use crate::decimal::{decimal_text, format_text};
use crate::schedule::{backoff_secs, schedule, RETRY_AFTER_LIMIT, SCHEDULE_LEN};
use crate::transport::{
    is_error_status, is_success_status, Reply, RetryAfter, TransportOutcome, TOO_MANY_REQUESTS,
};
use vstd::prelude::*;
use vstd::string::StringExecFns;

verus! {

/// Why a fetch was given up.
#[derive(Clone, Copy, Debug, PartialEq, Eq)]
pub enum FailureReason {
    /// The server answered with this status.
    Status(u16),
    /// The transport obtained no answer.
    Transport,
}

impl FailureReason {
    /// The line that reports the failure: for a status, the words `Got a`,
    /// the status in decimal and the words `error, skipping`; for a fault of
    /// the transport, the word `transport`.
    pub open spec fn message_text(self) -> Seq<char> {
        match self {
            FailureReason::Status(status) => "Got a "@ + decimal_text(status as nat)
                + " error, skipping"@,
            FailureReason::Transport => "transport"@,
        }
    }

    /// The line that reports the failure.
    pub fn message(&self) -> (line: String)
        ensures
            line@ == self.message_text(),
    {
        match self {
            FailureReason::Status(status) => {
                let mut line = String::from_str("Got a ");
                line.append(format_text(*status as u64).as_str());
                line.append(" error, skipping");
                line
            },
            FailureReason::Transport => String::from_str("transport"),
        }
    }
}

/// The class of one transport outcome, given how often the fetch has backed
/// off so far.
#[derive(Clone, Copy, Debug, PartialEq, Eq)]
pub enum Verdict {
    /// A 2xx answer: the fetch is done.
    Success,
    /// The server asks for a pause and the schedule still has room: wait this
    /// many seconds, then ask again.
    RateLimited { wait_secs: u64 },
    /// A `Retry-After` header that cannot be honoured: counted as a retry,
    /// but nothing is waited for.
    MalformedRetrySignal,
    /// A 4xx or 5xx answer that asks for no pause: the fetch is given up.
    ClientOrServerError { status: u16 },
    /// The server still asks for a pause, but the schedule is used up: the
    /// fetch is given up.
    Exhausted { status: u16 },
    /// No answer at all: the fetch is given up.
    TransportFault,
    /// An answer that neither settles the fetch nor asks for a pause: the
    /// request is sent again at once, and is not counted as a retry.
    Inconclusive,
}

/// Whether `reply` asks for a pause: its status is 429, or it carries a
/// `Retry-After` header.
pub open spec fn asks_for_pause(reply: Reply) -> bool {
    reply.status == TOO_MANY_REQUESTS || !(reply.retry_after is Absent)
}

/// The classification of `outcome` after `attempt` retries, in order of
/// precedence:
/// a 2xx status is a success;
/// status 429 within the schedule waits for the schedule's next entry;
/// a `Retry-After` header within the schedule waits one second longer than
/// its value if that value is under `RETRY_AFTER_LIMIT`, and is malformed
/// otherwise;
/// an answer that asks for a pause once the schedule is used up exhausts the
/// fetch;
/// any other 4xx or 5xx status is an error;
/// what is left is inconclusive.
pub open spec fn verdict(attempt: usize, outcome: TransportOutcome) -> Verdict {
    match outcome {
        TransportOutcome::Faulted => Verdict::TransportFault,
        TransportOutcome::Replied(reply) => {
            if is_success_status(reply.status) {
                Verdict::Success
            } else if reply.status == TOO_MANY_REQUESTS && attempt < SCHEDULE_LEN {
                Verdict::RateLimited { wait_secs: schedule()[attempt as int] }
            } else if !(reply.retry_after is Absent) && attempt < SCHEDULE_LEN {
                match reply.retry_after {
                    RetryAfter::Seconds(secs) if secs < RETRY_AFTER_LIMIT => Verdict::RateLimited {
                        wait_secs: (secs + 1) as u64,
                    },
                    _ => Verdict::MalformedRetrySignal,
                }
            } else if asks_for_pause(reply) {
                Verdict::Exhausted { status: reply.status }
            } else if is_error_status(reply.status) {
                Verdict::ClientOrServerError { status: reply.status }
            } else {
                Verdict::Inconclusive
            }
        },
    }
}

/// Classifies one transport outcome of a fetch that has retried `attempt`
/// times so far.
pub fn classify(attempt: usize, outcome: &TransportOutcome) -> (class: Verdict)
    ensures
        class == verdict(attempt, *outcome),
{
    match outcome {
        TransportOutcome::Faulted => Verdict::TransportFault,
        TransportOutcome::Replied(reply) => {
            if reply.is_success() {
                return Verdict::Success;
            }
            let room = backoff_secs(attempt);
            if reply.is_rate_limited() {
                if let Some(wait_secs) = room {
                    return Verdict::RateLimited { wait_secs };
                }
            }
            if reply.retry_after.is_present() && room.is_some() {
                return match reply.retry_after {
                    RetryAfter::Seconds(secs) => {
                        if secs < RETRY_AFTER_LIMIT {
                            Verdict::RateLimited { wait_secs: secs + 1 }
                        } else {
                            Verdict::MalformedRetrySignal
                        }
                    },
                    _ => Verdict::MalformedRetrySignal,
                };
            }
            if reply.is_rate_limited() || reply.retry_after.is_present() {
                Verdict::Exhausted { status: reply.status }
            } else if reply.is_error() {
                Verdict::ClientOrServerError { status: reply.status }
            } else {
                Verdict::Inconclusive
            }
        },
    }
}

/// Where a fetch stands.
#[derive(Clone, Copy, Debug, PartialEq, Eq)]
pub enum RetryState {
    /// The request is to be sent; `attempt` retries have been counted.
    Attempting { attempt: usize },
    /// The fetch sleeps for `wait_secs` seconds before it sends again.
    BackingOff { attempt: usize, wait_secs: u64 },
    /// The fetch ended with a 2xx answer.
    Succeeded { retried: bool },
    /// The fetch was given up.
    Failed { reason: FailureReason, retried: bool },
}

/// What the caller reports to a fetch.
#[derive(Clone, Copy, Debug, PartialEq, Eq)]
pub enum RetryEvent {
    /// The request was sent and ended like this.
    Outcome(TransportOutcome),
    /// The sleep that was asked for is over.
    Woke,
}

/// What a fetch asks its caller to do next.
#[derive(Clone, Copy, Debug, PartialEq, Eq)]
pub enum RetryAction {
    /// Send the request and report the outcome.
    Send,
    /// Sleep for this many seconds and report that the sleep is over.
    Sleep { secs: u64 },
    /// Nothing more: the fetch has ended.
    Finish,
}

/// The result of one fetch, as the orchestrator sees it. Either way it says
/// whether the fetch counted a retry before it ended.
#[derive(Clone, Debug, PartialEq, Eq)]
pub enum FetchOutcome {
    /// The body of the 2xx answer, and whether the fetch retried before it.
    Success { body: String, retried: bool },
    /// The reason for which the fetch was given up, and whether it retried
    /// before that.
    Failure { reason: FailureReason, retried: bool },
}

/// The mathematical value of a [`FetchOutcome`].
pub enum FetchOutcomeView {
    Success { body: Seq<char>, retried: bool },
    Failure { reason: FailureReason, retried: bool },
}

impl FetchOutcomeView {
    /// Whether the fetch counted a retry before it ended.
    pub open spec fn retried(self) -> bool {
        match self {
            FetchOutcomeView::Success { retried, .. } => retried,
            FetchOutcomeView::Failure { retried, .. } => retried,
        }
    }
}

impl View for FetchOutcome {
    type V = FetchOutcomeView;

    open spec fn view(&self) -> FetchOutcomeView {
        match *self {
            FetchOutcome::Success { body, retried } => FetchOutcomeView::Success {
                body: body@,
                retried,
            },
            FetchOutcome::Failure { reason, retried } => FetchOutcomeView::Failure {
                reason,
                retried,
            },
        }
    }
}

impl FetchOutcome {
    /// Whether the fetch counted a retry before it ended.
    pub fn retried(&self) -> (flag: bool)
        ensures
            flag == self@.retried(),
    {
        match self {
            FetchOutcome::Success { retried, .. } => *retried,
            FetchOutcome::Failure { retried, .. } => *retried,
        }
    }
}

impl RetryState {
    /// The state of a fetch that has not sent anything yet.
    pub open spec fn initial() -> RetryState {
        RetryState::Attempting { attempt: 0 }
    }

    /// Whether the fetch has ended.
    pub open spec fn is_final(self) -> bool {
        self is Succeeded || self is Failed
    }

    /// The state that follows `self` on `event`.
    ///
    /// An outcome counts only while the request is out, and a wake-up only
    /// during a sleep; any other event leaves the state as it is. A final
    /// state reports a retry if and only if at least one retry was counted.
    pub open spec fn after(self, event: RetryEvent) -> RetryState {
        match (self, event) {
            (RetryState::Attempting { attempt }, RetryEvent::Outcome(outcome)) => match verdict(
                attempt,
                outcome,
            ) {
                Verdict::Success => RetryState::Succeeded { retried: attempt > 0 },
                Verdict::RateLimited { wait_secs } => RetryState::BackingOff {
                    attempt: (attempt + 1) as usize,
                    wait_secs,
                },
                Verdict::MalformedRetrySignal => RetryState::Attempting {
                    attempt: (attempt + 1) as usize,
                },
                Verdict::Exhausted { status }
                | Verdict::ClientOrServerError { status } => RetryState::Failed {
                    reason: FailureReason::Status(status),
                    retried: attempt > 0,
                },
                Verdict::TransportFault => RetryState::Failed {
                    reason: FailureReason::Transport,
                    retried: attempt > 0,
                },
                Verdict::Inconclusive => self,
            },
            (RetryState::BackingOff { attempt, .. }, RetryEvent::Woke) => RetryState::Attempting {
                attempt,
            },
            _ => self,
        }
    }

    /// What the caller is to do in state `self`.
    pub open spec fn wanted(self) -> RetryAction {
        match self {
            RetryState::Attempting { .. } => RetryAction::Send,
            RetryState::BackingOff { wait_secs, .. } => RetryAction::Sleep { secs: wait_secs },
            _ => RetryAction::Finish,
        }
    }

    /// Starts a fetch.
    pub fn start() -> (state: RetryState)
        ensures
            state == Self::initial(),
    {
        RetryState::Attempting { attempt: 0 }
    }

    /// Whether the fetch has ended.
    pub fn is_finished(&self) -> (done: bool)
        ensures
            done == self.is_final(),
    {
        match self {
            RetryState::Succeeded { .. } => true,
            RetryState::Failed { .. } => true,
            _ => false,
        }
    }

    /// What the caller is to do next.
    pub fn action(&self) -> (request: RetryAction)
        ensures
            request == self.wanted(),
    {
        match self {
            RetryState::Attempting { .. } => RetryAction::Send,
            RetryState::BackingOff { wait_secs, .. } => RetryAction::Sleep { secs: *wait_secs },
            _ => RetryAction::Finish,
        }
    }

    /// Takes one step of the fetch.
    pub fn advance(self, event: RetryEvent) -> (next: RetryState)
        ensures
            next == self.after(event),
    {
        match self {
            RetryState::Attempting { attempt } => match event {
                RetryEvent::Outcome(outcome) => match classify(attempt, &outcome) {
                    Verdict::Success => RetryState::Succeeded { retried: attempt > 0 },
                    Verdict::RateLimited { wait_secs } => RetryState::BackingOff {
                        attempt: attempt + 1,
                        wait_secs,
                    },
                    Verdict::MalformedRetrySignal => RetryState::Attempting {
                        attempt: attempt + 1,
                    },
                    Verdict::Exhausted { status } | Verdict::ClientOrServerError { status } => {
                        RetryState::Failed {
                            reason: FailureReason::Status(status),
                            retried: attempt > 0,
                        }
                    },
                    Verdict::TransportFault => RetryState::Failed {
                        reason: FailureReason::Transport,
                        retried: attempt > 0,
                    },
                    Verdict::Inconclusive => self,
                },
                RetryEvent::Woke => self,
            },
            RetryState::BackingOff { attempt, .. } => match event {
                RetryEvent::Woke => RetryState::Attempting { attempt },
                RetryEvent::Outcome(_) => self,
            },
            _ => self,
        }
    }

    /// The result of a fetch that has ended, with the retry flag of the state
    /// that it ended in; `body` is the body of the answer that ended it, which
    /// only a success keeps. A fetch that has not ended has no result.
    pub fn conclude(self, body: String) -> (outcome: Option<FetchOutcome>)
        ensures
            match self {
                RetryState::Succeeded { retried } => outcome == Some(
                    FetchOutcome::Success { body, retried },
                ),
                RetryState::Failed { reason, retried } => outcome == Some(
                    FetchOutcome::Failure { reason, retried },
                ),
                _ => outcome is None,
            },
    {
        match self {
            RetryState::Succeeded { retried } => Some(FetchOutcome::Success { body, retried }),
            RetryState::Failed { reason, retried } => Some(
                FetchOutcome::Failure { reason, retried },
            ),
            _ => None,
        }
    }
}

} // verus!
