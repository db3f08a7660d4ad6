//! A whole fetch against a scripted transport.
//!
//! [`run`] says, for a list of transport outcomes handed out in order, where
//! the retry state machine ends, which sleeps it asks for on the way and how
//! many requests it sends. [`rehearse`] computes the same without sending or
//! sleeping, and the lemmas state what follows for the scripts that matter.

use crate::retry::{asks_for_pause, FailureReason, RetryAction, RetryEvent, RetryState};
use crate::schedule::{lemma_schedule_shape, schedule, RETRY_AFTER_LIMIT, SCHEDULE_LEN};
use crate::transport::{
    is_error_status, is_success_status, Reply, RetryAfter, TransportOutcome, TOO_MANY_REQUESTS,
};
use vstd::prelude::*;

verus! {

/// The course of a fetch: the state it reached, the sleeps it asked for, in
/// order and in seconds, and the number of requests it sent.
pub struct Run {
    pub state: RetryState,
    pub sleeps: Seq<u64>,
    pub sends: nat,
}

/// The course of a fetch that stands in `state` and whose next requests end
/// as `outcomes` say, one outcome per request. The fetch stops when it has
/// ended or when a request is due and no outcome is left.
pub open spec fn run(state: RetryState, outcomes: Seq<TransportOutcome>) -> Run
    decreases outcomes.len(), (if state is BackingOff { 1nat } else { 0nat }),
{
    match state {
        RetryState::Attempting { .. } => {
            if outcomes.len() == 0 {
                Run { state, sleeps: Seq::empty(), sends: 0 }
            } else {
                let rest = run(state.after(RetryEvent::Outcome(outcomes[0])), outcomes.skip(1));
                Run { state: rest.state, sleeps: rest.sleeps, sends: rest.sends + 1 }
            }
        },
        RetryState::BackingOff { wait_secs, .. } => {
            let rest = run(state.after(RetryEvent::Woke), outcomes);
            Run { state: rest.state, sleeps: seq![wait_secs] + rest.sleeps, sends: rest.sends }
        },
        _ => Run { state, sleeps: Seq::empty(), sends: 0 },
    }
}

/// An answer with status 429.
pub open spec fn is_rate_limit_reply(outcome: TransportOutcome) -> bool {
    outcome matches TransportOutcome::Replied(reply) && reply.status == TOO_MANY_REQUESTS
}

/// An answer with a 2xx status.
pub open spec fn is_success_reply(outcome: TransportOutcome) -> bool {
    outcome matches TransportOutcome::Replied(reply) && is_success_status(reply.status)
}

/// What [`rehearse`] returns: the course of the fetch, as plain values.
#[derive(Clone, Debug, PartialEq, Eq)]
pub struct Rehearsal {
    /// The state that the fetch reached.
    pub state: RetryState,
    /// The sleeps that it asked for, in order, in seconds.
    pub sleeps: Vec<u64>,
    /// The number of requests that it sent.
    pub sends: usize,
}

impl View for Rehearsal {
    type V = Run;

    open spec fn view(&self) -> Run {
        Run { state: self.state, sleeps: self.sleeps@, sends: self.sends as nat }
    }
}

/// Plays a fetch from its start against `outcomes`, the results of its
/// requests in order, without sending or sleeping.
pub fn rehearse(outcomes: &[TransportOutcome]) -> (course: Rehearsal)
    ensures
        course@ == run(RetryState::initial(), outcomes@),
{
    let mut state = RetryState::start();
    let mut sleeps: Vec<u64> = Vec::new();
    let mut next: usize = 0;
    assert(outcomes@.skip(0) =~= outcomes@);
    assert(sleeps@ + run(state, outcomes@).sleeps =~= run(state, outcomes@).sleeps);
    loop
        invariant
            next <= outcomes@.len(),
            run(RetryState::initial(), outcomes@).state == run(state, outcomes@.skip(next as int)).state,
            run(RetryState::initial(), outcomes@).sleeps == sleeps@ + run(
                state,
                outcomes@.skip(next as int),
            ).sleeps,
            run(RetryState::initial(), outcomes@).sends == next + run(
                state,
                outcomes@.skip(next as int),
            ).sends,
        ensures
            next <= outcomes@.len(),
            run(RetryState::initial(), outcomes@) == (Run {
                state,
                sleeps: sleeps@,
                sends: next as nat,
            }),
        decreases outcomes@.len() - next, (if state is BackingOff { 1nat } else { 0nat }),
    {
        let ghost rest = outcomes@.skip(next as int);
        match state.action() {
            RetryAction::Send => {
                if next >= outcomes.len() {
                    assert(rest.len() == 0);
                    assert(sleeps@ + Seq::<u64>::empty() =~= sleeps@);
                    break ;
                }
                assert(rest[0] == outcomes@[next as int]);
                assert(rest.skip(1) =~= outcomes@.skip(next + 1));
                state = state.advance(RetryEvent::Outcome(outcomes[next]));
                next += 1;
            },
            RetryAction::Sleep { secs } => {
                let ghost before = sleeps@;
                let ghost tail = run(state.after(RetryEvent::Woke), rest).sleeps;
                sleeps.push(secs);
                assert(before + (seq![secs] + tail) =~= sleeps@ + tail);
                state = state.advance(RetryEvent::Woke);
            },
            RetryAction::Finish => {
                assert(sleeps@ + Seq::<u64>::empty() =~= sleeps@);
                break ;
            },
        }
    }
    Rehearsal { state, sleeps, sends: next }
}

/// The fetch that has counted `attempt` retries and now meets `count` more
/// answers with status 429, one after the other, and then a 2xx answer.
proof fn lemma_rate_limited_from(outcomes: Seq<TransportOutcome>, attempt: usize, count: int)
    requires
        0 <= count,
        attempt + count <= SCHEDULE_LEN,
        outcomes.len() > count,
        forall|i: int| 0 <= i < count ==> is_rate_limit_reply(#[trigger] outcomes[i]),
        is_success_reply(outcomes[count]),
    ensures
        run(RetryState::Attempting { attempt }, outcomes) == (Run {
            state: RetryState::Succeeded { retried: attempt + count > 0 },
            sleeps: schedule().subrange(attempt as int, attempt + count),
            sends: (count + 1) as nat,
        }),
    decreases count,
{
    reveal_with_fuel(run, 3);
    let state = RetryState::Attempting { attempt };
    let now = run(state, outcomes);
    if count == 0 {
        assert(now.sleeps =~= schedule().subrange(attempt as int, attempt + count));
    } else {
        assert(is_rate_limit_reply(outcomes[0]));
        let rest = outcomes.skip(1);
        let wait_secs = schedule()[attempt as int];
        let sleeping = RetryState::BackingOff { attempt: (attempt + 1) as usize, wait_secs };
        assert(state.after(RetryEvent::Outcome(outcomes[0])) == sleeping);
        assert forall|i: int| 0 <= i < count - 1 implies is_rate_limit_reply(
            #[trigger] rest[i],
        ) by {
            assert(rest[i] == outcomes[i + 1]);
        }
        assert(rest[count - 1] == outcomes[count]);
        lemma_rate_limited_from(rest, (attempt + 1) as usize, count - 1);
        assert(now.sleeps =~= schedule().subrange(attempt as int, attempt + count));
    }
}

/// A transport that answers 429 exactly `count` times and then with a 2xx
/// status, where `count` is within the schedule: the fetch succeeds, it has
/// slept `count` times, for the first `count` waits of the schedule in their
/// order, it has sent `count + 1` requests and none after the success, and it
/// reports a retry if and only if `count` is not zero.
pub proof fn lemma_rate_limited_then_success(outcomes: Seq<TransportOutcome>, count: int)
    requires
        0 <= count <= SCHEDULE_LEN,
        outcomes.len() > count,
        forall|i: int| 0 <= i < count ==> is_rate_limit_reply(#[trigger] outcomes[i]),
        is_success_reply(outcomes[count]),
    ensures
        run(RetryState::initial(), outcomes) == (Run {
            state: RetryState::Succeeded { retried: count > 0 },
            sleeps: schedule().take(count),
            sends: (count + 1) as nat,
        }),
{
    lemma_rate_limited_from(outcomes, 0, count);
    assert(schedule().subrange(0, count) =~= schedule().take(count));
}

/// The fetch that has counted `attempt` retries and meets answers with
/// status 429 until the schedule is used up, and then one more.
proof fn lemma_exhaustion_from(outcomes: Seq<TransportOutcome>, attempt: usize)
    requires
        attempt <= SCHEDULE_LEN,
        outcomes.len() > SCHEDULE_LEN - attempt,
        forall|i: int|
            0 <= i <= SCHEDULE_LEN - attempt ==> is_rate_limit_reply(#[trigger] outcomes[i]),
    ensures
        run(RetryState::Attempting { attempt }, outcomes) == (Run {
            state: RetryState::Failed {
                reason: FailureReason::Status(TOO_MANY_REQUESTS),
                retried: true,
            },
            sleeps: schedule().subrange(attempt as int, SCHEDULE_LEN as int),
            sends: (SCHEDULE_LEN - attempt + 1) as nat,
        }),
    decreases SCHEDULE_LEN - attempt,
{
    reveal_with_fuel(run, 3);
    let state = RetryState::Attempting { attempt };
    let now = run(state, outcomes);
    assert(is_rate_limit_reply(outcomes[0]));
    if attempt == SCHEDULE_LEN {
        assert(now.sleeps =~= schedule().subrange(attempt as int, SCHEDULE_LEN as int));
    } else {
        let rest = outcomes.skip(1);
        let wait_secs = schedule()[attempt as int];
        let sleeping = RetryState::BackingOff { attempt: (attempt + 1) as usize, wait_secs };
        assert(state.after(RetryEvent::Outcome(outcomes[0])) == sleeping);
        assert forall|i: int| 0 <= i <= SCHEDULE_LEN - (attempt + 1) implies is_rate_limit_reply(
            #[trigger] rest[i],
        ) by {
            assert(rest[i] == outcomes[i + 1]);
        }
        lemma_exhaustion_from(rest, (attempt + 1) as usize);
        assert(now.sleeps =~= schedule().subrange(attempt as int, SCHEDULE_LEN as int));
    }
}

/// A transport that answers 429 more often than the schedule is long: the
/// fetch fails on the answer after the last wait, with that status as its
/// reason. It has slept through the whole schedule, once per entry, and it
/// sends nothing more, however many answers the transport still holds.
pub proof fn lemma_schedule_exhaustion(outcomes: Seq<TransportOutcome>)
    requires
        outcomes.len() > SCHEDULE_LEN,
        forall|i: int| 0 <= i <= SCHEDULE_LEN ==> is_rate_limit_reply(#[trigger] outcomes[i]),
    ensures
        run(RetryState::initial(), outcomes) == (Run {
            state: RetryState::Failed {
                reason: FailureReason::Status(TOO_MANY_REQUESTS),
                retried: true,
            },
            sleeps: schedule(),
            sends: (SCHEDULE_LEN + 1) as nat,
        }),
{
    lemma_exhaustion_from(outcomes, 0);
    assert(schedule().subrange(0, SCHEDULE_LEN as int) =~= schedule());
}

/// An answer that is no success and asks for a pause.
pub open spec fn is_pause_reply(outcome: TransportOutcome) -> bool {
    outcome matches TransportOutcome::Replied(reply) && !is_success_status(reply.status)
        && asks_for_pause(reply)
}

/// The fetch that has counted `attempt` retries and meets answers that ask
/// for a pause until the schedule is used up, and then one more.
proof fn lemma_pauses_from(outcomes: Seq<TransportOutcome>, attempt: usize)
    requires
        attempt <= SCHEDULE_LEN,
        outcomes.len() > SCHEDULE_LEN - attempt,
        forall|i: int| 0 <= i <= SCHEDULE_LEN - attempt ==> is_pause_reply(#[trigger] outcomes[i]),
    ensures
        outcomes[SCHEDULE_LEN - attempt] matches TransportOutcome::Replied(last) && run(
            RetryState::Attempting { attempt },
            outcomes,
        ).state == (RetryState::Failed {
            reason: FailureReason::Status(last.status),
            retried: true,
        }),
        run(RetryState::Attempting { attempt }, outcomes).sends == SCHEDULE_LEN - attempt + 1,
    decreases SCHEDULE_LEN - attempt,
{
    reveal_with_fuel(run, 3);
    let state = RetryState::Attempting { attempt };
    assert(is_pause_reply(outcomes[0]));
    if attempt < SCHEDULE_LEN {
        let rest = outcomes.skip(1);
        let next = state.after(RetryEvent::Outcome(outcomes[0]));
        let counted = RetryState::Attempting { attempt: (attempt + 1) as usize };
        assert(next == counted || next.after(RetryEvent::Woke) == counted);
        assert forall|i: int| 0 <= i <= SCHEDULE_LEN - (attempt + 1) implies is_pause_reply(
            #[trigger] rest[i],
        ) by {
            assert(rest[i] == outcomes[i + 1]);
        }
        assert(rest[SCHEDULE_LEN - (attempt + 1)] == outcomes[SCHEDULE_LEN - attempt]);
        lemma_pauses_from(rest, (attempt + 1) as usize);
    }
}

/// A transport that asks for a pause more often than the schedule is long,
/// by status 429 or by a `Retry-After` header on an answer that is no
/// success, in any mix: the fetch fails on the answer after the last counted
/// retry, with the status of that answer as its reason, and sends nothing
/// more, however many answers the transport still holds.
pub proof fn lemma_pauses_exhaust_the_schedule(outcomes: Seq<TransportOutcome>)
    requires
        outcomes.len() > SCHEDULE_LEN,
        forall|i: int| 0 <= i <= SCHEDULE_LEN ==> is_pause_reply(#[trigger] outcomes[i]),
    ensures
        outcomes[SCHEDULE_LEN as int] matches TransportOutcome::Replied(last) && run(
            RetryState::initial(),
            outcomes,
        ).state == (RetryState::Failed {
            reason: FailureReason::Status(last.status),
            retried: true,
        }),
        run(RetryState::initial(), outcomes).sends == SCHEDULE_LEN + 1,
{
    lemma_pauses_from(outcomes, 0);
}

/// A first answer with a 4xx or 5xx status other than 429 and without a
/// `Retry-After` header: the fetch fails at once with that status as its
/// reason, after one request, without a sleep and without a retry.
pub proof fn lemma_plain_error_fails_at_once(outcomes: Seq<TransportOutcome>, status: u16)
    requires
        outcomes.len() > 0,
        outcomes[0] == TransportOutcome::Replied(
            Reply { status, retry_after: RetryAfter::Absent },
        ),
        is_error_status(status),
        status != TOO_MANY_REQUESTS,
    ensures
        run(RetryState::initial(), outcomes) == (Run {
            state: RetryState::Failed { reason: FailureReason::Status(status), retried: false },
            sleeps: Seq::empty(),
            sends: 1,
        }),
{
    reveal_with_fuel(run, 2);
}

/// The sleeps of a fresh fetch whose first answer is not a success and
/// carries a `Retry-After` header: with status 429, the first wait of the
/// schedule; with another status, one second more than the header's value if
/// that value is a number under `RETRY_AFTER_LIMIT`, and none otherwise.
pub open spec fn retry_after_sleeps(status: u16, header: RetryAfter) -> Seq<u64> {
    if status == TOO_MANY_REQUESTS {
        seq![schedule()[0]]
    } else {
        match header {
            RetryAfter::Seconds(secs) if secs < RETRY_AFTER_LIMIT => seq![(secs + 1) as u64],
            _ => Seq::empty(),
        }
    }
}

/// A first answer that carries a `Retry-After` header and is not a success,
/// and then a 2xx answer: the fetch succeeds after two requests and reports a
/// retry, whatever the header holds. It has slept at most once, and where the
/// header holds a number, for no longer than one second more than that number.
pub proof fn lemma_retry_after_then_success(
    outcomes: Seq<TransportOutcome>,
    status: u16,
    header: RetryAfter,
)
    requires
        outcomes.len() >= 2,
        outcomes[0] == TransportOutcome::Replied(Reply { status, retry_after: header }),
        !is_success_status(status),
        !(header is Absent),
        is_success_reply(outcomes[1]),
    ensures
        run(RetryState::initial(), outcomes) == (Run {
            state: RetryState::Succeeded { retried: true },
            sleeps: retry_after_sleeps(status, header),
            sends: 2,
        }),
        retry_after_sleeps(status, header).len() <= 1,
        header matches RetryAfter::Seconds(secs) ==> forall|i: int|
            0 <= i < retry_after_sleeps(status, header).len() ==> #[trigger] retry_after_sleeps(
                status,
                header,
            )[i] <= secs + 1,
{
    reveal_with_fuel(run, 4);
    let first = RetryState::initial().after(RetryEvent::Outcome(outcomes[0]));
    let rest = outcomes.skip(1);
    assert(rest[0] == outcomes[1]);
    let last = (RetryState::Attempting { attempt: 1 }).after(RetryEvent::Outcome(rest[0]));
    assert(last == RetryState::Succeeded { retried: true });
    assert(run(last, rest.skip(1)).sleeps =~= Seq::<u64>::empty());
    let sleeps = retry_after_sleeps(status, header);
    if sleeps.len() == 1 {
        assert(first == RetryState::BackingOff { attempt: 1, wait_secs: sleeps[0] });
        assert(run(first, rest).sleeps =~= sleeps);
    } else {
        assert(first == RetryState::Attempting { attempt: 1 });
        assert(run(first, rest).sleeps =~= sleeps);
    }
}

/// A 2xx answer ends the fetch at once, whatever else the answer carries: a
/// `Retry-After` header on it is not looked at.
pub proof fn lemma_success_takes_precedence(reply: Reply, attempt: usize)
    requires
        is_success_status(reply.status),
    ensures
        (RetryState::Attempting { attempt }).after(
            RetryEvent::Outcome(TransportOutcome::Replied(reply)),
        ) == (RetryState::Succeeded { retried: attempt > 0 }),
{
}

/// The retries that `state` has counted, for a fetch that has not ended.
spec fn counted(state: RetryState) -> int {
    match state {
        RetryState::Attempting { attempt } => attempt as int,
        RetryState::BackingOff { attempt, .. } => attempt - 1,
        _ => SCHEDULE_LEN as int,
    }
}

/// A state that a fetch can reach from its start: it has counted no more
/// retries than the schedule is long, and a sleep is no longer than the
/// longest wait.
spec fn reachable_shape(state: RetryState) -> bool {
    match state {
        RetryState::Attempting { attempt } => attempt <= SCHEDULE_LEN,
        RetryState::BackingOff { attempt, wait_secs } => 1 <= attempt <= SCHEDULE_LEN && 1
            <= wait_secs <= RETRY_AFTER_LIMIT,
        _ => true,
    }
}

/// From a state of reachable shape, a fetch sleeps at most once for each
/// entry of the schedule that is left, each time between one second and
/// `RETRY_AFTER_LIMIT` seconds, sends at most one request per outcome, and
/// stops only when it has ended or when the outcomes are used up.
proof fn lemma_run_bounds_from(state: RetryState, outcomes: Seq<TransportOutcome>)
    requires
        reachable_shape(state),
    ensures
        run(state, outcomes).sleeps.len() <= SCHEDULE_LEN - counted(state),
        forall|i: int|
            0 <= i < run(state, outcomes).sleeps.len() ==> 1 <= #[trigger] run(
                state,
                outcomes,
            ).sleeps[i] <= RETRY_AFTER_LIMIT,
        run(state, outcomes).sends <= outcomes.len(),
        run(state, outcomes).state.is_final() || run(state, outcomes).sends == outcomes.len(),
        reachable_shape(run(state, outcomes).state),
    decreases outcomes.len(), (if state is BackingOff { 1nat } else { 0nat }),
{
    match state {
        RetryState::Attempting { attempt } => {
            if outcomes.len() > 0 {
                let next = state.after(RetryEvent::Outcome(outcomes[0]));
                lemma_schedule_shape();
                assert(reachable_shape(next));
                lemma_run_bounds_from(next, outcomes.skip(1));
            }
        },
        RetryState::BackingOff { wait_secs, .. } => {
            let next = state.after(RetryEvent::Woke);
            lemma_run_bounds_from(next, outcomes);
        },
        _ => {},
    }
}

/// Whatever the transport answers, a fetch sleeps at most `SCHEDULE_LEN`
/// times, each time between one second and `RETRY_AFTER_LIMIT` seconds, sends
/// at most one request per outcome, and stops only when it has ended or when
/// the outcomes are used up.
pub proof fn lemma_run_bounds(outcomes: Seq<TransportOutcome>)
    ensures
        run(RetryState::initial(), outcomes).sleeps.len() <= SCHEDULE_LEN,
        forall|i: int|
            0 <= i < run(RetryState::initial(), outcomes).sleeps.len() ==> 1 <= #[trigger] run(
                RetryState::initial(),
                outcomes,
            ).sleeps[i] <= RETRY_AFTER_LIMIT,
        run(RetryState::initial(), outcomes).sends <= outcomes.len(),
        run(RetryState::initial(), outcomes).state.is_final() || run(
            RetryState::initial(),
            outcomes,
        ).sends == outcomes.len(),
{
    lemma_run_bounds_from(RetryState::initial(), outcomes);
}

} // verus!
