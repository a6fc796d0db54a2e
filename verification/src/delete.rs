//! Deleting one version, with a bounded number of attempts.
//!
//! A [`Deletion`] tells its driver what to do: send the delete request, sleep,
//! or stop. The driver reports back with an [`Event`] and gets the next state.

use crate::request::{
    checked, is_server_error, is_success, status_is_server_error, status_is_success, Reply,
    RequestError,
};
use vstd::prelude::*;

verus! {

/// How many times the delete request for one version is sent at most.
pub const MAX_ATTEMPTS: u32 = 5;

/// How long to wait after a server error, in seconds.
pub const BACKOFF_SECONDS: u64 = 3;

/// Where the deletion of one version stands.
#[derive(Clone, Copy, Debug, PartialEq, Eq, Structural)]
pub enum Deletion {
    /// The request is to be sent for the `attempt`-th time, counted from 1.
    Sending { version_id: i32, attempt: u32 },
    /// The `attempt`-th request met a server error; wait for `seconds`.
    Sleeping { version_id: i32, attempt: u32, seconds: u64 },
    /// The deletion ended well.
    Succeeded,
    /// The deletion ended with this error.
    Failed(RequestError),
}

/// What the driver reports.
#[derive(Clone, Copy, Debug, PartialEq, Eq, Structural)]
pub enum Event {
    /// The request that was sent drew this reply.
    Replied(Reply),
    /// The wait is over.
    Woke,
}

/// The state that follows `state` on `event`.
///
/// A success ends the deletion well, a server error leads to a wait, and any
/// other status or a failed transport ends it with that error. After the wait
/// the request is sent again, unless it has been sent `MAX_ATTEMPTS` times:
/// then the deletion ends, and counts as done. An event that the state did not
/// ask for changes nothing.
pub open spec fn next(state: Deletion, event: Event) -> Deletion {
    match (state, event) {
        (Deletion::Sending { version_id, attempt }, Event::Replied(Reply::Transport)) => {
            Deletion::Failed(RequestError::Transport)
        },
        (Deletion::Sending { version_id, attempt }, Event::Replied(Reply::Status(status))) => {
            if is_server_error(status) {
                Deletion::Sleeping { version_id, attempt, seconds: BACKOFF_SECONDS }
            } else if is_success(status) {
                Deletion::Succeeded
            } else {
                Deletion::Failed(RequestError::Status(status))
            }
        },
        (Deletion::Sleeping { version_id, attempt, seconds }, Event::Woke) => {
            if attempt < MAX_ATTEMPTS {
                Deletion::Sending { version_id, attempt: (attempt + 1) as u32 }
            } else {
                Deletion::Succeeded
            }
        },
        _ => state,
    }
}

/// Whether a reply is a server error, after which the request is worth
/// sending again.
pub open spec fn is_transient(reply: Reply) -> bool {
    reply matches Reply::Status(status) && is_server_error(status)
}

/// What driving a deletion amounts to: the state it was left in, how many
/// requests were sent, and how often and how long the driver slept.
pub struct Trace {
    pub end: Deletion,
    pub requests: nat,
    pub sleeps: nat,
    pub seconds: nat,
}

/// Drives `state` as far as it goes against a server that answers the
/// requests, in the order in which they are sent, with `replies`.
///
/// A deletion that still wants to send when the replies run out is left in
/// that state.
pub open spec fn drive(state: Deletion, replies: Seq<Reply>) -> Trace
    decreases replies.len(), (if state is Sleeping { 1nat } else { 0nat }),
{
    match state {
        Deletion::Sending { .. } => {
            if replies.len() == 0 {
                Trace { end: state, requests: 0, sleeps: 0, seconds: 0 }
            } else {
                let rest = drive(next(state, Event::Replied(replies[0])), replies.drop_first());
                Trace { requests: rest.requests + 1, ..rest }
            }
        },
        Deletion::Sleeping { seconds, .. } => {
            let rest = drive(next(state, Event::Woke), replies);
            Trace { sleeps: rest.sleeps + 1, seconds: rest.seconds + seconds as nat, ..rest }
        },
        _ => Trace { end: state, requests: 0, sleeps: 0, seconds: 0 },
    }
}

/// While the server answers with server errors and attempts are left, each
/// reply costs one request and one wait of `BACKOFF_SECONDS`, and the deletion
/// goes on with the next attempt.
pub proof fn lemma_server_errors_are_retried(
    version_id: i32,
    attempt: u32,
    replies: Seq<Reply>,
    failures: nat,
)
    requires
        attempt + failures <= MAX_ATTEMPTS,
        failures <= replies.len(),
        forall|i: int| 0 <= i < failures ==> is_transient(#[trigger] replies[i]),
    ensures
        ({
            let whole = drive(Deletion::Sending { version_id, attempt }, replies);
            let rest = drive(
                Deletion::Sending { version_id, attempt: (attempt + failures) as u32 },
                replies.skip(failures as int),
            );
            &&& whole.end == rest.end
            &&& whole.requests == rest.requests + failures
            &&& whole.sleeps == rest.sleeps + failures
            &&& whole.seconds == rest.seconds + failures * BACKOFF_SECONDS
        }),
    decreases failures,
{
    if failures == 0 {
        assert(replies.skip(0) =~= replies);
    } else {
        let state = Deletion::Sending { version_id, attempt };
        let tail = replies.drop_first();
        let asleep = next(state, Event::Replied(replies[0]));
        let again = next(asleep, Event::Woke);
        assert(drive(asleep, tail).sleeps == drive(again, tail).sleeps + 1);
        assert(forall|i: int| 0 <= i < failures - 1 ==> is_transient(#[trigger] tail[i]));
        lemma_server_errors_are_retried(
            version_id,
            (attempt + 1) as u32,
            tail,
            (failures - 1) as nat,
        );
        assert(tail.skip(failures - 1) =~= replies.skip(failures as int));
    }
}

/// A success after fewer than `MAX_ATTEMPTS` server errors ends the deletion
/// well: one request for each reply, one wait for each server error.
pub proof fn lemma_success_after_server_errors(
    version_id: i32,
    replies: Seq<Reply>,
    failures: nat,
    status: u16,
)
    requires
        failures < MAX_ATTEMPTS,
        failures < replies.len(),
        forall|i: int| 0 <= i < failures ==> is_transient(#[trigger] replies[i]),
        replies[failures as int] == Reply::Status(status),
        is_success(status),
    ensures
        drive(Deletion::Sending { version_id, attempt: 1 }, replies) == (Trace {
            end: Deletion::Succeeded,
            requests: failures + 1,
            sleeps: failures,
            seconds: failures * BACKOFF_SECONDS as nat,
        }),
{
    lemma_server_errors_are_retried(version_id, 1, replies, failures);
    lemma_last_reply(version_id, (1 + failures) as u32, replies.skip(failures as int));
}

/// A reply that is neither a success nor a server error ends the deletion
/// with an error at once: no wait follows it and no further request.
pub proof fn lemma_failure_is_final(version_id: i32, replies: Seq<Reply>, failures: nat)
    requires
        failures < MAX_ATTEMPTS,
        failures < replies.len(),
        forall|i: int| 0 <= i < failures ==> is_transient(#[trigger] replies[i]),
        !is_transient(replies[failures as int]),
        checked(replies[failures as int]) is Err,
    ensures
        drive(Deletion::Sending { version_id, attempt: 1 }, replies) == (Trace {
            end: Deletion::Failed(checked(replies[failures as int])->Err_0),
            requests: failures + 1,
            sleeps: failures,
            seconds: failures * BACKOFF_SECONDS as nat,
        }),
{
    lemma_server_errors_are_retried(version_id, 1, replies, failures);
    lemma_last_reply(version_id, (1 + failures) as u32, replies.skip(failures as int));
}

/// When every one of `MAX_ATTEMPTS` requests meets a server error, the
/// deletion stops after the last wait and counts as done, though nothing was
/// deleted.
pub proof fn lemma_exhaustion_counts_as_success(version_id: i32, replies: Seq<Reply>)
    requires
        MAX_ATTEMPTS <= replies.len(),
        forall|i: int| 0 <= i < MAX_ATTEMPTS ==> is_transient(#[trigger] replies[i]),
    ensures
        drive(Deletion::Sending { version_id, attempt: 1 }, replies) == (Trace {
            end: Deletion::Succeeded,
            requests: MAX_ATTEMPTS as nat,
            sleeps: MAX_ATTEMPTS as nat,
            seconds: MAX_ATTEMPTS as nat * BACKOFF_SECONDS as nat,
        }),
{
    let failures = (MAX_ATTEMPTS - 1) as nat;
    lemma_server_errors_are_retried(version_id, 1, replies, failures);
    let tail = replies.skip(failures as int);
    let state = Deletion::Sending { version_id, attempt: MAX_ATTEMPTS };
    let asleep = next(state, Event::Replied(tail[0]));
    assert(drive(Deletion::Succeeded, tail.drop_first()).sleeps == 0);
    assert(drive(asleep, tail.drop_first()).sleeps == 1);
}

/// However the server answers, a deletion sends at most `MAX_ATTEMPTS`
/// requests, and sleeps `BACKOFF_SECONDS` after each server error and at no
/// other time.
pub proof fn lemma_requests_are_bounded(version_id: i32, replies: Seq<Reply>)
    ensures
        ({
            let trace = drive(Deletion::Sending { version_id, attempt: 1 }, replies);
            &&& trace.requests <= MAX_ATTEMPTS
            &&& trace.sleeps <= trace.requests
            &&& trace.seconds == trace.sleeps * BACKOFF_SECONDS
        }),
{
    lemma_attempts_left(version_id, 1, replies);
}

/// From the `attempt`-th request on, at most the attempts that are left are
/// made.
proof fn lemma_attempts_left(version_id: i32, attempt: u32, replies: Seq<Reply>)
    requires
        1 <= attempt <= MAX_ATTEMPTS,
    ensures
        ({
            let trace = drive(Deletion::Sending { version_id, attempt }, replies);
            &&& trace.requests <= MAX_ATTEMPTS - attempt + 1
            &&& trace.sleeps <= trace.requests
            &&& trace.seconds == trace.sleeps * BACKOFF_SECONDS
        }),
    decreases replies.len(),
{
    let state = Deletion::Sending { version_id, attempt };
    if replies.len() > 0 {
        let tail = replies.drop_first();
        let after = next(state, Event::Replied(replies[0]));
        if is_transient(replies[0]) {
            let again = next(after, Event::Woke);
            assert(drive(after, tail).sleeps == drive(again, tail).sleeps + 1);
            if attempt < MAX_ATTEMPTS {
                lemma_attempts_left(version_id, (attempt + 1) as u32, tail);
            }
        }
    }
}

/// The reply to a request that is not a server error ends the deletion.
proof fn lemma_last_reply(version_id: i32, attempt: u32, replies: Seq<Reply>)
    requires
        replies.len() > 0,
        !is_transient(replies[0]),
    ensures
        drive(Deletion::Sending { version_id, attempt }, replies) == (Trace {
            end: match checked(replies[0]) {
                Ok(_) => Deletion::Succeeded,
                Err(error) => Deletion::Failed(error),
            },
            requests: 1,
            sleeps: 0,
            seconds: 0,
        }),
{
    let state = Deletion::Sending { version_id, attempt };
    let after = next(state, Event::Replied(replies[0]));
    assert(drive(state, replies).requests == drive(after, replies.drop_first()).requests + 1);
}

impl Deletion {
    /// The deletion of a version, before anything was sent.
    pub fn new(version_id: i32) -> (state: Deletion)
        ensures
            state == (Deletion::Sending { version_id, attempt: 1 }),
    {
        Deletion::Sending { version_id, attempt: 1 }
    }

    /// How the deletion ended, once it has.
    pub open spec fn outcome_spec(self) -> Option<Result<(), RequestError>> {
        match self {
            Deletion::Succeeded => Some(Ok(())),
            Deletion::Failed(error) => Some(Err(error)),
            _ => None,
        }
    }

    /// How the deletion ended; `None` while it is still under way.
    #[verifier::when_used_as_spec(outcome_spec)]
    pub fn outcome(self) -> (outcome: Option<Result<(), RequestError>>)
        ensures
            outcome == self.outcome_spec(),
    {
        match self {
            Deletion::Succeeded => Some(Ok(())),
            Deletion::Failed(error) => Some(Err(error)),
            _ => None,
        }
    }

    /// Moves on by one event.
    pub fn step(self, event: Event) -> (state: Deletion)
        ensures
            state == next(self, event),
    {
        match (self, event) {
            (Deletion::Sending { version_id, attempt }, Event::Replied(Reply::Transport)) => {
                Deletion::Failed(RequestError::Transport)
            },
            (Deletion::Sending { version_id, attempt }, Event::Replied(Reply::Status(status))) => {
                if status_is_server_error(status) {
                    Deletion::Sleeping { version_id, attempt, seconds: BACKOFF_SECONDS }
                } else if status_is_success(status) {
                    Deletion::Succeeded
                } else {
                    Deletion::Failed(RequestError::Status(status))
                }
            },
            (Deletion::Sleeping { version_id, attempt, seconds }, Event::Woke) => {
                if attempt < MAX_ATTEMPTS {
                    Deletion::Sending { version_id, attempt: attempt + 1 }
                } else {
                    Deletion::Succeeded
                }
            },
            _ => self,
        }
    }
}

} // verus!
