//! The readiness check at startup: poll the backend until it answers with a success status.
use vstd::prelude::*;

verus! {

/// The pause between two polls, in milliseconds.
pub const RETRY_DELAY_MS: u64 = 1000;

/// What one poll of the backend gave.
#[derive(Clone, Copy, Debug, PartialEq, Eq, Structural)]
pub enum Poll {
    /// No answer: the connection failed.
    Unreachable,
    /// An answer with this HTTP status code.
    Status(u16),
}

/// What the readiness check asks its driver to do after a poll.
#[derive(Clone, Copy, Debug, PartialEq, Eq, Structural)]
pub enum StartupAction {
    /// The backend is ready: start serving.
    Proceed,
    /// Say that the gateway is waiting, pause this long, and poll again.
    Retry { delay_ms: u64 },
}

/// Whether an HTTP status code is in the success range.
pub open spec fn status_is_success(code: u16) -> bool {
    200 <= code && code < 300
}

/// Whether a poll shows the backend ready.
pub open spec fn poll_ready(p: Poll) -> bool {
    p matches Poll::Status(code) && status_is_success(code)
}

/// The answer to one poll.
pub open spec fn startup_step(p: Poll) -> StartupAction {
    if poll_ready(p) {
        StartupAction::Proceed
    } else {
        StartupAction::Retry { delay_ms: RETRY_DELAY_MS }
    }
}

/// The answers to a run of polls, up to and including the first
/// `Proceed`.
pub open spec fn startup_trace(polls: Seq<Poll>) -> Seq<StartupAction>
    decreases polls.len(),
{
    if polls.len() == 0 {
        Seq::empty()
    } else if poll_ready(polls[0]) {
        seq![StartupAction::Proceed]
    } else {
        seq![startup_step(polls[0])] + startup_trace(polls.drop_first())
    }
}

/// Whether `code` is a success status (2xx).
pub fn is_success(code: u16) -> (r: bool)
    ensures
        r == status_is_success(code),
{
    200 <= code && code < 300
}

/// The answer to one poll.
pub fn decide_after_poll(p: Poll) -> (r: StartupAction)
    ensures
        r == startup_step(p),
{
    match p {
        Poll::Status(code) => {
            if is_success(code) {
                StartupAction::Proceed
            } else {
                StartupAction::Retry { delay_ms: RETRY_DELAY_MS }
            }
        },
        Poll::Unreachable => StartupAction::Retry { delay_ms: RETRY_DELAY_MS },
    }
}

/// Where the first `k` polls fail and the next one succeeds, the readiness check lets
/// startup go on at that poll, the `k + 1`-th, and not before: each earlier
/// poll is followed by a pause of one second.
pub proof fn lemma_ready_after_first_success(polls: Seq<Poll>, k: nat)
    requires
        k < polls.len(),
        forall|i: int| 0 <= i < k ==> !poll_ready(#[trigger] polls[i]),
        poll_ready(polls[k as int]),
    ensures
        startup_trace(polls).len() == k + 1,
        startup_trace(polls)[k as int] == StartupAction::Proceed,
        forall|i: int|
            0 <= i < k ==> #[trigger] startup_trace(polls)[i] == (StartupAction::Retry {
                delay_ms: RETRY_DELAY_MS,
            }),
        RETRY_DELAY_MS >= 1000,
    decreases k,
{
    if k > 0 {
        let rest = polls.drop_first();
        assert forall|i: int| 0 <= i < (k - 1) as nat implies !poll_ready(#[trigger] rest[i]) by {
            assert(rest[i] == polls[i + 1]);
        }
        assert(rest[(k - 1) as int] == polls[k as int]);
        lemma_ready_after_first_success(rest, (k - 1) as nat);
        assert(!poll_ready(polls[0]));
        let t = startup_trace(polls);
        assert(t == seq![startup_step(polls[0])] + startup_trace(rest));
        assert forall|i: int| 0 <= i < k implies #[trigger] t[i] == (StartupAction::Retry {
            delay_ms: RETRY_DELAY_MS,
        }) by {
            if i > 0 {
                assert(t[i] == startup_trace(rest)[i - 1]);
            }
        }
    }
}

} // verus!
