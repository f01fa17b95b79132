//! The invite-autojoin retrier: joining an invited room is retried with
//! exponential backoff, starting at two seconds and doubling, until the
//! join succeeds or the next delay would exceed the one-hour ceiling, at
//! which point the attempt sequence is abandoned.

use vstd::prelude::*;

verus! {

/// The first retry delay, in seconds.
pub const INITIAL_JOIN_DELAY_SECS: u64 = 2;

/// The retrier abandons once the next delay would exceed this many seconds.
pub const JOIN_DELAY_CEILING_SECS: u64 = 3600;

/// Where one invite's join attempts stand.
#[derive(Clone, Copy, PartialEq, Eq, Structural, Debug)]
pub enum JoinState {
    /// A join attempt is outstanding; on failure the driver waits
    /// `delay_secs` before the next attempt.
    Joining { delay_secs: u64 },
    /// The room was joined.
    Joined,
    /// The backoff ceiling was reached; no further attempt is made.
    Abandoned,
}

/// The outcome of one join attempt.
#[derive(Clone, Copy, PartialEq, Eq, Structural, Debug)]
pub enum JoinOutcome {
    Success,
    Failure,
}

/// What the driver must do after one attempt's outcome.
#[derive(Clone, Copy, PartialEq, Eq, Structural, Debug)]
pub enum JoinAction {
    /// Nothing further; the state says whether the room was joined or the
    /// sequence abandoned.
    Stop,
    /// Wait this many seconds, then attempt the join again.
    RetryAfter { wait_secs: u64 },
}

/// A retrier state the machine can actually reach: the delay starts at two
/// seconds and never exceeds the ceiling.
pub open spec fn join_state_valid(s: JoinState) -> bool {
    match s {
        JoinState::Joining { delay_secs } => 2 <= delay_secs <= JOIN_DELAY_CEILING_SECS,
        _ => true,
    }
}

/// The retrier for a fresh invite: the first failure is retried after two
/// seconds.
pub fn autojoin_initial() -> (r: JoinState)
    ensures
        r == (JoinState::Joining { delay_secs: INITIAL_JOIN_DELAY_SECS }),
        join_state_valid(r),
{
    JoinState::Joining { delay_secs: INITIAL_JOIN_DELAY_SECS }
}

/// One step of the retrier: on success the room is joined; on failure the
/// driver waits the current delay and retries with the delay doubled,
/// unless the doubled delay exceeds the ceiling, in which case the
/// sequence is abandoned.
pub open spec fn join_step_spec(s: JoinState, outcome: JoinOutcome) -> (JoinState, JoinAction) {
    match s {
        JoinState::Joining { delay_secs } => match outcome {
            JoinOutcome::Success => (JoinState::Joined, JoinAction::Stop),
            JoinOutcome::Failure => {
                if 2 * delay_secs > JOIN_DELAY_CEILING_SECS {
                    (JoinState::Abandoned, JoinAction::Stop)
                } else {
                    (
                        JoinState::Joining { delay_secs: (2 * delay_secs) as u64 },
                        JoinAction::RetryAfter { wait_secs: delay_secs },
                    )
                }
            },
        },
        JoinState::Joined => (s, JoinAction::Stop),
        JoinState::Abandoned => (s, JoinAction::Stop),
    }
}

/// Advances the retrier by one attempt's outcome.
pub fn join_step(s: JoinState, outcome: JoinOutcome) -> (r: (JoinState, JoinAction))
    requires
        join_state_valid(s),
    ensures
        r == join_step_spec(s, outcome),
        join_state_valid(r.0),
{
    match s {
        JoinState::Joining { delay_secs } => match outcome {
            JoinOutcome::Success => (JoinState::Joined, JoinAction::Stop),
            JoinOutcome::Failure => {
                if 2 * delay_secs > JOIN_DELAY_CEILING_SECS {
                    (JoinState::Abandoned, JoinAction::Stop)
                } else {
                    (
                        JoinState::Joining { delay_secs: 2 * delay_secs },
                        JoinAction::RetryAfter { wait_secs: delay_secs },
                    )
                }
            },
        },
        JoinState::Joined => (s, JoinAction::Stop),
        JoinState::Abandoned => (s, JoinAction::Stop),
    }
}

/// The state after `k` consecutive failed attempts.
pub open spec fn after_failures(s: JoinState, k: nat) -> JoinState
    decreases k,
{
    if k == 0 {
        s
    } else {
        after_failures(join_step_spec(s, JoinOutcome::Failure).0, (k - 1) as nat)
    }
}

/// Three failures are retried after 2, 4 and 8 seconds, and a success then
/// joins the room.
pub proof fn lemma_three_failures_then_success()
    ensures
        ({
            let s0 = JoinState::Joining { delay_secs: 2 };
            let (s1, a1) = join_step_spec(s0, JoinOutcome::Failure);
            let (s2, a2) = join_step_spec(s1, JoinOutcome::Failure);
            let (s3, a3) = join_step_spec(s2, JoinOutcome::Failure);
            let (s4, a4) = join_step_spec(s3, JoinOutcome::Success);
            &&& a1 == JoinAction::RetryAfter { wait_secs: 2 }
            &&& a2 == JoinAction::RetryAfter { wait_secs: 4 }
            &&& a3 == JoinAction::RetryAfter { wait_secs: 8 }
            &&& s4 == JoinState::Joined
        }),
{
}

/// Under unbroken failure the retrier abandons after the eleventh attempt,
/// when the next delay (4096 seconds) would exceed the ceiling; until then
/// it is still retrying, with the delay at 2048 seconds after the tenth.
pub proof fn lemma_abandons_at_ceiling()
    ensures
        after_failures(JoinState::Joining { delay_secs: 2 }, 10) == (JoinState::Joining {
            delay_secs: 2048,
        }),
        after_failures(JoinState::Joining { delay_secs: 2 }, 11) == JoinState::Abandoned,
{
    reveal_with_fuel(after_failures, 13);
}

/// Once abandoned, the retrier never attempts again: every further outcome
/// leaves it abandoned with nothing to do.
pub proof fn lemma_abandoned_is_final(outcome: JoinOutcome)
    ensures
        join_step_spec(JoinState::Abandoned, outcome) == (JoinState::Abandoned, JoinAction::Stop),
{
}

} // verus!
