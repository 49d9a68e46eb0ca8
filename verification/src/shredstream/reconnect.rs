//! The subscription loop's reconnect policy: a bounded number of
//! consecutive attempts and an exponential back-off capped at one minute.
//! The loop that connects, streams and sleeps runs outside this crate; it asks
//! [`next_action`] before each attempt and reports each outcome to
//! [`after_stream`].

use vstd::arithmetic::power2::{lemma_pow2, lemma_pow2_pos, lemma_pow2_unfold, pow2};
use vstd::prelude::*;

verus! {

/// Longest back-off between attempts, in milliseconds.
pub const MAX_RECONNECT_DELAY_MS: u64 = 60_000;

/// The reconnect settings of a client.
#[derive(Clone, Copy, Debug, PartialEq, Eq)]
pub struct ReconnectPolicy {
    /// Back-off after the first failure, and after every clean end of stream.
    pub reconnect_delay_ms: u64,
    /// Consecutive attempts allowed; 0 means no limit.
    pub max_reconnect_attempts: u32,
}

/// Where the loop stands.
#[derive(Clone, Copy, Debug, PartialEq, Eq)]
pub struct ReconnectState {
    /// Back-off to sleep after the next failure.
    pub delay_ms: u64,
    /// Attempts since the last clean end of stream.
    pub attempts: u32,
}

/// What the loop does next.
#[derive(Clone, Copy, Debug, PartialEq, Eq)]
pub enum ReconnectAction {
    /// Connect and stream.
    Connect,
    /// Stop: the attempt limit is reached.
    GiveUp,
}

/// How a streaming attempt ended.
#[derive(Clone, Copy, Debug, PartialEq, Eq)]
pub enum StreamOutcome {
    /// The stream ended without error.
    Ended,
    /// Connecting or streaming failed.
    Failed,
}

/// The state before the first attempt.
pub fn initial_state(policy: ReconnectPolicy) -> (s: ReconnectState)
    ensures
        s == initial_state_spec(policy),
{
    ReconnectState { delay_ms: policy.reconnect_delay_ms, attempts: 0 }
}

/// The attempt limit is reached.
pub open spec fn limit_reached(policy: ReconnectPolicy, state: ReconnectState) -> bool {
    policy.max_reconnect_attempts > 0 && state.attempts >= policy.max_reconnect_attempts
}

/// The decision before an attempt: give up at the limit, else connect and
/// count the attempt (the count saturates at `u32::MAX`).
pub open spec fn spec_next_action(policy: ReconnectPolicy, state: ReconnectState) -> (ReconnectAction, ReconnectState) {
    if limit_reached(policy, state) {
        (ReconnectAction::GiveUp, state)
    } else {
        (
            ReconnectAction::Connect,
            ReconnectState {
                delay_ms: state.delay_ms,
                attempts: if state.attempts == u32::MAX { u32::MAX } else { (state.attempts + 1) as u32 },
            },
        )
    }
}

/// Decides whether to make another attempt, and counts it.
pub fn next_action(policy: ReconnectPolicy, state: ReconnectState) -> (r: (ReconnectAction, ReconnectState))
    ensures
        r == spec_next_action(policy, state),
{
    if policy.max_reconnect_attempts > 0 && state.attempts >= policy.max_reconnect_attempts {
        (ReconnectAction::GiveUp, state)
    } else {
        (
            ReconnectAction::Connect,
            ReconnectState { delay_ms: state.delay_ms, attempts: state.attempts.saturating_add(1) },
        )
    }
}

/// The doubled back-off, capped at [`MAX_RECONNECT_DELAY_MS`].
pub open spec fn backoff(delay_ms: u64) -> u64 {
    if 2 * delay_ms <= MAX_RECONNECT_DELAY_MS {
        (2 * delay_ms) as u64
    } else {
        MAX_RECONNECT_DELAY_MS
    }
}

/// The state after an attempt, and the sleep before the next one.
pub open spec fn spec_after_stream(policy: ReconnectPolicy, state: ReconnectState, outcome: StreamOutcome) -> (ReconnectState, u64) {
    match outcome {
        StreamOutcome::Ended => (initial_state_spec(policy), 0),
        StreamOutcome::Failed => (
            ReconnectState { delay_ms: backoff(state.delay_ms), attempts: state.attempts },
            state.delay_ms,
        ),
    }
}

/// Updates the state after an attempt and says how long to sleep before the
/// next one: a clean end resets the back-off and the attempt count and
/// sleeps not at all; a failure sleeps the current back-off and doubles it,
/// up to one minute.
pub fn after_stream(policy: ReconnectPolicy, state: ReconnectState, outcome: StreamOutcome) -> (r: (ReconnectState, u64))
    ensures
        r == spec_after_stream(policy, state, outcome),
{
    match outcome {
        StreamOutcome::Ended => (ReconnectState { delay_ms: policy.reconnect_delay_ms, attempts: 0 }, 0),
        StreamOutcome::Failed => {
            let next = if state.delay_ms <= MAX_RECONNECT_DELAY_MS / 2 {
                state.delay_ms * 2
            } else {
                MAX_RECONNECT_DELAY_MS
            };
            (ReconnectState { delay_ms: next, attempts: state.attempts }, state.delay_ms)
        },
    }
}

/// The state before the first attempt.
pub open spec fn initial_state_spec(policy: ReconnectPolicy) -> ReconnectState {
    ReconnectState { delay_ms: policy.reconnect_delay_ms, attempts: 0 }
}

/// The state after `k` rounds in which the loop connects and the attempt
/// fails.
pub open spec fn after_failed_rounds(policy: ReconnectPolicy, state: ReconnectState, k: nat) -> ReconnectState
    decreases k,
{
    if k == 0 {
        state
    } else {
        let before = after_failed_rounds(policy, state, (k - 1) as nat);
        spec_after_stream(policy, spec_next_action(policy, before).1, StreamOutcome::Failed).0
    }
}

/// From a fresh start, each failed round doubles the back-off, up to one
/// minute: after `k >= 1` failures it is `min(delay * 2^k, 60000)`.
pub proof fn law_backoff_doubles_up_to_a_minute(policy: ReconnectPolicy, k: nat)
    requires
        k >= 1,
    ensures
        after_failed_rounds(policy, initial_state_spec(policy), k).delay_ms == if policy.reconnect_delay_ms
            * pow2(k) <= MAX_RECONNECT_DELAY_MS {
            policy.reconnect_delay_ms * pow2(k)
        } else {
            MAX_RECONNECT_DELAY_MS as int
        },
    decreases k,
{
    let d = policy.reconnect_delay_ms as int;
    lemma_pow2_unfold(k);
    lemma_pow2_pos((k - 1) as nat);
    let init = initial_state_spec(policy);
    let prev = after_failed_rounds(policy, init, (k - 1) as nat);
    assert(spec_next_action(policy, prev).1.delay_ms == prev.delay_ms);
    assert(after_failed_rounds(policy, init, k).delay_ms == backoff(prev.delay_ms));
    if k == 1 {
        assert(pow2(0) == 1) by {
            lemma_pow2(0);
            reveal(vstd::arithmetic::power::pow);
        }
        assert(d * pow2(1) == 2 * d) by (nonlinear_arith)
            requires
                pow2(1) == 2,
        ;
    } else {
        law_backoff_doubles_up_to_a_minute(policy, (k - 1) as nat);
        let p = pow2((k - 1) as nat);
        assert(d * pow2(k) == 2 * (d * p)) by (nonlinear_arith)
            requires
                pow2(k) == 2 * p,
        ;
        assert(d * p >= 0) by (nonlinear_arith)
            requires
                d >= 0,
                p >= 0,
        ;
    }
}

/// From a fresh start with an attempt limit `m`, the loop connects in each
/// of the first `m` rounds of failures and gives up right after the `m`-th:
/// after `k <= m` failed rounds, `k` attempts are counted, and the limit is
/// reached exactly when `k == m`.
pub proof fn law_gives_up_after_max_attempts(policy: ReconnectPolicy, k: nat)
    requires
        policy.max_reconnect_attempts > 0,
        k <= policy.max_reconnect_attempts,
    ensures
        after_failed_rounds(policy, initial_state_spec(policy), k).attempts == k,
        limit_reached(policy, after_failed_rounds(policy, initial_state_spec(policy), k)) <==> k
            == policy.max_reconnect_attempts,
    decreases k,
{
    if k > 0 {
        law_gives_up_after_max_attempts(policy, (k - 1) as nat);
    }
}

/// A clean end of stream resets the loop to its initial state, with no
/// sleep.
pub proof fn law_clean_end_resets(policy: ReconnectPolicy, state: ReconnectState)
    ensures
        spec_after_stream(policy, state, StreamOutcome::Ended) == (initial_state_spec(policy), 0u64),
        spec_after_stream(policy, state, StreamOutcome::Ended).0.delay_ms == policy.reconnect_delay_ms,
        spec_after_stream(policy, state, StreamOutcome::Ended).0.attempts == 0,
        spec_after_stream(policy, state, StreamOutcome::Ended).1 == 0,
{
}

/// The loop starts with the configured back-off and no attempts counted.
pub proof fn law_fresh_start(policy: ReconnectPolicy)
    ensures
        initial_state_spec(policy).delay_ms == policy.reconnect_delay_ms,
        initial_state_spec(policy).attempts == 0,
{
}

/// Before an attempt the loop gives up exactly when an attempt limit is set
/// and that many attempts are counted; otherwise it connects, counts one
/// more attempt (at most `u32::MAX`) and keeps the back-off.
pub proof fn law_next_action_decides_on_the_limit(policy: ReconnectPolicy, state: ReconnectState)
    ensures
        (spec_next_action(policy, state).0 == ReconnectAction::GiveUp) <==> (policy.max_reconnect_attempts
            > 0 && state.attempts >= policy.max_reconnect_attempts),
        spec_next_action(policy, state).0 == ReconnectAction::GiveUp ==> spec_next_action(policy, state).1
            == state,
        spec_next_action(policy, state).0 == ReconnectAction::Connect ==> spec_next_action(
            policy,
            state,
        ).1.delay_ms == state.delay_ms && spec_next_action(policy, state).1.attempts == (if state.attempts
            < u32::MAX {
            state.attempts + 1
        } else {
            u32::MAX as int
        }),
{
}

/// After a failed attempt the loop sleeps the back-off in force, whatever
/// the attempt limit, keeps the attempt count, and doubles the back-off up
/// to one minute.
pub proof fn law_failure_sleeps_current_backoff(policy: ReconnectPolicy, state: ReconnectState)
    ensures
        spec_after_stream(policy, state, StreamOutcome::Failed).1 == state.delay_ms,
        spec_after_stream(policy, state, StreamOutcome::Failed).0.attempts == state.attempts,
        spec_after_stream(policy, state, StreamOutcome::Failed).0.delay_ms == (if 2 * state.delay_ms
            <= MAX_RECONNECT_DELAY_MS {
            2 * state.delay_ms
        } else {
            MAX_RECONNECT_DELAY_MS as int
        }),
{
}

/// The sleep after the `k`-th failure in a row from a fresh start.
pub open spec fn sleep_after_failures(policy: ReconnectPolicy, k: nat) -> u64 {
    let before = after_failed_rounds(policy, initial_state_spec(policy), (k - 1) as nat);
    spec_after_stream(policy, spec_next_action(policy, before).1, StreamOutcome::Failed).1
}

/// From a fresh start, the loop sleeps the configured delay after the first
/// failure and `min(delay * 2^(k-1), 60000)` ms after the `k`-th, whatever
/// the attempt limit.
pub proof fn law_sleep_after_kth_failure(policy: ReconnectPolicy, k: nat)
    requires
        k >= 1,
    ensures
        sleep_after_failures(policy, k) == if k == 1 {
            policy.reconnect_delay_ms as int
        } else if policy.reconnect_delay_ms * pow2((k - 1) as nat) <= MAX_RECONNECT_DELAY_MS {
            policy.reconnect_delay_ms * pow2((k - 1) as nat)
        } else {
            MAX_RECONNECT_DELAY_MS as int
        },
{
    let before = after_failed_rounds(policy, initial_state_spec(policy), (k - 1) as nat);
    assert(spec_next_action(policy, before).1.delay_ms == before.delay_ms);
    law_failure_sleeps_current_backoff(policy, spec_next_action(policy, before).1);
    if k > 1 {
        law_backoff_doubles_up_to_a_minute(policy, (k - 1) as nat);
    }
}

} // verus!
