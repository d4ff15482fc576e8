//! Readiness detection: the decisions of the loop that polls the port.

use crate::text::{decimal, push_decimal};
use vstd::prelude::*;
use vstd::string::StringExecFns;

verus! {

/// How long and how often the port is polled.
#[derive(Debug, Clone, Copy, PartialEq, Eq, Structural)]
pub struct ReadinessPolicy {
    /// The wait is given up once this many seconds have passed.
    pub timeout_seconds: u64,
    /// The pause after a probe that found the port closed.
    pub poll_interval_ms: u64,
    /// The longest that one connection attempt may take.
    pub connect_timeout_ms: u64,
}

/// The sidecar was spawned but did not accept connections in time.
#[derive(Debug, Clone, Copy, PartialEq, Eq, Structural)]
pub struct ReadinessTimeout {
    pub port: u16,
    pub timeout_seconds: u64,
}

/// What the loop does at the top of a round.
#[derive(Debug, Clone, Copy, PartialEq, Eq, Structural)]
pub enum PollDecision {
    /// Try to connect, for at most this long.
    Probe { connect_timeout_ms: u64 },
    /// Give the wait up.
    TimedOut(ReadinessTimeout),
}

/// What the loop does after a probe.
#[derive(Debug, Clone, Copy, PartialEq, Eq, Structural)]
pub enum ProbeDecision {
    /// The port accepted a connection: the sidecar is ready.
    Ready,
    /// The port is closed: pause, then start the next round.
    Sleep { ms: u64 },
}

/// Ten seconds of waiting, a probe every 100 ms, 100 ms for each probe.
pub open spec fn default_policy_spec() -> ReadinessPolicy {
    ReadinessPolicy { timeout_seconds: 10, poll_interval_ms: 100, connect_timeout_ms: 100 }
}

/// The timeout of a policy in milliseconds.
pub open spec fn timeout_ms(policy: ReadinessPolicy) -> int {
    policy.timeout_seconds * 1000
}

/// A round begins with a probe as long as the time passed is under the
/// timeout, and with giving up from then on.
pub open spec fn next_poll_spec(port: u16, policy: ReadinessPolicy, elapsed_ms: u64) -> PollDecision {
    if elapsed_ms < timeout_ms(policy) {
        PollDecision::Probe { connect_timeout_ms: policy.connect_timeout_ms }
    } else {
        PollDecision::TimedOut(ReadinessTimeout { port, timeout_seconds: policy.timeout_seconds })
    }
}

pub open spec fn after_probe_spec(policy: ReadinessPolicy, connected: bool) -> ProbeDecision {
    if connected {
        ProbeDecision::Ready
    } else {
        ProbeDecision::Sleep { ms: policy.poll_interval_ms }
    }
}

/// How the wait ends on an ideal clock, on which a probe takes no time and
/// a pause lasts exactly as long as asked: whether the sidecar was found
/// ready, and when. The round at hand begins at `now`; the port accepts
/// connections from `opens_at` on, or never.
pub open spec fn wait_outcome(
    port: u16,
    policy: ReadinessPolicy,
    opens_at: Option<int>,
    now: int,
) -> (bool, int)
    decreases
        if now < timeout_ms(policy) {
            timeout_ms(policy) - now
        } else {
            0
        },
{
    if 0 <= now <= u64::MAX && policy.poll_interval_ms > 0 {
        match next_poll_spec(port, policy, now as u64) {
            PollDecision::TimedOut(_) => (false, now),
            PollDecision::Probe { .. } => match after_probe_spec(
                policy,
                opens_at is Some && opens_at->0 <= now,
            ) {
                ProbeDecision::Ready => (true, now),
                ProbeDecision::Sleep { ms } => wait_outcome(port, policy, opens_at, now + ms),
            },
        }
    } else {
        (false, now)
    }
}

/// The text of a timeout: it names the port and the time waited.
pub open spec fn timeout_message_spec(timeout: ReadinessTimeout) -> Seq<char> {
    "Timeout waiting for sidecar to be ready on port "@ + decimal(timeout.port as nat)
        + " after "@ + decimal(timeout.timeout_seconds as nat) + " seconds"@
}

/// The recommended policy.
pub fn default_policy() -> (policy: ReadinessPolicy)
    ensures
        policy == default_policy_spec(),
{
    ReadinessPolicy { timeout_seconds: 10, poll_interval_ms: 100, connect_timeout_ms: 100 }
}

/// Decides, from the time passed since the wait began, whether to probe
/// once more or to give up.
pub fn next_poll(port: u16, policy: &ReadinessPolicy, elapsed_ms: u64) -> (decision: PollDecision)
    ensures
        decision == next_poll_spec(port, *policy, elapsed_ms),
        decision is TimedOut <==> elapsed_ms >= timeout_ms(*policy),
{
    if elapsed_ms / 1000 < policy.timeout_seconds {
        PollDecision::Probe { connect_timeout_ms: policy.connect_timeout_ms }
    } else {
        PollDecision::TimedOut(ReadinessTimeout { port, timeout_seconds: policy.timeout_seconds })
    }
}

/// Decides what follows a probe that did or did not connect.
pub fn after_probe(policy: &ReadinessPolicy, connected: bool) -> (decision: ProbeDecision)
    ensures
        decision == after_probe_spec(*policy, connected),
{
    if connected {
        ProbeDecision::Ready
    } else {
        ProbeDecision::Sleep { ms: policy.poll_interval_ms }
    }
}

impl ReadinessTimeout {
    /// The message shown for this failure.
    pub fn message(&self) -> (text: String)
        ensures
            text@ == timeout_message_spec(*self),
    {
        let mut text = "Timeout waiting for sidecar to be ready on port ".to_owned();
        push_decimal(&mut text, self.port as u64);
        text.append(" after ");
        push_decimal(&mut text, self.timeout_seconds);
        text.append(" seconds");
        text
    }
}

/// A wait never fails before the timeout has passed, and always fails once
/// it has.
pub proof fn lemma_timeout_not_earlier(port: u16, policy: ReadinessPolicy, elapsed_ms: u64)
    ensures
        next_poll_spec(port, policy, elapsed_ms) is TimedOut <==> elapsed_ms >= timeout_ms(policy),
        next_poll_spec(port, policy, elapsed_ms) is TimedOut ==> next_poll_spec(
            port,
            policy,
            elapsed_ms,
        ) == PollDecision::TimedOut(
            ReadinessTimeout { port, timeout_seconds: policy.timeout_seconds },
        ),
{
}

/// On an ideal clock the wait ends ready at the first probe at which the
/// port is open, less than one poll interval after it opened, or it ends
/// with a timeout, not before the timeout has passed and less than one
/// poll interval after it. It ends ready whenever the port opens at least
/// one interval before the timeout, and never when the port never opens.
pub proof fn lemma_wait_outcome(
    port: u16,
    policy: ReadinessPolicy,
    opens_at: Option<int>,
    now: int,
)
    requires
        policy.poll_interval_ms > 0,
        timeout_ms(policy) + policy.poll_interval_ms <= u64::MAX,
        0 <= now,
        now - policy.poll_interval_ms < timeout_ms(policy),
        opens_at is Some ==> now - policy.poll_interval_ms < opens_at->0,
    ensures
        ({
            let (ready, at) = wait_outcome(port, policy, opens_at, now);
            &&& now <= at
            &&& ready ==> opens_at is Some && opens_at->0 <= at < opens_at->0
                + policy.poll_interval_ms && at < timeout_ms(policy)
            &&& !ready ==> timeout_ms(policy) <= at < timeout_ms(policy) + policy.poll_interval_ms
            &&& opens_at is None ==> !ready
            &&& opens_at is Some && opens_at->0 + policy.poll_interval_ms <= timeout_ms(policy)
                ==> ready
        }),
    decreases
        if now < timeout_ms(policy) {
            timeout_ms(policy) - now
        } else {
            0
        },
{
    if now < timeout_ms(policy) && !(opens_at is Some && opens_at->0 <= now) {
        lemma_wait_outcome(port, policy, opens_at, now + policy.poll_interval_ms);
    }
}

} // verus!
