//! One start attempt as a state machine: the caller spawns, probes and
//! sleeps, and reports what happened; the machine decides what comes next.

use crate::launch::{LaunchAttempt, LaunchStep, SpawnResult, StartError};
use crate::mode::LaunchMode;
use crate::readiness::{
    after_probe, after_probe_spec, next_poll, next_poll_spec, timeout_ms, PollDecision,
    ProbeDecision, ReadinessPolicy,
};
use vstd::prelude::*;

verus! {

/// Where a start attempt stands.
#[derive(Debug, PartialEq, Eq)]
pub enum StartPhase {
    /// A spawn was asked for and its answer is awaited.
    Launching(LaunchAttempt),
    /// The child runs; the time since the wait began is awaited.
    AwaitingClock { child: u32, mode: LaunchMode },
    /// The child runs; the answer of a probe is awaited.
    AwaitingProbe { child: u32, mode: LaunchMode },
    /// The attempt has ended, with `Store` or with `Fail`.
    Finished,
}

/// What the caller reports.
#[derive(Debug, PartialEq, Eq)]
pub enum StartEvent {
    /// The answer to a spawn.
    SpawnAnswered(SpawnResult),
    /// The time that has passed since the wait for readiness began.
    ClockRead { elapsed_ms: u64 },
    /// Whether a probe of the port connected.
    Probed { connected: bool },
}

/// What the caller is asked to do next.
#[derive(Debug, PartialEq, Eq)]
pub enum StartAction {
    /// Spawn this variant and report the answer.
    Spawn(LaunchMode),
    /// Begin to relay the output of the child, without waiting for it;
    /// then start the clock of the wait and report it.
    Relay { child: u32 },
    /// Try to connect to the port, for at most this long, and report
    /// whether that succeeded.
    Probe { connect_timeout_ms: u64 },
    /// Pause for this long, then report the clock.
    Sleep { ms: u64 },
    /// The sidecar is ready: store the handle of this child.
    Store { child: u32, mode: LaunchMode },
    /// The attempt failed: give it up and hand the error on.
    Fail(StartError),
    /// The event answers nothing that was asked; it is dropped and the
    /// phase stays as it was.
    Ignore,
}

/// The first step of an attempt: the first variant is spawned.
pub open spec fn begin_spec(primary: LaunchMode) -> (StartPhase, StartAction) {
    (
        StartPhase::Launching(LaunchAttempt { primary, primary_failure: None }),
        StartAction::Spawn(primary),
    )
}

/// The transitions. Spawning follows the fallback chain; once a child
/// runs its output is relayed and the port is polled: each round reads the
/// clock, gives up when the timeout has passed, probes otherwise, and ends
/// the attempt when the probe connects or pauses when it does not.
pub open spec fn step_spec(
    phase: StartPhase,
    event: StartEvent,
    port: u16,
    policy: ReadinessPolicy,
) -> (StartPhase, StartAction) {
    match (phase, event) {
        (StartPhase::Launching(attempt), StartEvent::SpawnAnswered(result)) => match attempt.advance_spec(
            result,
        ) {
            LaunchStep::Retry(next) => (
                StartPhase::Launching(next),
                StartAction::Spawn(next.mode_spec()),
            ),
            LaunchStep::Launched { child, mode } => (
                StartPhase::AwaitingClock { child, mode },
                StartAction::Relay { child },
            ),
            LaunchStep::Failed(error) => (
                StartPhase::Finished,
                StartAction::Fail(StartError::Spawn(error)),
            ),
        },
        (StartPhase::AwaitingClock { child, mode }, StartEvent::ClockRead { elapsed_ms }) => match next_poll_spec(
            port,
            policy,
            elapsed_ms,
        ) {
            PollDecision::Probe { connect_timeout_ms } => (
                StartPhase::AwaitingProbe { child, mode },
                StartAction::Probe { connect_timeout_ms },
            ),
            PollDecision::TimedOut(timeout) => (
                StartPhase::Finished,
                StartAction::Fail(StartError::ReadinessTimeout(timeout)),
            ),
        },
        (StartPhase::AwaitingProbe { child, mode }, StartEvent::Probed { connected }) => match after_probe_spec(
            policy,
            connected,
        ) {
            ProbeDecision::Ready => (StartPhase::Finished, StartAction::Store { child, mode }),
            ProbeDecision::Sleep { ms } => (
                StartPhase::AwaitingClock { child, mode },
                StartAction::Sleep { ms },
            ),
        },
        (phase, _) => (phase, StartAction::Ignore),
    }
}

/// Begins a start attempt with the variant `primary`.
pub fn begin(primary: LaunchMode) -> (first: (StartPhase, StartAction))
    ensures
        first == begin_spec(primary),
{
    (StartPhase::Launching(LaunchAttempt::new(primary)), StartAction::Spawn(primary))
}

/// Takes what the caller reports and says what comes next.
pub fn step(phase: StartPhase, event: StartEvent, port: u16, policy: &ReadinessPolicy) -> (next: (
    StartPhase,
    StartAction,
))
    ensures
        next == step_spec(phase, event, port, *policy),
{
    match (phase, event) {
        (StartPhase::Launching(attempt), StartEvent::SpawnAnswered(result)) => {
            match attempt.advance(result) {
                LaunchStep::Retry(next) => {
                    let mode = next.mode();
                    (StartPhase::Launching(next), StartAction::Spawn(mode))
                },
                LaunchStep::Launched { child, mode } => (
                    StartPhase::AwaitingClock { child, mode },
                    StartAction::Relay { child },
                ),
                LaunchStep::Failed(error) => (
                    StartPhase::Finished,
                    StartAction::Fail(StartError::Spawn(error)),
                ),
            }
        },
        (StartPhase::AwaitingClock { child, mode }, StartEvent::ClockRead { elapsed_ms }) => {
            match next_poll(port, policy, elapsed_ms) {
                PollDecision::Probe { connect_timeout_ms } => (
                    StartPhase::AwaitingProbe { child, mode },
                    StartAction::Probe { connect_timeout_ms },
                ),
                PollDecision::TimedOut(timeout) => (
                    StartPhase::Finished,
                    StartAction::Fail(StartError::ReadinessTimeout(timeout)),
                ),
            }
        },
        (StartPhase::AwaitingProbe { child, mode }, StartEvent::Probed { connected }) => {
            match after_probe(policy, connected) {
                ProbeDecision::Ready => (StartPhase::Finished, StartAction::Store { child, mode }),
                ProbeDecision::Sleep { ms } => (
                    StartPhase::AwaitingClock { child, mode },
                    StartAction::Sleep { ms },
                ),
            }
        },
        (phase, _) => (phase, StartAction::Ignore),
    }
}

/// A handle is stored only on a probe that connected, and the attempt
/// fails only when both spawns failed or when the clock shows that the
/// timeout has passed, never earlier.
pub proof fn lemma_how_an_attempt_ends(
    phase: StartPhase,
    event: StartEvent,
    port: u16,
    policy: ReadinessPolicy,
)
    ensures
        step_spec(phase, event, port, policy).1 is Store ==> phase is AwaitingProbe && event
            == (StartEvent::Probed { connected: true }),
        step_spec(phase, event, port, policy).1 is Fail ==> {
            ||| phase is Launching && phase->Launching_0.primary_failure is Some && event
                is SpawnAnswered && event->SpawnAnswered_0 is Failed
            ||| phase is AwaitingClock && event is ClockRead && event->elapsed_ms >= timeout_ms(
                policy,
            )
        },
        step_spec(phase, event, port, policy).1 is Spawn ==> phase is Launching
            && phase->Launching_0.primary_failure is None,
{
}

} // verus!
