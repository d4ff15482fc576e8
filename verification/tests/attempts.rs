use sidecar_supervisor::attempt::{begin, step, StartAction, StartEvent, StartPhase};
use sidecar_supervisor::launch::{LaunchAttempt, SpawnError, SpawnResult, StartError};
use sidecar_supervisor::mode::LaunchMode;
use sidecar_supervisor::readiness::{default_policy, ReadinessTimeout};

// Drives an attempt to its end. `spawns` answers the spawns in turn; the
// port accepts connections from `opens_at` on; pauses last as long as
// asked and nothing else takes time. Returns the last action, the time at
// which it came and the number of spawns asked for.
fn drive(
    primary: LaunchMode,
    spawns: Vec<SpawnResult>,
    opens_at: Option<u64>,
) -> (StartAction, u64, usize) {
    let policy = default_policy();
    let mut answers = spawns.into_iter();
    let mut asked = 0;
    let mut now: u64 = 0;
    let (mut phase, mut action) = begin(primary);
    loop {
        let event = match action {
            StartAction::Spawn(_) => {
                asked += 1;
                StartEvent::SpawnAnswered(answers.next().expect("one answer for each spawn"))
            }
            StartAction::Relay { .. } => StartEvent::ClockRead { elapsed_ms: now },
            StartAction::Probe { connect_timeout_ms } => {
                assert_eq!(connect_timeout_ms, 100);
                StartEvent::Probed { connected: opens_at.map_or(false, |at| now >= at) }
            }
            StartAction::Sleep { ms } => {
                now += ms;
                StartEvent::ClockRead { elapsed_ms: now }
            }
            last => {
                assert_eq!(phase, StartPhase::Finished);
                return (last, now, asked);
            }
        };
        let next = step(phase, event, 9528, &policy);
        phase = next.0;
        action = next.1;
    }
}

#[test]
fn attempt_begins_with_the_first_variant() {
    assert_eq!(
        begin(LaunchMode::InterpretedScript),
        (
            StartPhase::Launching(LaunchAttempt {
                primary: LaunchMode::InterpretedScript,
                primary_failure: None
            }),
            StartAction::Spawn(LaunchMode::InterpretedScript)
        )
    );
}

#[test]
fn attempt_stores_the_child_once_the_port_opens() {
    let (last, at, asked) =
        drive(LaunchMode::CompiledBinary, vec![SpawnResult::Spawned(900)], Some(3000));
    assert_eq!(last, StartAction::Store { child: 900, mode: LaunchMode::CompiledBinary });
    assert_eq!(at, 3000);
    assert_eq!(asked, 1);
    let (last, at, _) =
        drive(LaunchMode::CompiledBinary, vec![SpawnResult::Spawned(900)], Some(2950));
    assert_eq!(last, StartAction::Store { child: 900, mode: LaunchMode::CompiledBinary });
    assert_eq!(at, 3000);
    let (last, at, _) = drive(LaunchMode::CompiledBinary, vec![SpawnResult::Spawned(900)], Some(0));
    assert_eq!(last, StartAction::Store { child: 900, mode: LaunchMode::CompiledBinary });
    assert_eq!(at, 0);
}

#[test]
fn attempt_falls_back_to_the_other_variant() {
    let (last, _, asked) = drive(
        LaunchMode::CompiledBinary,
        vec![SpawnResult::Failed("no binary".to_string()), SpawnResult::Spawned(31)],
        Some(200),
    );
    assert_eq!(last, StartAction::Store { child: 31, mode: LaunchMode::InterpretedScript });
    assert_eq!(asked, 2);
}

#[test]
fn attempt_fails_when_both_spawns_fail() {
    let (last, at, asked) = drive(
        LaunchMode::InterpretedScript,
        vec![
            SpawnResult::Failed("no interpreter".to_string()),
            SpawnResult::Failed("no binary".to_string()),
        ],
        Some(0),
    );
    assert_eq!(
        last,
        StartAction::Fail(StartError::Spawn(SpawnError {
            primary: "no interpreter".to_string(),
            fallback: "no binary".to_string(),
        }))
    );
    assert_eq!(at, 0);
    assert_eq!(asked, 2);
}

#[test]
fn attempt_times_out_when_the_port_never_opens() {
    let (last, at, asked) = drive(LaunchMode::CompiledBinary, vec![SpawnResult::Spawned(5)], None);
    assert_eq!(
        last,
        StartAction::Fail(StartError::ReadinessTimeout(ReadinessTimeout {
            port: 9528,
            timeout_seconds: 10
        }))
    );
    assert_eq!(at, 10000);
    assert_eq!(asked, 1);
    let (last, _, _) =
        drive(LaunchMode::CompiledBinary, vec![SpawnResult::Spawned(5)], Some(10000));
    assert!(matches!(last, StartAction::Fail(StartError::ReadinessTimeout(_))));
}

#[test]
fn attempt_steps_one_by_one() {
    let policy = default_policy();
    let (phase, action) = begin(LaunchMode::CompiledBinary);
    assert_eq!(action, StartAction::Spawn(LaunchMode::CompiledBinary));
    let (phase, action) =
        step(phase, StartEvent::SpawnAnswered(SpawnResult::Spawned(12)), 9528, &policy);
    assert_eq!(phase, StartPhase::AwaitingClock { child: 12, mode: LaunchMode::CompiledBinary });
    assert_eq!(action, StartAction::Relay { child: 12 });
    let (phase, action) = step(phase, StartEvent::ClockRead { elapsed_ms: 0 }, 9528, &policy);
    assert_eq!(phase, StartPhase::AwaitingProbe { child: 12, mode: LaunchMode::CompiledBinary });
    assert_eq!(action, StartAction::Probe { connect_timeout_ms: 100 });
    let (phase, action) = step(phase, StartEvent::Probed { connected: false }, 9528, &policy);
    assert_eq!(phase, StartPhase::AwaitingClock { child: 12, mode: LaunchMode::CompiledBinary });
    assert_eq!(action, StartAction::Sleep { ms: 100 });
    let (phase, action) = step(phase, StartEvent::ClockRead { elapsed_ms: 100 }, 9528, &policy);
    assert_eq!(action, StartAction::Probe { connect_timeout_ms: 100 });
    let (phase, action) = step(phase, StartEvent::Probed { connected: true }, 9528, &policy);
    assert_eq!(phase, StartPhase::Finished);
    assert_eq!(action, StartAction::Store { child: 12, mode: LaunchMode::CompiledBinary });
}

#[test]
fn attempt_drops_events_it_did_not_ask_for() {
    let policy = default_policy();
    let (phase, _) = begin(LaunchMode::CompiledBinary);
    let (phase, action) = step(phase, StartEvent::Probed { connected: true }, 9528, &policy);
    assert_eq!(action, StartAction::Ignore);
    assert_eq!(
        phase,
        StartPhase::Launching(LaunchAttempt {
            primary: LaunchMode::CompiledBinary,
            primary_failure: None
        })
    );
    let (phase, action) = step(phase, StartEvent::ClockRead { elapsed_ms: 20000 }, 9528, &policy);
    assert_eq!(action, StartAction::Ignore);
    let (phase, _) =
        step(phase, StartEvent::SpawnAnswered(SpawnResult::Spawned(1)), 9528, &policy);
    let (phase, action) =
        step(phase, StartEvent::SpawnAnswered(SpawnResult::Spawned(2)), 9528, &policy);
    assert_eq!(action, StartAction::Ignore);
    assert_eq!(phase, StartPhase::AwaitingClock { child: 1, mode: LaunchMode::CompiledBinary });
    let (phase, action) = step(StartPhase::Finished, StartEvent::Probed { connected: true }, 9528, &policy);
    assert_eq!((phase, action), (StartPhase::Finished, StartAction::Ignore));
}
