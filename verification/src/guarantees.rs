//! What holds of the supervisor as a whole, stated over the models of its
//! parts.

use crate::launch::{spawn_message_spec, LaunchAttempt, LaunchStep, SpawnError, SpawnResult};
use crate::mode::{alternate_spec, LaunchMode};
use crate::readiness::{
    next_poll_spec, timeout_message_spec, timeout_ms, PollDecision, ReadinessPolicy,
    ReadinessTimeout,
};
use crate::registry::{
    Admission, LifecycleState, RegistryModel, SidecarHandle, StopPlan, SIDECAR_PORT,
};
use crate::text::{contains, decimal, lemma_contains_piece};
use vstd::prelude::*;

verus! {

/// Every transition of the slot keeps it well formed: a handle is held
/// exactly while running, so at most one child is owned at any time.
pub proof fn lemma_slot_stays_well_formed(
    slot: RegistryModel,
    port_occupied: bool,
    child: u32,
    mode: LaunchMode,
)
    requires
        slot.wf(),
    ensures
        RegistryModel::idle().wf(),
        slot.after_begin_start(port_occupied).wf(),
        slot.after_complete_start(child, mode).wf(),
        slot.after_abort_start().wf(),
        slot.after_begin_stop().wf(),
        slot.after_finish_stop().wf(),
{
}

/// Start is idempotent: once a start has been admitted and completed, a
/// second start without a stop in between is told the same port, whatever
/// a probe of the port says, and is not admitted, so that one process is
/// spawned in all. The same holds while the first start is still under way.
pub proof fn lemma_second_start_spawns_nothing(
    slot: RegistryModel,
    child: u32,
    mode: LaunchMode,
    port_occupied: bool,
)
    requires
        slot.wf(),
        slot.state == LifecycleState::Idle,
    ensures
        slot.admission(false) == Admission::Proceed(SIDECAR_PORT),
        ({
            let starting = slot.after_begin_start(false);
            &&& starting.admission(port_occupied) == Admission::InProgress(SIDECAR_PORT)
            &&& starting.after_begin_start(port_occupied) == starting
        }),
        ({
            let running = slot.after_begin_start(false).after_complete_start(child, mode);
            &&& running.handle == Some(SidecarHandle { child, port: SIDECAR_PORT, mode })
            &&& running.admission(port_occupied) == Admission::AlreadyServing(SIDECAR_PORT)
            &&& running.after_begin_start(port_occupied) == running
        }),
{
}

/// A start that finds the port occupied is never admitted and changes
/// nothing; on an idle slot it is told at once that the port is served.
pub proof fn lemma_occupied_port_short_circuits(slot: RegistryModel)
    requires
        slot.wf(),
    ensures
        !(slot.admission(true) is Proceed),
        slot.after_begin_start(true) == slot,
        slot.state == LifecycleState::Idle ==> slot.admission(true) == Admission::AlreadyServing(
            SIDECAR_PORT,
        ),
{
}

/// When the first variant fails to spawn and the other one spawns, the
/// chain ends with the other variant, and the handle that is then stored
/// records it.
pub proof fn lemma_fallback_mode_is_recorded(
    primary: LaunchMode,
    cause: String,
    child: u32,
    slot: RegistryModel,
)
    requires
        slot.wf(),
        slot.state == LifecycleState::Starting,
    ensures
        ({
            let first = (LaunchAttempt { primary, primary_failure: None });
            let second = (LaunchAttempt { primary, primary_failure: Some(cause) });
            &&& first.mode_spec() == primary
            &&& first.advance_spec(SpawnResult::Failed(cause)) == LaunchStep::Retry(second)
            &&& second.mode_spec() == alternate_spec(primary)
            &&& second.advance_spec(SpawnResult::Spawned(child)) == (LaunchStep::Launched {
                child,
                mode: alternate_spec(primary),
            })
            &&& slot.after_complete_start(child, alternate_spec(primary)).handle == Some(
                SidecarHandle { child, port: SIDECAR_PORT, mode: alternate_spec(primary) },
            )
        }),
{
}

/// When both variants fail to spawn, the chain ends with an error that
/// carries both causes, and its message holds both.
pub proof fn lemma_double_failure_names_both(primary: LaunchMode, first: String, second: String)
    ensures
        ({
            let begun = (LaunchAttempt { primary, primary_failure: None });
            let retried = (LaunchAttempt { primary, primary_failure: Some(first) });
            &&& begun.advance_spec(SpawnResult::Failed(first)) == LaunchStep::Retry(retried)
            &&& retried.advance_spec(SpawnResult::Failed(second)) == LaunchStep::Failed(
                SpawnError { primary: first, fallback: second },
            )
        }),
        contains(spawn_message_spec(first@, second@), first@),
        contains(spawn_message_spec(first@, second@), second@),
{
    lemma_contains_piece(
        "Failed to spawn sidecar: "@,
        first@,
        "; fallback also failed: "@ + second@,
    );
    assert("Failed to spawn sidecar: "@ + first@ + ("; fallback also failed: "@ + second@)
        =~= spawn_message_spec(first@, second@));
    lemma_contains_piece(
        "Failed to spawn sidecar: "@ + first@ + "; fallback also failed: "@,
        second@,
        Seq::empty(),
    );
    assert("Failed to spawn sidecar: "@ + first@ + "; fallback also failed: "@ + second@
        + Seq::<char>::empty() =~= spawn_message_spec(first@, second@));
}

/// When the port never opens, the wait ends, once the timeout has passed
/// and not before, with an error whose message is the fixed wording around
/// the port and the seconds waited, and so names both; the start attempt
/// is then given up and no handle is held.
pub proof fn lemma_timeout_leaves_no_handle(
    policy: ReadinessPolicy,
    elapsed_ms: u64,
    slot: RegistryModel,
)
    requires
        slot.wf(),
        slot.state == LifecycleState::Starting,
    ensures
        ({
            let timeout = (ReadinessTimeout {
                port: SIDECAR_PORT,
                timeout_seconds: policy.timeout_seconds,
            });
            &&& elapsed_ms >= timeout_ms(policy) ==> next_poll_spec(
                SIDECAR_PORT,
                policy,
                elapsed_ms,
            ) == PollDecision::TimedOut(timeout)
            &&& elapsed_ms < timeout_ms(policy) ==> next_poll_spec(SIDECAR_PORT, policy, elapsed_ms)
                is Probe
            &&& timeout_message_spec(timeout)
                == "Timeout waiting for sidecar to be ready on port "@ + decimal(
                SIDECAR_PORT as nat,
            ) + " after "@ + decimal(policy.timeout_seconds as nat) + " seconds"@
            &&& contains(timeout_message_spec(timeout), decimal(SIDECAR_PORT as nat))
            &&& contains(timeout_message_spec(timeout), decimal(policy.timeout_seconds as nat))
        }),
        slot.after_abort_start() == RegistryModel::idle(),
        slot.after_abort_start().handle is None,
{
    let timeout = ReadinessTimeout { port: SIDECAR_PORT, timeout_seconds: policy.timeout_seconds };
    let head = "Timeout waiting for sidecar to be ready on port "@;
    let port = decimal(SIDECAR_PORT as nat);
    let waited = decimal(policy.timeout_seconds as nat);
    lemma_contains_piece(head, port, " after "@ + waited + " seconds"@);
    assert(head + port + (" after "@ + waited + " seconds"@) =~= timeout_message_spec(timeout));
    lemma_contains_piece(head + port + " after "@, waited, " seconds"@);
}

/// Stop is safe when no sidecar runs: it takes no handle, asks for no
/// kill and leaves the slot as it is. What it still asks for is the sweep
/// of the fixed port, as every stop does; a process of another owner that
/// listens there is terminated by it.
pub proof fn lemma_stop_without_sidecar_is_noop(slot: RegistryModel)
    requires
        slot.wf(),
        slot.state != LifecycleState::Running,
    ensures
        slot.taken_by_stop() is None,
        slot.stop_plan() == (StopPlan { kill: None, sweep_port: SIDECAR_PORT }),
        slot.after_begin_stop() == slot,
        slot.state == LifecycleState::Idle ==> slot.after_begin_stop().after_finish_stop() == slot,
{
}

/// Every stop asks for the sweep of the fixed port, in every state.
pub proof fn lemma_every_stop_sweeps(slot: RegistryModel)
    ensures
        slot.stop_plan().sweep_port == SIDECAR_PORT,
{
}

/// After a start that succeeded and a stop, the child that was started has
/// been handed out to be killed, exactly once, the slot is idle and holds
/// no handle, and a later start is admitted again when the port is free.
pub proof fn lemma_stop_after_start_returns_to_idle(child: u32, mode: LaunchMode)
    ensures
        ({
            let running = RegistryModel::idle().after_begin_start(false).after_complete_start(
                child,
                mode,
            );
            let stopping = running.after_begin_stop();
            let stopped = stopping.after_finish_stop();
            &&& running.taken_by_stop() == Some(
                SidecarHandle { child, port: SIDECAR_PORT, mode },
            )
            &&& stopping.state == LifecycleState::Stopping
            &&& stopping.taken_by_stop() is None
            &&& stopped == RegistryModel::idle()
            &&& stopped.taken_by_stop() is None
            &&& stopped.admission(false) == Admission::Proceed(SIDECAR_PORT)
        }),
{
}

} // verus!
