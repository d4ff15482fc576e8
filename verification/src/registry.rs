//! The single supervised slot: which lifecycle state holds and which child,
//! if any, is owned.

use crate::mode::LaunchMode;
use vstd::prelude::*;

verus! {

/// The port on which the sidecar listens; parent and sidecar agree on it.
pub const SIDECAR_PORT: u16 = 9528;

/// The lifecycle of the supervised slot.
#[derive(Debug, Clone, Copy, PartialEq, Eq, Structural)]
pub enum LifecycleState {
    Idle,
    Starting,
    Running,
    Stopping,
}

/// One running managed child: its process identifier, the port it serves
/// and the variant it was launched as.
#[derive(Debug, Clone, Copy, PartialEq, Eq, Structural)]
pub struct SidecarHandle {
    pub child: u32,
    pub port: u16,
    pub mode: LaunchMode,
}

/// What a start request is told.
#[derive(Debug, Clone, Copy, PartialEq, Eq, Structural)]
pub enum Admission {
    /// The port is served already, by the owned child or by any other
    /// process; nothing is spawned.
    AlreadyServing(u16),
    /// Another start attempt is under way; nothing is spawned.
    InProgress(u16),
    /// A stop is under way; nothing is spawned.
    ShuttingDown,
    /// The slot was idle and the port free: the caller now owns the start
    /// attempt and must end it with `complete_start` or `abort_start`.
    Proceed(u16),
}

/// What a stop asks of the caller, in this order.
#[derive(Debug, Clone, Copy, PartialEq, Eq, Structural)]
pub struct StopPlan {
    /// The owned child to kill, when one was running.
    pub kill: Option<SidecarHandle>,
    /// The port to sweep afterwards: every process found listening on it
    /// is terminated, whoever spawned it.
    pub sweep_port: u16,
}

/// The mathematical content of a registry.
pub struct RegistryModel {
    pub state: LifecycleState,
    pub handle: Option<SidecarHandle>,
}

impl RegistryModel {
    /// A handle is held exactly in the running state, and it names the
    /// fixed port.
    pub open spec fn wf(self) -> bool {
        &&& self.handle is Some <==> self.state == LifecycleState::Running
        &&& self.handle is Some ==> self.handle->0.port == SIDECAR_PORT
    }

    pub open spec fn idle() -> RegistryModel {
        RegistryModel { state: LifecycleState::Idle, handle: None }
    }

    /// What a start request is told.
    pub open spec fn admission(self, port_occupied: bool) -> Admission {
        match self.state {
            LifecycleState::Running => Admission::AlreadyServing(SIDECAR_PORT),
            LifecycleState::Starting => Admission::InProgress(SIDECAR_PORT),
            LifecycleState::Stopping => Admission::ShuttingDown,
            LifecycleState::Idle => if port_occupied {
                Admission::AlreadyServing(SIDECAR_PORT)
            } else {
                Admission::Proceed(SIDECAR_PORT)
            },
        }
    }

    /// The slot after a start request: only an admitted request changes it.
    pub open spec fn after_begin_start(self, port_occupied: bool) -> RegistryModel {
        if self.admission(port_occupied) is Proceed {
            RegistryModel { state: LifecycleState::Starting, handle: None }
        } else {
            self
        }
    }

    /// The slot after a start attempt reported readiness of `child`.
    pub open spec fn after_complete_start(self, child: u32, mode: LaunchMode) -> RegistryModel {
        if self.state == LifecycleState::Starting {
            RegistryModel {
                state: LifecycleState::Running,
                handle: Some(SidecarHandle { child, port: SIDECAR_PORT, mode }),
            }
        } else {
            self
        }
    }

    /// The slot after a start attempt failed.
    pub open spec fn after_abort_start(self) -> RegistryModel {
        if self.state == LifecycleState::Starting {
            RegistryModel::idle()
        } else {
            self
        }
    }

    /// The slot after a stop request took the handle.
    pub open spec fn after_begin_stop(self) -> RegistryModel {
        if self.state == LifecycleState::Running {
            RegistryModel { state: LifecycleState::Stopping, handle: None }
        } else {
            self
        }
    }

    /// The handle that a stop request takes.
    pub open spec fn taken_by_stop(self) -> Option<SidecarHandle> {
        if self.state == LifecycleState::Running {
            self.handle
        } else {
            None
        }
    }

    /// What a stop request asks for: the kill of the owned child, if one
    /// runs, and in every state the sweep of the fixed port.
    pub open spec fn stop_plan(self) -> StopPlan {
        StopPlan { kill: self.taken_by_stop(), sweep_port: SIDECAR_PORT }
    }

    /// The slot after the kill attempt of a stop returned.
    pub open spec fn after_finish_stop(self) -> RegistryModel {
        if self.state == LifecycleState::Stopping {
            RegistryModel::idle()
        } else {
            self
        }
    }
}

/// The lifecycle registry. It is built once and shared behind the caller's
/// lock; each method is one critical section.
#[derive(Debug)]
pub struct LifecycleRegistry {
    state: LifecycleState,
    handle: Option<SidecarHandle>,
}

impl View for LifecycleRegistry {
    type V = RegistryModel;

    closed spec fn view(&self) -> RegistryModel {
        RegistryModel { state: self.state, handle: self.handle }
    }
}

impl LifecycleRegistry {
    #[verifier::type_invariant]
    closed spec fn inv(&self) -> bool {
        self@.wf()
    }

    /// An idle registry that owns no child.
    pub fn new() -> (registry: LifecycleRegistry)
        ensures
            registry@ == RegistryModel::idle(),
    {
        LifecycleRegistry { state: LifecycleState::Idle, handle: None }
    }

    /// The current lifecycle state.
    pub fn state(&self) -> (state: LifecycleState)
        ensures
            state == self@.state,
            self@.wf(),
    {
        proof {
            use_type_invariant(self);
        }
        self.state
    }

    /// The owned child, present exactly while running.
    pub fn handle(&self) -> (handle: Option<SidecarHandle>)
        ensures
            handle == self@.handle,
            handle is Some <==> self@.state == LifecycleState::Running,
            handle is Some ==> handle->0.port == SIDECAR_PORT,
    {
        proof {
            use_type_invariant(self);
        }
        self.handle
    }

    /// Admits or turns away a start request. `port_occupied` says whether a probe found
    /// the fixed port accepting connections. Only an idle slot with a free
    /// port admits the request and enters `Starting`.
    pub fn begin_start(&mut self, port_occupied: bool) -> (answer: Admission)
        ensures
            answer == old(self)@.admission(port_occupied),
            final(self)@ == old(self)@.after_begin_start(port_occupied),
            final(self)@.wf(),
    {
        proof {
            use_type_invariant(&*self);
        }
        match self.state {
            LifecycleState::Running => Admission::AlreadyServing(SIDECAR_PORT),
            LifecycleState::Starting => Admission::InProgress(SIDECAR_PORT),
            LifecycleState::Stopping => Admission::ShuttingDown,
            LifecycleState::Idle => {
                if port_occupied {
                    Admission::AlreadyServing(SIDECAR_PORT)
                } else {
                    self.state = LifecycleState::Starting;
                    Admission::Proceed(SIDECAR_PORT)
                }
            },
        }
    }

    /// Ends a start attempt whose child became ready: stores the handle and
    /// enters `Running`. Returns whether the handle was stored, which is
    /// the case exactly when a start attempt was under way.
    pub fn complete_start(&mut self, child: u32, mode: LaunchMode) -> (stored: bool)
        ensures
            stored == (old(self)@.state == LifecycleState::Starting),
            final(self)@ == old(self)@.after_complete_start(child, mode),
            final(self)@.wf(),
    {
        proof {
            use_type_invariant(&*self);
        }
        match self.state {
            LifecycleState::Starting => {
                *self = LifecycleRegistry {
                    state: LifecycleState::Running,
                    handle: Some(SidecarHandle { child, port: SIDECAR_PORT, mode }),
                };
                true
            },
            _ => false,
        }
    }

    /// Ends a start attempt that failed: the slot returns to `Idle` and no
    /// handle is stored. A child that was spawned and did not become ready
    /// in time is left running; it may still open the port, and a later
    /// stop reaches it through the sweep of the port.
    pub fn abort_start(&mut self)
        ensures
            final(self)@ == old(self)@.after_abort_start(),
            final(self)@.wf(),
    {
        proof {
            use_type_invariant(&*self);
        }
        match self.state {
            LifecycleState::Starting => {
                self.state = LifecycleState::Idle;
            },
            _ => {},
        }
    }

    /// Takes the handle for a stop. A running slot enters `Stopping` and
    /// hands out its child, which the caller kills; any other slot is left
    /// as it is and hands out nothing. In every state the plan asks for
    /// the sweep of the fixed port, which follows the kill.
    pub fn begin_stop(&mut self) -> (plan: StopPlan)
        ensures
            plan == old(self)@.stop_plan(),
            plan.kill is Some <==> old(self)@.state == LifecycleState::Running,
            final(self)@ == old(self)@.after_begin_stop(),
            final(self)@.wf(),
    {
        proof {
            use_type_invariant(&*self);
        }
        match self.state {
            LifecycleState::Running => {
                let taken = self.handle;
                *self = LifecycleRegistry { state: LifecycleState::Stopping, handle: None };
                StopPlan { kill: taken, sweep_port: SIDECAR_PORT }
            },
            _ => StopPlan { kill: None, sweep_port: SIDECAR_PORT },
        }
    }

    /// Ends a stop once the kill attempt returned, whether it succeeded or
    /// not: `Stopping` becomes `Idle`.
    pub fn finish_stop(&mut self)
        ensures
            final(self)@ == old(self)@.after_finish_stop(),
            final(self)@.wf(),
    {
        proof {
            use_type_invariant(&*self);
        }
        match self.state {
            LifecycleState::Stopping => {
                self.state = LifecycleState::Idle;
            },
            _ => {},
        }
    }

    /// Teardown on any exit path: the slot becomes `Idle` and the child
    /// that was owned, if any, is handed out to be killed. A second call
    /// hands out nothing, so the child is killed at most once.
    pub fn release(&mut self) -> (owned: Option<SidecarHandle>)
        ensures
            owned == old(self)@.handle,
            final(self)@ == RegistryModel::idle(),
    {
        let owned = self.handle;
        *self = LifecycleRegistry { state: LifecycleState::Idle, handle: None };
        owned
    }
}

/// Returns the fixed port on which the sidecar serves.
pub fn get_websocket_port() -> (port: u16)
    ensures
        port == SIDECAR_PORT,
{
    SIDECAR_PORT
}

} // verus!
