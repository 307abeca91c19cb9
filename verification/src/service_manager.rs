//! The shared record of the supervised service.
//!
//! One record exists per application. Every control loop reads and changes
//! it under one lock, through the operations below and through nothing else.

use vstd::prelude::*;

verus! {

/// The status of the service as a mathematical record.
///
/// `H` is the handle by which the surrounding program can terminate the
/// child process; the record only stores it and hands it back.
pub struct ServiceState<H> {
    /// The port the service is bound to, if it is believed alive.
    pub port: Option<u16>,
    /// Whether a started, health-checked process is believed alive.
    pub is_running: bool,
    /// The handle of the child process, while one is held.
    pub child_process: Option<H>,
}

impl<H> ServiceState<H> {
    /// The record of a service that is not running.
    pub open spec fn down() -> Self {
        ServiceState { port: None, is_running: false, child_process: None }
    }

    /// The record of a service that runs on `port` as the process `child`.
    pub open spec fn up(port: u16, child: H) -> Self {
        ServiceState { port: Some(port), is_running: true, child_process: Some(child) }
    }

    /// A record is well formed when it runs exactly if it has a port, and
    /// holds a process handle only while it runs.
    pub open spec fn wf(self) -> bool {
        &&& self.is_running == self.port.is_some()
        &&& self.child_process.is_some() ==> self.is_running
    }
}

/// The record of the supervised service.
#[derive(Debug)]
pub struct ServiceManager<H> {
    port: Option<u16>,
    is_running: bool,
    child_process: Option<H>,
}

impl<H> View for ServiceManager<H> {
    type V = ServiceState<H>;

    closed spec fn view(&self) -> ServiceState<H> {
        ServiceState {
            port: self.port,
            is_running: self.is_running,
            child_process: self.child_process,
        }
    }
}

impl<H> ServiceManager<H> {
    /// Holds of every record: its state is well formed.
    #[verifier::type_invariant]
    pub open spec fn well_formed(&self) -> bool {
        self@.wf()
    }

    /// A record with nothing running.
    pub fn new() -> (manager: Self)
        ensures
            manager@ == ServiceState::<H>::down(),
    {
        ServiceManager { port: None, is_running: false, child_process: None }
    }

    /// Whether the service is believed alive.
    pub fn is_running(&self) -> (running: bool)
        ensures
            running == self@.is_running,
            running == self@.port.is_some(),
            self@.wf(),
    {
        proof {
            use_type_invariant(self);
        }
        self.is_running
    }

    /// The port the service is bound to.
    pub fn port(&self) -> (port: Option<u16>)
        ensures
            port == self@.port,
            port.is_some() == self@.is_running,
            self@.wf(),
    {
        proof {
            use_type_invariant(self);
        }
        self.port
    }

    /// Whether the record holds the handle of a child process.
    pub fn has_process(&self) -> (held: bool)
        ensures
            held == self@.child_process.is_some(),
            held ==> self@.is_running,
            self@.wf(),
    {
        proof {
            use_type_invariant(self);
        }
        self.child_process.is_some()
    }

    /// Records a successful start on `port` with the process `child`.
    ///
    /// Returns the handle that the record held before, which the caller has
    /// to terminate.
    pub fn start(&mut self, port: u16, child: H) -> (replaced: Option<H>)
        ensures
            final(self)@ == ServiceState::up(port, child),
            replaced == old(self)@.child_process,
    {
        proof {
            use_type_invariant(&*self);
        }
        let mut previous = ServiceManager {
            port: Some(port),
            is_running: true,
            child_process: Some(child),
        };
        core::mem::swap(self, &mut previous);
        previous.child_process
    }

    /// Clears port, running flag and handle.
    pub fn mark_down(&mut self)
        ensures
            final(self)@ == ServiceState::<H>::down(),
    {
        *self = ServiceManager { port: None, is_running: false, child_process: None };
    }

    /// Gives up the child process and clears the record.
    ///
    /// Returns the handle that the record held, which the caller has to
    /// terminate.
    pub fn kill_process(&mut self) -> (stale: Option<H>)
        ensures
            final(self)@ == ServiceState::<H>::down(),
            stale == old(self)@.child_process,
    {
        proof {
            use_type_invariant(&*self);
        }
        let mut previous = ServiceManager::new();
        core::mem::swap(self, &mut previous);
        previous.child_process
    }
}

/// A record that was started runs and has its port: neither holds without
/// the other.
pub proof fn lemma_up_runs_with_port<H>(port: u16, child: H)
    ensures
        ServiceState::up(port, child).wf(),
        ServiceState::up(port, child).is_running,
        ServiceState::up(port, child).port == Some(port),
        ServiceState::up(port, child).child_process == Some(child),
{
}

/// A record that was cleared neither runs nor has a port nor holds a
/// process handle.
pub proof fn lemma_down_is_clear<H>()
    ensures
        ServiceState::<H>::down().wf(),
        !ServiceState::<H>::down().is_running,
        ServiceState::<H>::down().port.is_none(),
        ServiceState::<H>::down().child_process.is_none(),
{
}

/// In a well-formed record the running flag and the port come and go
/// together, and a record that does not run is the cleared record.
pub proof fn lemma_running_iff_port<H>(state: ServiceState<H>)
    requires
        state.wf(),
    ensures
        state.is_running <==> state.port.is_some(),
        !state.is_running ==> state == ServiceState::<H>::down(),
{
}

} // verus!
