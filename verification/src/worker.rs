//! Per-worker lifecycle state machine.
//!
//! Each supervised worker (the backend server and the monitoring bot)
//! owns one `WorkerCell`: the single piece of mutable shared state of
//! the whole shell. A cell is either `Stopped` or `Running` with the
//! identifier of the one live process handle. Callers serialize all
//! transitions on a cell (the shell keeps each cell behind its own
//! exclusive lock, so operations on different workers never block each
//! other); the contracts here then rule out a double spawn or a double
//! kill in every serialization order.

use vstd::prelude::*;

use crate::messages::{
    kill_error_message, not_running_message, spec_kill_error_prefix, spec_not_running_message,
    spec_started_message, spec_stopped_message, started_message, stopped_message,
};

verus! {

/// Identity of a supervised worker, fixed at compile time.
#[derive(Clone, Copy, PartialEq, Eq, Structural, Debug)]
pub enum WorkerName {
    /// The backend server process.
    BackendServer,
    /// The trading-monitoring script.
    MonitoringBot,
}

/// Lifecycle state of one worker: either no process handle is owned,
/// or exactly one is, identified by a token the caller chose when it
/// spawned the process.
#[derive(Clone, Copy, PartialEq, Eq, Structural, Debug)]
pub enum WorkerState {
    Stopped,
    Running { handle: u64 },
}

/// The shared supervisor state for one worker name.
pub struct WorkerCell {
    pub name: WorkerName,
    pub state: WorkerState,
}

/// What recording a spawn does to a cell.
pub open spec fn spec_after_spawn(cell: WorkerCell, handle: u64) -> WorkerCell {
    WorkerCell { name: cell.name, state: WorkerState::Running { handle } }
}

/// What `stop` does to a cell: the cell after, and the handle to kill.
pub open spec fn spec_stop(cell: WorkerCell) -> (WorkerCell, Option<u64>) {
    match cell.state {
        WorkerState::Running { handle } => (
            WorkerCell { name: cell.name, state: WorkerState::Stopped },
            Some(handle),
        ),
        WorkerState::Stopped => (cell, None),
    }
}

impl WorkerCell {
    /// True iff a process handle is currently owned. No liveness
    /// probing is implied: the process may have exited on its own.
    pub open spec fn spec_is_running(self) -> bool {
        self.state is Running
    }

    /// A fresh cell for `name`, with no process.
    pub fn new(name: WorkerName) -> (cell: WorkerCell)
        ensures
            cell.name == name,
            cell.state is Stopped,
    {
        WorkerCell { name, state: WorkerState::Stopped }
    }

    /// Current state, without side effects.
    pub fn status(&self) -> (running: bool)
        ensures
            running == self.spec_is_running(),
    {
        match self.state {
            WorkerState::Running { .. } => true,
            WorkerState::Stopped => false,
        }
    }

    /// Record that a process was spawned for this worker. Only legal
    /// while no handle is owned, so at most one live handle exists per
    /// worker name at any time.
    pub fn note_spawned(&mut self, handle: u64)
        requires
            old(self).state is Stopped,
        ensures
            *final(self) == spec_after_spawn(*old(self), handle),
    {
        self.state = WorkerState::Running { handle };
    }

    /// Stop transition: clears the handle and returns it so the caller
    /// can kill the process. When already `Stopped` this is a no-op
    /// and returns `None` (idempotent stop).
    pub fn stop(&mut self) -> (killed: Option<u64>)
        ensures
            (*final(self), killed) == spec_stop(*old(self)),
    {
        match self.state {
            WorkerState::Running { handle } => {
                self.state = WorkerState::Stopped;
                Some(handle)
            },
            WorkerState::Stopped => None,
        }
    }
}

/// Complete a `start` after the one spawn its plan asked for: on a
/// spawn the OS accepted, record the handle and answer the started
/// message; on a rejected spawn, leave the cell untouched (still
/// `Stopped`) and surface the error.
pub fn complete_start(cell: &mut WorkerCell, spawn: Result<u64, String>) -> (r: Result<
    String,
    String,
>)
    requires
        old(cell).state is Stopped,
    ensures
        spawn matches Ok(h) ==> *final(cell) == spec_after_spawn(*old(cell), h),
        spawn matches Ok(h) ==> (r matches Ok(m) && m@ == spec_started_message(old(cell).name)),
        spawn matches Err(e) ==> *final(cell) == *old(cell) && (r matches Err(m) && m == e),
{
    match spawn {
        Ok(handle) => {
            let name = cell.name;
            cell.note_spawned(handle);
            Ok(started_message(name))
        },
        Err(e) => Err(e),
    }
}

/// The reply of a `stop`, given what the kill the transition asked for
/// came to: nothing to kill answers the not-running message, a kill
/// the OS accepted answers the stopped message, and a rejected kill
/// surfaces the error (the handle stays cleared either way).
pub fn stop_reply(name: WorkerName, killed: Option<u64>, kill_error: Option<String>) -> (r: Result<
    String,
    String,
>)
    requires
        killed is None ==> kill_error is None,
    ensures
        killed is None ==> (r matches Ok(m) && m@ == spec_not_running_message(name)),
        killed is Some && kill_error is None ==> (r matches Ok(m) && m@ == spec_stopped_message(
            name,
        )),
        kill_error matches Some(e) ==> (r matches Err(m) && m@ == spec_kill_error_prefix(name)
            + e@),
{
    match kill_error {
        Some(detail) => Err(kill_error_message(name, detail.as_str())),
        None => match killed {
            Some(_) => Ok(stopped_message(name)),
            None => Ok(not_running_message(name)),
        },
    }
}

/// Law (stop idempotence): stopping a worker that is `Stopped` changes
/// nothing and asks for no kill.
pub proof fn lemma_stop_idempotent(cell: WorkerCell)
    requires
        cell.state is Stopped,
    ensures
        spec_stop(cell) == (cell, None::<u64>),
{
}

/// Law (cleanup totality): whatever state a cell was in, after `stop`
/// it reports `Stopped`. A lifecycle trigger that runs `stop` on every
/// cell therefore leaves every worker `Stopped`, whether or not any
/// individual kill succeeded: the handle is cleared either way.
pub proof fn lemma_cleanup_totality(cell: WorkerCell)
    ensures
        !spec_stop(cell).0.spec_is_running(),
        spec_stop(cell).0.name == cell.name,
{
}

/// Law (one live handle): recording a spawn makes the cell own exactly
/// the handle that was spawned; a later `stop` returns that same
/// handle, so no process is ever left behind by a stop.
pub proof fn lemma_spawn_then_stop(cell: WorkerCell, handle: u64)
    ensures
        spec_after_spawn(cell, handle).state == (WorkerState::Running { handle }),
        spec_stop(spec_after_spawn(cell, handle)) == (
            WorkerCell { name: cell.name, state: WorkerState::Stopped },
            Some(handle),
        ),
{
}

} // verus!
