//! The fixed human-readable strings the shell's commands return.
//!
//! Every start/stop command answers with an outcome string even on the
//! idempotent "already in desired state" path; the exact wording per
//! worker is pinned down here.

use vstd::prelude::*;
use vstd::string::StringExecFns;

use crate::worker::WorkerName;

verus! {

pub open spec fn spec_already_running_message(name: WorkerName) -> Seq<char> {
    match name {
        WorkerName::BackendServer => "Python backend is already running"@,
        WorkerName::MonitoringBot => "Arbitrage bot is already running"@,
    }
}

pub open spec fn spec_started_message(name: WorkerName) -> Seq<char> {
    match name {
        WorkerName::BackendServer => "Python backend started successfully"@,
        WorkerName::MonitoringBot => "Arbitrage bot started successfully"@,
    }
}

pub open spec fn spec_stopped_message(name: WorkerName) -> Seq<char> {
    match name {
        WorkerName::BackendServer => "Python backend stopped"@,
        WorkerName::MonitoringBot => "Arbitrage bot stopped"@,
    }
}

pub open spec fn spec_not_running_message(name: WorkerName) -> Seq<char> {
    match name {
        WorkerName::BackendServer => "Python backend was not running"@,
        WorkerName::MonitoringBot => "Arbitrage bot was not running"@,
    }
}

/// Answer to `start` when the worker already runs.
pub fn already_running_message(name: WorkerName) -> (r: String)
    ensures
        r@ == spec_already_running_message(name),
{
    match name {
        WorkerName::BackendServer => String::from_str("Python backend is already running"),
        WorkerName::MonitoringBot => String::from_str("Arbitrage bot is already running"),
    }
}

/// Answer to `start` when a process was spawned.
pub fn started_message(name: WorkerName) -> (r: String)
    ensures
        r@ == spec_started_message(name),
{
    match name {
        WorkerName::BackendServer => String::from_str("Python backend started successfully"),
        WorkerName::MonitoringBot => String::from_str("Arbitrage bot started successfully"),
    }
}

/// Answer to `stop` when a process was killed.
pub fn stopped_message(name: WorkerName) -> (r: String)
    ensures
        r@ == spec_stopped_message(name),
{
    match name {
        WorkerName::BackendServer => String::from_str("Python backend stopped"),
        WorkerName::MonitoringBot => String::from_str("Arbitrage bot stopped"),
    }
}

/// Answer to `stop` when the worker was not running.
pub fn not_running_message(name: WorkerName) -> (r: String)
    ensures
        r@ == spec_not_running_message(name),
{
    match name {
        WorkerName::BackendServer => String::from_str("Python backend was not running"),
        WorkerName::MonitoringBot => String::from_str("Arbitrage bot was not running"),
    }
}

pub open spec fn spec_kill_error_prefix(name: WorkerName) -> Seq<char> {
    match name {
        WorkerName::BackendServer => "Failed to kill Python process: "@,
        WorkerName::MonitoringBot => "Failed to kill arbitrage bot process: "@,
    }
}

/// The error reply when the OS refuses to kill a worker's process.
pub fn kill_error_message(name: WorkerName, detail: &str) -> (r: String)
    ensures
        r@ == spec_kill_error_prefix(name) + detail@,
{
    let mut e = match name {
        WorkerName::BackendServer => String::from_str("Failed to kill Python process: "),
        WorkerName::MonitoringBot => String::from_str("Failed to kill arbitrage bot process: "),
    };
    e.append(detail);
    e
}

/// The error reply when the shared state's lock cannot be taken.
pub fn lock_error_message(detail: &str) -> (r: String)
    ensures
        r@ == "Failed to lock state: "@ + detail@,
{
    let mut e = String::from_str("Failed to lock state: ");
    e.append(detail);
    e
}

/// The error reply when the current directory cannot be read.
pub fn current_dir_error_message(detail: &str) -> (r: String)
    ensures
        r@ == "Failed to get current directory: "@ + detail@,
{
    let mut e = String::from_str("Failed to get current directory: ");
    e.append(detail);
    e
}

/// The error reply for a backend spawn the OS rejected: one wording
/// for a bundled executable, another for the interpreter fallback.
pub fn backend_spawn_error_message(bundled: bool, detail: &str) -> (r: String)
    ensures
        bundled ==> r@ == "Failed to start bundled backend: "@ + detail@,
        !bundled ==> r@ == "Failed to start Python backend: "@ + detail@,
{
    let mut e = if bundled {
        String::from_str("Failed to start bundled backend: ")
    } else {
        String::from_str("Failed to start Python backend: ")
    };
    e.append(detail);
    e
}

/// The error reply for a monitoring-worker spawn the OS rejected,
/// naming the interpreter, the rendered script path, and the OS's
/// description.
pub fn bot_spawn_error_message(interpreter: &str, script: &str, detail: &str) -> (r: String)
    ensures
        r@ == "Failed to start arbitrage bot with "@ + interpreter@ + " at "@ + script@ + ": "@
            + detail@,
{
    let mut e = String::from_str("Failed to start arbitrage bot with ");
    e.append(interpreter);
    e.append(" at ");
    e.append(script);
    e.append(": ");
    e.append(detail);
    e
}

/// The error reply when no working interpreter is found for the
/// monitoring worker.
pub fn interpreter_missing_message(interpreter: &str) -> (r: String)
    ensures
        r@ == "Python command '"@ + interpreter@
            + "' not found. Please ensure Python is installed and available in PATH."@,
{
    let mut e = String::from_str("Python command '");
    e.append(interpreter);
    e.append("' not found. Please ensure Python is installed and available in PATH.");
    e
}

/// The error reply when the monitoring worker's script is absent,
/// naming the rendered path it was expected at.
pub fn missing_script_message(script: &str) -> (r: String)
    ensures
        r@ == "Arbitrage bot script not found at: "@ + script@,
{
    let mut e = String::from_str("Arbitrage bot script not found at: ");
    e.append(script);
    e
}

/// Greeting demo command of the shell.
pub fn greet(name: &str) -> (r: String)
    ensures
        r@ == "Hello, "@ + name@ + "! You've been greeted from Rust!"@,
{
    let mut out = String::from_str("Hello, ");
    out.append(name);
    out.append("! You've been greeted from Rust!");
    out
}

/// Self-test command: always succeeds with a fixed reply.
pub fn test_monitoring_command() -> (r: Result<String, String>)
    ensures
        r is Ok,
        r->Ok_0@ == "Test monitoring command works!"@,
{
    Ok(String::from_str("Test monitoring command works!"))
}

} // verus!
