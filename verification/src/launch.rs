//! Command resolution for starting the two workers, and the start
//! decision itself.
//!
//! Whether a bundled executable or a script interpreter is used, and
//! which one, depends only on facts about the environment (platform,
//! which files exist, which interpreter answers). Those facts arrive
//! here as a probe the caller filled in; the decision and the exact
//! command are then computed and proved here, and the caller only
//! performs the one spawn the plan asks for.

use vstd::prelude::*;
use vstd::string::StringExecFns;

use crate::paths::{spec_bot_script_path, spec_in_build_dir, FsPath};
use crate::worker::{spec_after_spawn, WorkerCell, WorkerState};

verus! {

/// What the environment offers for starting the backend server.
#[derive(Clone, Copy, PartialEq, Eq, Structural, Debug)]
pub struct BackendProbe {
    /// The platform is Windows.
    pub is_windows: bool,
    /// `arbitrage-bot-server.exe` exists in the current directory.
    pub windows_bundle_present: bool,
    /// `arbitrage-bot-server` exists in the current directory.
    pub unix_bundle_present: bool,
}

/// Which command starts the backend server.
#[derive(Clone, Copy, PartialEq, Eq, Structural, Debug)]
pub enum BackendLaunch {
    /// The bundled Windows executable.
    WindowsBundle,
    /// The bundled Unix executable.
    UnixBundle,
    /// The interpreter fallback: `python ../socketio_server.py`.
    PythonScript,
}

/// Search order for the backend command: the platform's bundled
/// executable first, then the interpreter fallback.
pub open spec fn spec_backend_launch(p: BackendProbe) -> BackendLaunch {
    if p.is_windows && p.windows_bundle_present {
        BackendLaunch::WindowsBundle
    } else if p.unix_bundle_present {
        BackendLaunch::UnixBundle
    } else {
        BackendLaunch::PythonScript
    }
}

/// Outcome of planning a backend start.
pub enum BackendPlan {
    /// A handle is already recorded: spawn nothing, answer success.
    AlreadyRunning,
    /// Spawn this command, with stdout and stderr captured.
    Launch(BackendLaunch),
}

/// Plan a backend start. Idempotent: with a handle recorded nothing is
/// launched; otherwise exactly the command the probe selects is.
pub fn plan_backend_start(cell: &WorkerCell, probe: &BackendProbe) -> (r: BackendPlan)
    ensures
        cell.spec_is_running() <==> r is AlreadyRunning,
        !cell.spec_is_running() ==> (r matches BackendPlan::Launch(l) && l == spec_backend_launch(
            *probe,
        )),
{
    match cell.state {
        WorkerState::Running { .. } => BackendPlan::AlreadyRunning,
        WorkerState::Stopped => {
            if probe.is_windows && probe.windows_bundle_present {
                BackendPlan::Launch(BackendLaunch::WindowsBundle)
            } else if probe.unix_bundle_present {
                BackendPlan::Launch(BackendLaunch::UnixBundle)
            } else {
                BackendPlan::Launch(BackendLaunch::PythonScript)
            }
        },
    }
}

/// The program and arguments for a backend launch.
pub fn backend_command(launch: BackendLaunch) -> (r: (String, Vec<String>))
    ensures
        launch is WindowsBundle ==> r.0@ == "arbitrage-bot-server.exe"@ && r.1@.len() == 0,
        launch is UnixBundle ==> r.0@ == "./arbitrage-bot-server"@ && r.1@.len() == 0,
        launch is PythonScript ==> r.0@ == "python"@ && r.1.deep_view() == seq![
            "../socketio_server.py"@,
        ],
{
    match launch {
        BackendLaunch::WindowsBundle => (String::from_str("arbitrage-bot-server.exe"), Vec::new()),
        BackendLaunch::UnixBundle => (String::from_str("./arbitrage-bot-server"), Vec::new()),
        BackendLaunch::PythonScript => {
            let mut args: Vec<String> = Vec::new();
            args.push(String::from_str("../socketio_server.py"));
            proof {
                assert(args.deep_view() =~= seq!["../socketio_server.py"@]);
            }
            (String::from_str("python"), args)
        },
    }
}

/// What the environment offers for starting the monitoring worker.
#[derive(Clone, Copy, PartialEq, Eq, Structural, Debug)]
pub struct BotProbe {
    /// The platform is Windows.
    pub is_windows: bool,
    /// The resolved script path exists.
    pub script_present: bool,
    /// `python3 --version` succeeds.
    pub python3_works: bool,
    /// `python --version` succeeds.
    pub python_works: bool,
}

/// The interpreter chosen for the monitoring worker: `python` on
/// Windows, else `python3` when it answers, else `python`.
pub open spec fn spec_bot_interpreter_is_python3(p: BotProbe) -> bool {
    !p.is_windows && p.python3_works
}

pub open spec fn spec_bot_interpreter(p: BotProbe) -> Seq<char> {
    if spec_bot_interpreter_is_python3(p) {
        "python3"@
    } else {
        "python"@
    }
}

/// The chosen interpreter answers a version probe.
pub open spec fn spec_bot_interpreter_works(p: BotProbe) -> bool {
    spec_bot_interpreter_is_python3(p) || p.python_works
}

/// The start decision for the monitoring worker, in order: an already
/// running worker wins, then a missing script fails, then a missing
/// interpreter fails, and only then is anything spawned.
#[derive(Clone, Copy, PartialEq, Eq, Structural, Debug)]
pub enum BotDecision {
    AlreadyRunning,
    MissingScript,
    InterpreterMissing,
    Spawn,
}

pub open spec fn spec_bot_decision(state: WorkerState, p: BotProbe) -> BotDecision {
    if state is Running {
        BotDecision::AlreadyRunning
    } else if !p.script_present {
        BotDecision::MissingScript
    } else if !spec_bot_interpreter_works(p) {
        BotDecision::InterpreterMissing
    } else {
        BotDecision::Spawn
    }
}

/// The one spawn a monitoring-worker start performs: the chosen
/// interpreter, run unbuffered on the resolved script, with UTF-8
/// output forced and both pipes captured.
pub struct BotLaunch {
    pub interpreter: String,
    pub script: FsPath,
}

/// Outcome of planning a monitoring-worker start.
pub enum BotPlan {
    /// A handle is already recorded: spawn nothing, answer success.
    AlreadyRunning,
    /// The script is absent at the resolved path: fail fast, spawn
    /// nothing.
    MissingScript(FsPath),
    /// The chosen interpreter does not answer: fail, spawn nothing.
    InterpreterMissing(String),
    /// Spawn this command.
    Launch(BotLaunch),
}

/// Plan a monitoring-worker start.
pub fn plan_bot_start(cell: &WorkerCell, cwd: &FsPath, probe: &BotProbe) -> (r: BotPlan)
    requires
        spec_in_build_dir(cwd@) ==> cwd.parts.len() >= 2,
    ensures
        spec_bot_decision(cell.state, *probe) is AlreadyRunning ==> r is AlreadyRunning,
        spec_bot_decision(cell.state, *probe) is MissingScript ==> (r matches
            BotPlan::MissingScript(s) && s@ == spec_bot_script_path(cwd@)),
        spec_bot_decision(cell.state, *probe) is InterpreterMissing ==> (r matches
            BotPlan::InterpreterMissing(c) && c@ == spec_bot_interpreter(*probe)),
        spec_bot_decision(cell.state, *probe) is Spawn ==> (r matches BotPlan::Launch(l)
            && l.interpreter@ == spec_bot_interpreter(*probe) && l.script@ == spec_bot_script_path(
            cwd@,
        )),
{
    match cell.state {
        WorkerState::Running { .. } => BotPlan::AlreadyRunning,
        WorkerState::Stopped => {
            let script = cwd.bot_script_path();
            if !probe.script_present {
                return BotPlan::MissingScript(script);
            }
            let python3 = !probe.is_windows && probe.python3_works;
            let interpreter = if python3 {
                String::from_str("python3")
            } else {
                String::from_str("python")
            };
            if !python3 && !probe.python_works {
                return BotPlan::InterpreterMissing(interpreter);
            }
            BotPlan::Launch(BotLaunch { interpreter, script })
        },
    }
}

/// The interpreter flag forcing unbuffered output.
pub fn unbuffered_flag() -> (r: String)
    ensures
        r@ == "-u"@,
{
    String::from_str("-u")
}

/// The environment setting forcing UTF-8 text encoding for the
/// monitoring worker.
pub fn utf8_env() -> (r: (String, String))
    ensures
        r.0@ == "PYTHONIOENCODING"@,
        r.1@ == "utf-8"@,
{
    (String::from_str("PYTHONIOENCODING"), String::from_str("utf-8"))
}

/// Law (mutual exclusion): however the per-worker lock serializes two
/// `start` calls, at most one spawns. A start only spawns from a
/// stopped cell, and once its handle is recorded, every later start
/// decision is `AlreadyRunning`, with the cell owning exactly that one
/// handle.
pub proof fn lemma_concurrent_starts_spawn_once(cell: WorkerCell, handle: u64, probe: BotProbe)
    ensures
        spec_bot_decision(cell.state, probe) is Spawn ==> !cell.spec_is_running(),
        spec_after_spawn(cell, handle).state == (WorkerState::Running { handle }),
        spec_bot_decision(spec_after_spawn(cell, handle).state, probe) is AlreadyRunning,
{
}

/// Law (missing-script handling): with the worker stopped and the
/// script absent, the decision is `MissingScript`: the start fails
/// fast, nothing spawns, and since planning does not touch the cell
/// the worker stays `Stopped`.
pub proof fn lemma_missing_script_rejected(state: WorkerState, probe: BotProbe)
    requires
        state is Stopped,
        !probe.script_present,
    ensures
        spec_bot_decision(state, probe) is MissingScript,
        !(spec_bot_decision(state, probe) is Spawn),
{
}

} // verus!
