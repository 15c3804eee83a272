//! Process supervision: the environment handed to the worker process, the
//! decision taken on the outcome of the spawn attempt, and the lifecycle of
//! the handle to the spawned child, from `Running` to `Reaped`.

use vstd::prelude::*;

verus! {

/// One environment-variable override for the worker process.
pub struct EnvVar {
    pub name: String,
    pub value: String,
}

/// Name of the variable set unconditionally in the worker's environment to
/// signal that it runs under this supervisor.
pub open spec fn supervised_flag_name() -> Seq<char> {
    "TAURI"@
}

/// Value of the supervised-mode flag.
pub open spec fn supervised_flag_value() -> Seq<char> {
    "1"@
}

/// The value that a sequence of overrides assigns to `name`, the last
/// assignment winning, as when the overrides are applied in order to a
/// child's environment.
pub open spec fn env_value(env: Seq<EnvVar>, name: Seq<char>) -> Option<Seq<char>>
    decreases env.len(),
{
    if env.len() == 0 {
        None
    } else if env.last().name@ == name {
        Some(env.last().value@)
    } else {
        env_value(env.drop_last(), name)
    }
}

/// Extends the caller's overrides with the supervised-mode flag. The flag
/// comes last, so it wins over any override of the same name: whatever the
/// caller supplies, the prepared environment assigns the flag its value.
pub fn prepare_env(overrides: Vec<EnvVar>) -> (env: Vec<EnvVar>)
    ensures
        env@.len() == overrides@.len() + 1,
        forall|i: int| 0 <= i < overrides@.len() ==> env@[i] == overrides@[i],
        env@.last().name@ == supervised_flag_name(),
        env@.last().value@ == supervised_flag_value(),
        env_value(env@, supervised_flag_name()) == Some(supervised_flag_value()),
{
    let mut env = overrides;
    env.push(EnvVar { name: "TAURI".to_owned(), value: "1".to_owned() });
    env
}

/// Everything the shell needs for one spawn attempt: the worker executable,
/// as resolved by the surrounding packaging layer, and the environment
/// overrides to apply to the child, the supervised-mode flag included.
pub struct LaunchRequest {
    pub program: String,
    pub env: Vec<EnvVar>,
}

/// Builds the spawn action for a worker executable: the program is kept as
/// the caller resolved it, and the environment is the caller's overrides
/// extended with the supervised-mode flag, which wins over any override of
/// the same name.
pub fn prepare_launch(program: String, overrides: Vec<EnvVar>) -> (req: LaunchRequest)
    ensures
        req.program@ == program@,
        req.env@.len() == overrides@.len() + 1,
        forall|i: int| 0 <= i < overrides@.len() ==> req.env@[i] == overrides@[i],
        env_value(req.env@, supervised_flag_name()) == Some(supervised_flag_value()),
{
    LaunchRequest { program, env: prepare_env(overrides) }
}

/// Lifecycle of a handle to a spawned worker. The only transition is
/// `Running` to `Reaped`; there is no path back.
pub enum LifeState {
    Running,
    Reaped,
}

/// What the operating system reported for one attempt to create the worker
/// process: the child's process identifier, or the error text.
pub enum SpawnOutcome {
    Spawned { pid: u32 },
    Failed { message: String },
}

/// Errors of a "start" request. Spawn failure is the only kind: port
/// allocation degrades silently and never errors, and failures after a
/// successful spawn are out of the supervisor's scope.
pub enum LaunchError {
    SpawnFailed(String),
}

/// A handle to one spawned worker process: its process identifier, the port
/// assigned to it, and its lifecycle state. One handle exists per successful
/// "start" request; the background reaper owns it exclusively.
pub struct WorkerHandle {
    pub pid: u32,
    pub port: u16,
    pub state: LifeState,
}

/// The launch decision on a spawn outcome: a successful process creation
/// yields a running handle carrying the assigned port; a failed one yields
/// `SpawnFailed` with the operating system's error text, and no handle.
pub open spec fn start_spec(port: u16, outcome: SpawnOutcome) -> Result<WorkerHandle, LaunchError> {
    match outcome {
        SpawnOutcome::Spawned { pid } => Ok(
            WorkerHandle { pid, port, state: LifeState::Running },
        ),
        SpawnOutcome::Failed { message } => Err(LaunchError::SpawnFailed(message)),
    }
}

/// Decides a "start" request from what the spawn attempt reported. Success
/// is owed exactly when the process was created: then the handle is running
/// and wraps that process and the assigned port. Otherwise the request fails
/// with `SpawnFailed` carrying the underlying error text.
pub fn start(port: u16, outcome: SpawnOutcome) -> (r: Result<WorkerHandle, LaunchError>)
    ensures
        r == start_spec(port, outcome),
        outcome matches SpawnOutcome::Spawned { pid } ==> (r matches Ok(h) && h.pid == pid
            && h.port == port && h.state is Running),
        outcome matches SpawnOutcome::Failed { message } ==> (r matches Err(
            LaunchError::SpawnFailed(m),
        ) && m@ == message@),
{
    match outcome {
        SpawnOutcome::Spawned { pid } => Ok(
            WorkerHandle { pid, port, state: LifeState::Running },
        ),
        SpawnOutcome::Failed { message } => Err(LaunchError::SpawnFailed(message)),
    }
}

impl WorkerHandle {
    /// True while the background wait has not yet observed process exit.
    pub fn is_running(&self) -> (r: bool)
        ensures
            r == (self.state is Running),
    {
        match self.state {
            LifeState::Running => true,
            LifeState::Reaped => false,
        }
    }

    /// Records that the background wait observed the worker's termination.
    /// The transition is one-directional: whatever state the handle held, it
    /// is `Reaped` afterwards, with process identifier and port unchanged.
    /// No operation returns a handle to `Running`.
    pub fn reap(&mut self)
        ensures
            final(self).pid == old(self).pid,
            final(self).port == old(self).port,
            final(self).state is Reaped,
    {
        self.state = LifeState::Reaped;
    }
}

/// The caller-visible outcome of a "start" request: the assigned port on
/// success, the spawn error's text on failure.
pub fn backend_response(r: &Result<WorkerHandle, LaunchError>) -> (out: Result<u16, String>)
    ensures
        r matches Ok(h) ==> (out matches Ok(p) && p == h.port),
        r matches Err(LaunchError::SpawnFailed(m)) ==> (out matches Err(s) && s@ == m@),
{
    match r {
        Ok(h) => Ok(h.port),
        Err(LaunchError::SpawnFailed(m)) => Err(m.clone()),
    }
}

/// Complete decision of one "start backend" request once the spawn attempt
/// has reported: the response handed back to the caller, and the handle that
/// the background reaper takes ownership of. The caller sees the assigned
/// port exactly when the process was created, and the error text otherwise;
/// a handle exists exactly on success, and it starts out running.
pub fn start_backend(port: u16, outcome: SpawnOutcome) -> (r: (
    Result<u16, String>,
    Option<WorkerHandle>,
))
    ensures
        outcome matches SpawnOutcome::Spawned { pid } ==> (r.1 matches Some(h) && h.pid == pid
            && h.port == port && h.state is Running && r.0 == Ok::<u16, String>(port)),
        outcome matches SpawnOutcome::Failed { message } ==> (r.0 matches Err(s)
            && s@ == message@ && r.1 is None),
{
    let decision = start(port, outcome);
    let response = backend_response(&decision);
    match decision {
        Ok(handle) => (response, Some(handle)),
        Err(_) => (response, None),
    }
}

/// Two "start" requests in quick succession are independent: no shared state
/// serializes them, so when both spawns succeed, each yields its own live
/// handle carrying its own process identifier and port, and no error arises
/// from the pair.
pub proof fn lemma_starts_independent(port1: u16, pid1: u32, port2: u16, pid2: u32)
    ensures
        (start_spec(port1, (SpawnOutcome::Spawned { pid: pid1 })) matches Ok(h) && h.pid == pid1
            && h.port == port1 && h.state is Running),
        (start_spec(port2, (SpawnOutcome::Spawned { pid: pid2 })) matches Ok(h) && h.pid == pid2
            && h.port == port2 && h.state is Running),
{
}

} // verus!
