//! Supervisor for an external worker process: picks a free local TCP port,
//! prepares the environment for the worker, and tracks the lifecycle of the
//! spawned child from `Running` to `Reaped`.

pub mod port;
pub mod supervisor;
