//! Lifecycle of a companion backend process ("sidecar") run beside a desktop
//! host: a supervisor that owns at most one process handle, the decision made
//! on each event the process emits, and the bookkeeping done when it spawns.
pub mod launcher;
pub mod relay;
pub mod supervisor;
