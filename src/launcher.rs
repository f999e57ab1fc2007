//! Startup of the backend: what is recorded once the sidecar spawn has been
//! attempted, and the fixed settings of the launch.
use vstd::prelude::*;
use crate::supervisor::{stored, taken, Supervisor};

verus! {

/// Logical name of the bundled backend executable; the host resolves it to
/// the binary built for its own platform.
pub const SIDECAR_NAME: &'static str = "backend";

/// Seconds waited after a successful spawn before the backend is taken to be
/// ready. The wait is blind: nothing is read from the process.
pub const STARTUP_DELAY_SECS: u64 = 5;

/// Where the backend serves once it is ready.
pub const BACKEND_URL: &'static str = "http://localhost:8080";

/// Why the backend could not be started.
pub enum LaunchError {
    /// The sidecar binary could not be resolved, or the system refused to
    /// spawn it; the text says why.
    SpawnFailure(String),
}

/// The text written when startup fails with `e`.
pub open spec fn launch_error_text(e: LaunchError) -> Seq<char> {
    match e {
        LaunchError::SpawnFailure(why) => "Error al iniciar backend: "@ + why@,
    }
}

impl LaunchError {
    /// The line written to the error log for this failure.
    pub fn message(&self) -> (r: String)
        ensures
            r@ == launch_error_text(*self),
    {
        match self {
            LaunchError::SpawnFailure(why) => {
                let mut s = String::from_str("Error al iniciar backend: ");
                s.append(why.as_str());
                s
            },
        }
    }
}

/// Records the outcome of spawning the backend. A spawned process's handle is
/// stored in the supervisor at once, before any event is relayed, so that a
/// close request that comes during the startup wait can still kill it. A
/// failed spawn is reported as `SpawnFailure` and leaves the supervisor as it
/// was; nothing is retried.
pub fn record_spawn<H>(sup: &mut Supervisor<H>, spawned: Result<H, String>) -> (r: Result<(), LaunchError>)
    ensures
        match spawned {
            Ok(h) => r is Ok && final(sup)@ == stored(old(sup)@, h),
            Err(why) => r == Err::<(), LaunchError>(LaunchError::SpawnFailure(why)) && final(sup)@ == old(sup)@,
        },
{
    match spawned {
        Ok(h) => {
            sup.store(h);
            Ok(())
        },
        Err(why) => Err(LaunchError::SpawnFailure(why)),
    }
}

/// A close request that comes after the spawn was recorded, while the startup
/// wait may still be pending, takes out exactly the spawned process's handle,
/// to be killed, and leaves none behind.
pub proof fn lemma_close_after_spawn<H>(slot: Option<H>, h: H)
    ensures
        taken(stored(slot, h)) == (Some(h), None::<H>),
{
}

} // verus!
