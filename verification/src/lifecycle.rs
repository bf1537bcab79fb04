//! The service lifecycle: a straight-line state machine from `Created` to
//! `Stopped`. Configuration failures and pre-run hook failures are fatal
//! before any traffic is accepted; the listener starts only after every hook
//! succeeded, and the process exit status is zero exactly for a graceful
//! stop.

use vstd::prelude::*;

verus! {

/// The phases of the service, in the order they are reached.
#[derive(Clone, Copy, PartialEq, Eq, Structural, Debug)]
pub enum Phase {
    Created,
    Configured,
    PoolsInitialized,
    PreRunComplete,
    Serving,
    ShuttingDown,
    Stopped,
}

/// A fatal startup failure: the process terminates before serving.
#[derive(Clone, Copy, PartialEq, Eq, Structural, Debug)]
pub enum StartupError {
    ConfigError,
    HookFailure,
}

/// The lifecycle's one piece of state.
pub struct Lifecycle {
    pub phase: Phase,
}

/// Did every pre-run hook succeed?
pub open spec fn all_hooks_ok(rs: Seq<bool>) -> bool {
    forall|j: int| 0 <= j < rs.len() ==> rs[j]
}

/// Where startup ends for given collaborator outcomes: short of `Serving`
/// exactly when the configuration is malformed or some hook failed.
pub open spec fn spec_startup_phase(config_ok: bool, rs: Seq<bool>) -> Phase {
    if !config_ok {
        Phase::Created
    } else if all_hooks_ok(rs) {
        Phase::Serving
    } else {
        Phase::PoolsInitialized
    }
}

/// The process status for a final phase: zero only for a graceful stop.
pub open spec fn spec_exit_code(p: Phase) -> int {
    if p == Phase::Stopped {
        0
    } else {
        1
    }
}

impl Lifecycle {
    pub fn new() -> (lc: Lifecycle)
        ensures
            lc.phase == Phase::Created,
    {
        Lifecycle { phase: Phase::Created }
    }

    /// Load the configuration: a malformed one is fatal and the process does
    /// not start.
    pub fn configure(&mut self, config_ok: bool) -> (r: Result<(), StartupError>)
        requires
            old(self).phase == Phase::Created,
        ensures
            config_ok ==> r is Ok && final(self).phase == Phase::Configured,
            !config_ok ==> (r matches Err(e) && e == StartupError::ConfigError) && final(self).phase == Phase::Created,
    {
        if config_ok {
            self.phase = Phase::Configured;
            Ok(())
        } else {
            Err(StartupError::ConfigError)
        }
    }

    /// Construct the pools. They connect lazily, so this transition never
    /// fails on backend unavailability; that surfaces at first acquire.
    pub fn init_pools(&mut self)
        requires
            old(self).phase == Phase::Configured,
        ensures
            final(self).phase == Phase::PoolsInitialized,
    {
        self.phase = Phase::PoolsInitialized;
    }

    /// Await the pre-run hooks, in registration order; any failure is fatal
    /// and the service never starts accepting traffic. `hook_results` are the
    /// outcomes of the hooks the caller awaited, in that order.
    pub fn pre_run(&mut self, hook_results: &Vec<bool>) -> (r: Result<(), StartupError>)
        requires
            old(self).phase == Phase::PoolsInitialized,
        ensures
            all_hooks_ok(hook_results@) ==> r is Ok && final(self).phase == Phase::PreRunComplete,
            !all_hooks_ok(hook_results@) ==> (r matches Err(e) && e == StartupError::HookFailure)
                && final(self).phase == Phase::PoolsInitialized,
    {
        let mut i: usize = 0;
        while i < hook_results.len()
            invariant
                *self == *old(self),
                old(self).phase == Phase::PoolsInitialized,
                0 <= i <= hook_results@.len(),
                forall|j: int| 0 <= j < i ==> hook_results@[j],
            decreases hook_results@.len() - i,
        {
            if !hook_results[i] {
                return Err(StartupError::HookFailure);
            }
            i = i + 1;
        }
        self.phase = Phase::PreRunComplete;
        Ok(())
    }

    /// Bind the listener and start accepting connections; the router is
    /// immutable from here on.
    pub fn start_serving(&mut self)
        requires
            old(self).phase == Phase::PreRunComplete,
        ensures
            final(self).phase == Phase::Serving,
    {
        self.phase = Phase::Serving;
    }

    /// A termination signal arrived: stop accepting connections and let
    /// in-flight requests drain up to the grace period.
    pub fn begin_shutdown(&mut self)
        requires
            old(self).phase == Phase::Serving,
        ensures
            final(self).phase == Phase::ShuttingDown,
    {
        self.phase = Phase::ShuttingDown;
    }

    /// The drain ended and the pools are closed: the process may return its
    /// exit status.
    pub fn complete_shutdown(&mut self)
        requires
            old(self).phase == Phase::ShuttingDown,
        ensures
            final(self).phase == Phase::Stopped,
    {
        self.phase = Phase::Stopped;
    }

    /// The process status to exit with: zero only after a graceful stop.
    pub fn exit_code(&self) -> (c: i32)
        ensures
            c as int == spec_exit_code(self.phase),
    {
        if self.phase == Phase::Stopped {
            0
        } else {
            1
        }
    }
}

/// Drive startup from the collaborators' outcomes: the loaded configuration's
/// validity and the awaited hooks' results, in registration order.
pub fn startup(config_ok: bool, hook_results: &Vec<bool>) -> (out: (Lifecycle, Option<
    StartupError,
>))
    ensures
        out.0.phase == spec_startup_phase(config_ok, hook_results@),
        !config_ok ==> out.1 == Some(StartupError::ConfigError),
        config_ok && all_hooks_ok(hook_results@) ==> out.1 is None,
        config_ok && !all_hooks_ok(hook_results@) ==> out.1 == Some(StartupError::HookFailure),
{
    let mut lc = Lifecycle::new();
    match lc.configure(config_ok) {
        Err(e) => {
            return (lc, Some(e));
        },
        Ok(_) => {},
    }
    lc.init_pools();
    match lc.pre_run(hook_results) {
        Err(e) => {
            return (lc, Some(e));
        },
        Ok(_) => {},
    }
    lc.start_serving();
    (lc, None)
}

/// Law: if any pre-run hook fails, the process never reaches `Serving`, and
/// since only a graceful stop exits with zero, its exit status is non-zero.
pub proof fn lemma_hook_failure_is_fatal(config_ok: bool, rs: Seq<bool>)
    requires
        !all_hooks_ok(rs),
    ensures
        spec_startup_phase(config_ok, rs) != Phase::Serving,
        spec_exit_code(spec_startup_phase(config_ok, rs)) != 0,
{
}

} // verus!
