//! Runtime bootstrap: the diagnostic hook that turns unrecoverable internal
//! failures into reported messages, and the fixed worker pool that the
//! external prover uses for internal parallelism on multi-threaded builds.

use vstd::prelude::*;

verus! {

/// Handle for the fixed pool of parallel workers. Constructing it is the
/// only place the thread count is decided; the handle then lives for the
/// whole process.
pub struct WorkerPool {
    threads: usize,
}

impl WorkerPool {
    /// How many workers the pool was created with.
    pub closed spec fn thread_count(&self) -> nat {
        self.threads as nat
    }

    /// Creates the pool handle, sized to the host's reported logical-core
    /// count. A pool has at least one worker.
    pub fn new(threads: usize) -> (pool: WorkerPool)
        requires
            threads >= 1,
        ensures
            pool.thread_count() == threads,
    {
        WorkerPool { threads }
    }

    /// The worker count, as the executable value.
    pub fn threads(&self) -> (n: usize)
        ensures
            n == self.thread_count(),
    {
        self.threads
    }
}

/// Mathematical model of the bootstrap state: whether the diagnostic hook
/// is installed, whether this build configuration needs a worker pool, and
/// the pool's worker count once it has been initialized.
pub struct RuntimeState {
    pub needs_pool: bool,
    pub hook_installed: bool,
    pub pool: Option<nat>,
}

/// What installing the diagnostic hook does to the bootstrap state: the
/// hook is installed afterwards, and nothing else changes. Applying this
/// twice is the same as applying it once.
pub open spec fn install_hook_transition(s: RuntimeState) -> RuntimeState {
    RuntimeState { hook_installed: true, ..s }
}

/// What initializing the worker pool with `threads` workers does to the
/// bootstrap state: the pool is present with that count afterwards, and
/// nothing else changes.
pub open spec fn init_pool_transition(s: RuntimeState, threads: nat) -> RuntimeState {
    RuntimeState { pool: Some(threads), ..s }
}

/// A runtime is ready to serve proof requests once the diagnostic hook is
/// installed and, on a configuration that needs one, the worker pool has
/// been initialized.
pub open spec fn ready_for_proofs(s: RuntimeState) -> bool {
    s.hook_installed && (s.needs_pool ==> s.pool is Some)
}

/// Diagnostic-hook installation is idempotent: a second installation leaves
/// exactly the state the first one produced, so the diagnostic behaviour
/// after two installations equals the behaviour after one.
pub proof fn lemma_hook_installation_idempotent(s: RuntimeState)
    ensures
        install_hook_transition(install_hook_transition(s)) == install_hook_transition(s),
{
}

/// The two bootstrap steps commute: installing the diagnostic hook and
/// initializing the worker pool reach the same state in either order, so
/// no ordering is needed between them, only that both have run.
pub proof fn lemma_bootstrap_steps_commute(s: RuntimeState, threads: nat)
    ensures
        install_hook_transition(init_pool_transition(s, threads)) == init_pool_transition(
            install_hook_transition(s),
            threads,
        ),
{
}

/// Once a runtime is ready, installing the hook again keeps it ready, as
/// does initializing the pool again: bootstrap steps never revoke
/// readiness.
pub proof fn lemma_bootstrap_preserves_readiness(s: RuntimeState, threads: nat)
    requires
        ready_for_proofs(s),
    ensures
        ready_for_proofs(install_hook_transition(s)),
        ready_for_proofs(init_pool_transition(s, threads)),
{
}

/// The bootstrap state of the boundary: tracks the diagnostic hook and the
/// worker pool so that the proof entry point can insist on a completed
/// bootstrap instead of running with silent-abort failure behaviour.
pub struct Runtime {
    needs_pool: bool,
    hook_installed: bool,
    pool: Option<WorkerPool>,
}

impl View for Runtime {
    type V = RuntimeState;

    closed spec fn view(&self) -> RuntimeState {
        RuntimeState {
            needs_pool: self.needs_pool,
            hook_installed: self.hook_installed,
            pool: match self.pool {
                Some(p) => Some(p.thread_count()),
                None => None,
            },
        }
    }
}

/// Relies on console_error_panic_hook::set_once: it replaces the default
/// behaviour on an unrecoverable internal error with one that surfaces a
/// descriptive message through the host's error-reporting channel, and it
/// guards itself so that repeated calls install the hook exactly once.
#[verifier::external_body]
fn install_panic_message_hook() {
    console_error_panic_hook::set_once();
}

impl Runtime {
    /// A fresh runtime: nothing bootstrapped yet. `needs_pool` says whether
    /// this build configuration supports shared-memory multi-threading and
    /// therefore requires worker-pool initialization before the first proof
    /// request.
    pub fn new(needs_pool: bool) -> (rt: Runtime)
        ensures
            rt@ == (RuntimeState { needs_pool, hook_installed: false, pool: None }),
    {
        Runtime { needs_pool, hook_installed: false, pool: None }
    }

    /// Installs the diagnostic hook, so that an unrecoverable failure is
    /// reported as a message rather than aborting silently. Safe to call
    /// any number of times: every call after the first leaves the state
    /// exactly as the first one did.
    pub fn install_diagnostic_hook(&mut self)
        ensures
            final(self)@ == install_hook_transition(old(self)@),
    {
        install_panic_message_hook();
        self.hook_installed = true;
    }

    /// Hands the worker pool to the runtime, completing the pool part of
    /// the bootstrap.
    pub fn init_worker_pool(&mut self, pool: WorkerPool)
        ensures
            final(self)@ == init_pool_transition(old(self)@, pool.thread_count()),
    {
        self.pool = Some(pool);
    }

    /// Whether the bootstrap is complete and proof requests may be served.
    pub fn is_ready(&self) -> (r: bool)
        ensures
            r == ready_for_proofs(self@),
    {
        self.hook_installed && (!self.needs_pool || self.pool.is_some())
    }
}

} // verus!
