use vstd::prelude::*;

verus! {

/// Configuration for creating an execution context.
#[derive(Clone, Copy, Debug, PartialEq, Eq, Structural)]
pub struct RuntimeConfig {
    /// Worker threads to start; zero means the platform default.
    pub num_core_threads: u16,
}

#[verifier::external_type_specification]
#[verifier::external_body]
pub struct ExRuntime(tokio::runtime::Runtime);

/// The worker-thread override a configuration asks for: a positive count
/// overrides, zero or an absent configuration means the platform default.
pub fn worker_thread_count(config: Option<&RuntimeConfig>) -> (r: Option<usize>)
    ensures
        r is Some <==> (config matches Some(c) && c.num_core_threads > 0),
        r matches Some(n) ==> config matches Some(c) && n == c.num_core_threads as usize,
{
    match config {
        Some(c) => {
            if c.num_core_threads > 0 {
                Some(c.num_core_threads as usize)
            } else {
                None
            }
        },
        None => None,
    }
}

/// Relies on tokio's runtime `Builder`: `new_multi_thread` with all
/// drivers enabled builds a multi-threaded work-stealing scheduler,
/// `worker_threads` (which demands a positive count) overrides the worker
/// count, and `build` reports failure through `Err` rather than by
/// panicking.
#[verifier::external_body]
fn build_runtime(worker_threads: Option<usize>) -> (r: Option<tokio::runtime::Runtime>)
    requires
        worker_threads matches Some(n) ==> n >= 1,
{
    let mut builder = tokio::runtime::Builder::new_multi_thread();
    builder.enable_all();
    if let Some(n) = worker_threads {
        builder.worker_threads(n);
    }
    match builder.build() {
        Ok(r) => Some(r),
        Err(_) => None,
    }
}

/// Creates the multi-threaded execution context handed across the foreign
/// boundary. A context that cannot be built is reported as an absent
/// handle, never as a propagated panic. The handle is exclusively owned:
/// it must be destroyed exactly once and never used afterwards.
pub fn runtime_new(config: Option<&RuntimeConfig>) -> Option<tokio::runtime::Runtime> {
    let worker_threads = worker_thread_count(config);
    build_runtime(worker_threads)
}

/// Relies on dropping tokio's `Runtime`, which shuts its scheduler down.
/// Must not run from asynchronous code, where that drop aborts.
#[verifier::external_body]
fn drop_runtime(runtime: tokio::runtime::Runtime) {
    drop(runtime);
}

/// Destroys an execution context, releasing its worker threads. An absent
/// handle is a no-op: nothing is touched and nothing faults.
pub fn runtime_destroy(runtime: Option<tokio::runtime::Runtime>) {
    match runtime {
        Some(rt) => drop_runtime(rt),
        None => (),
    }
}

} // verus!
