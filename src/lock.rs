//! The lock that serialises calls into the engine.
use vstd::prelude::*;

verus! {

/// Declares lock_api's reentrant mutex, which parking_lot's `ReentrantMutex` is; `EngineLock`
/// holds one without looking inside.
#[verifier::external_type_specification]
#[verifier::external_body]
#[verifier::reject_recursive_types(R)]
#[verifier::reject_recursive_types(G)]
#[verifier::reject_recursive_types(T)]
pub struct ExReentrantMutex<R, G, T: ?Sized>(parking_lot::lock_api::ReentrantMutex<R, G, T>);

/// Declares parking_lot's raw mutex, a type argument of its reentrant mutex.
#[verifier::external_type_specification]
#[verifier::external_body]
pub struct ExRawMutex(parking_lot::RawMutex);

/// Declares parking_lot's thread id source, a type argument of its reentrant mutex.
#[verifier::external_type_specification]
#[verifier::external_body]
pub struct ExRawThreadId(parking_lot::RawThreadId);

/// The lock that serialises every call into the engine, whose state is global. A thread
/// that holds it may take it again. The pass-through form does nothing, for programs that
/// call the engine from one thread only.
pub enum EngineLock {
    PassThrough,
    Exclusive(parking_lot::ReentrantMutex<()>),
}

/// Relies on parking_lot::ReentrantMutex::new: an unlocked mutex.
#[verifier::external_body]
fn new_reentrant() -> parking_lot::ReentrantMutex<()> {
    parking_lot::ReentrantMutex::new(())
}

/// Relies on parking_lot::ReentrantMutex::lock: it blocks until the calling thread holds
/// the mutex, and the guard releases it once `f` has returned.
#[verifier::external_body]
fn run_locked<F: FnOnce() -> R, R>(m: &parking_lot::ReentrantMutex<()>, f: F) -> (r: R)
    requires
        f.requires(()),
    ensures
        f.ensures((), r),
{
    let _guard = m.lock();
    f()
}

impl EngineLock {
    /// A lock that excludes other threads, or a pass-through one.
    pub fn new(thread_safe: bool) -> (r: EngineLock)
        ensures
            r.is_thread_safe() == thread_safe,
    {
        if thread_safe {
            EngineLock::Exclusive(new_reentrant())
        } else {
            EngineLock::PassThrough
        }
    }

    pub open spec fn is_thread_safe(&self) -> bool {
        self is Exclusive
    }

    /// Whether this lock excludes other threads.
    pub fn thread_safe(&self) -> (r: bool)
        ensures
            r == self.is_thread_safe(),
    {
        match self {
            EngineLock::PassThrough => false,
            EngineLock::Exclusive(_) => true,
        }
    }

    /// Runs `f` while holding the lock, and returns what it returns.
    pub fn run<F: FnOnce() -> R, R>(&self, f: F) -> (r: R)
        requires
            f.requires(()),
        ensures
            f.ensures((), r),
    {
        match self {
            EngineLock::PassThrough => f(),
            EngineLock::Exclusive(m) => run_locked(m, f),
        }
    }
}

/// Runs `f` under the engine lock of single-threaded programs, which lets every call
/// through; a program that calls the engine from several threads runs its calls through one
/// shared `EngineLock::new(true)` instead.
pub fn with_asar_lock<F: FnOnce() -> R, R>(f: F) -> (r: R)
    requires
        f.requires(()),
    ensures
        f.ensures((), r),
{
    f()
}

} // verus!
