use vstd::prelude::*;
use crate::error::Error;

verus! {

#[verifier::external_type_specification]
#[verifier::external_body]
pub struct ExThreadPool(rayon::ThreadPool);

#[verifier::external_type_specification]
#[verifier::external_body]
pub struct ExThreadPoolBuildError(rayon::ThreadPoolBuildError);

/// Resources for computing on the host: a pool of threads of its own.
pub struct CpuContext {
    pub(crate) thread_pool: rayon::ThreadPool,
}

/// `rayon::ThreadPoolBuilder::new().build()`: a pool with the default
/// configuration.  Whether it can be built depends on the machine, so
/// nothing is said of the result.
#[verifier::external_body]
fn build_thread_pool() -> (r: Result<rayon::ThreadPool, rayon::ThreadPoolBuildError>) {
    rayon::ThreadPoolBuilder::new().build()
}

/// The text that `rayon::ThreadPoolBuildError` displays.  It is the
/// platform's, so nothing is said of it.
#[verifier::external_body]
fn build_error_message(e: &rayon::ThreadPoolBuildError) -> (s: String) {
    format!("{}", e)
}

impl CpuContext {
    /// A pool of threads of the default size.
    pub fn new() -> (r: Result<Self, Error>)
        ensures
            r is Err ==> r->Err_0 is ContextCreationFailed,
    {
        match build_thread_pool() {
            Ok(thread_pool) => Self::from_built(Ok(thread_pool)),
            Err(e) => Self::from_built(Err(build_error_message(&e))),
        }
    }

    /// The pool of threads of the context.
    pub closed spec fn pool(self) -> rayon::ThreadPool {
        self.thread_pool
    }

    /// The context that the building of a pool has given: a context around
    /// the pool where there is one, and else `ContextCreationFailed` with
    /// the message of the failure.
    pub fn from_built(built: Result<rayon::ThreadPool, String>) -> (r: Result<Self, Error>)
        ensures
            match built {
                Ok(pool) => r is Ok && r->Ok_0.pool() == pool,
                Err(m) => r == Err::<Self, Error>(Error::ContextCreationFailed(m)),
            },
    {
        match built {
            Ok(thread_pool) => Ok(CpuContext { thread_pool }),
            Err(m) => Err(Error::ContextCreationFailed(m)),
        }
    }
}

} // verus!
