//! What the handlers share.

use std::sync::Arc;
use vstd::prelude::*;

verus! {

/// A counting semaphore of `tokio`.
#[verifier::external_type_specification]
#[verifier::external_body]
pub struct ExSemaphore(tokio::sync::Semaphore);

/// The number of permits that a semaphore was made with.
pub uninterp spec fn permits_made_with(semaphore: tokio::sync::Semaphore) -> nat;

/// The most permits that a semaphore can be made with.
pub open spec fn max_permits() -> nat {
    (usize::MAX / 8) as nat
}

/// A semaphore with the given number of permits, by `tokio::sync::Semaphore::new`, which panics
/// where that is more than `usize::MAX >> 3`.
///
/// Claimed of it: it was made with that number.
#[verifier::external_body]
fn new_semaphore(permits: usize) -> (r: tokio::sync::Semaphore)
    requires
        permits <= max_permits(),
    ensures
        permits_made_with(r) == permits,
{
    tokio::sync::Semaphore::new(permits)
}

/// What the handlers share: the worker router `R`, the HTTP client `C`, and the semaphore that
/// stands for the requests that may be under way at once.
#[derive(Debug)]
pub struct AppState<R, C> {
    router: R,
    client: C,
    concurrency_limiter: Arc<tokio::sync::Semaphore>,
}

impl<R: Clone, C: Clone> Clone for AppState<R, C> {
    /// A second handle on the same semaphore, with clones of the router and the client.
    fn clone(&self) -> (r: Self)
        ensures
            cloned(self.spec_router(), r.spec_router()),
            cloned(self.spec_client(), r.spec_client()),
            r.spec_limiter() == self.spec_limiter(),
            r.concurrency_limit() == self.concurrency_limit(),
    {
        AppState {
            router: self.router.clone(),
            client: self.client.clone(),
            concurrency_limiter: self.concurrency_limiter.clone(),
        }
    }
}

impl<R, C> AppState<R, C> {
    /// The worker router.
    pub closed spec fn spec_router(self) -> R {
        self.router
    }

    /// The HTTP client.
    pub closed spec fn spec_client(self) -> C {
        self.client
    }

    /// The semaphore that stands for the requests that may be under way at once.
    pub closed spec fn spec_limiter(self) -> tokio::sync::Semaphore {
        *self.concurrency_limiter
    }

    /// The number of requests that may be under way at once.
    pub closed spec fn concurrency_limit(self) -> nat {
        permits_made_with(self.spec_limiter())
    }

    /// Puts the state together from what came of making the worker router. Fails as that did, and
    /// only then.
    pub fn new(router: Result<R, String>, client: C, max_concurrent_requests: usize) -> (r: Result<
        Self,
        String,
    >)
        requires
            router is Ok ==> max_concurrent_requests <= max_permits(),
        ensures
            match (router, r) {
                (Ok(router), Ok(state)) => {
                    &&& state.spec_router() == router
                    &&& state.spec_client() == client
                    &&& state.concurrency_limit() == max_concurrent_requests
                    &&& permits_made_with(state.spec_limiter()) == max_concurrent_requests
                },
                (Err(error), Err(message)) => message == error,
                _ => false,
            },
    {
        match router {
            Ok(router) => {
                let concurrency_limiter = Arc::new(new_semaphore(max_concurrent_requests));
                Ok(AppState { router, client, concurrency_limiter })
            },
            Err(error) => Err(error),
        }
    }

    /// The worker router.
    pub fn router(&self) -> (r: &R)
        ensures
            *r == self.spec_router(),
    {
        &self.router
    }

    /// The HTTP client.
    pub fn client(&self) -> (r: &C)
        ensures
            *r == self.spec_client(),
    {
        &self.client
    }
}

/// The number of requests that may be under way at once is the number of permits that the
/// semaphore was made with, so states that share a semaphore share that number.
pub proof fn limits_come_from_the_semaphore<R, C>(state: AppState<R, C>, other: AppState<R, C>)
    ensures
        state.concurrency_limit() == permits_made_with(state.spec_limiter()),
        state.spec_limiter() == other.spec_limiter() ==> state.concurrency_limit()
            == other.concurrency_limit(),
{
}

} // verus!
