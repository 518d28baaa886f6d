//! Limits the number of simultaneous requests to the remote drive.
use std::sync::Arc;
use tokio::sync::{OwnedSemaphorePermit, Semaphore};
use vstd::prelude::*;

verus! {

/// Declares `tokio::sync::Semaphore`, which holds the free request slots.
#[verifier::external_type_specification]
#[verifier::external_body]
pub struct ExSemaphore(Semaphore);

/// Declares `tokio::sync::OwnedSemaphorePermit`, one taken slot.
#[verifier::external_type_specification]
#[verifier::external_body]
pub struct ExOwnedSemaphorePermit(OwnedSemaphorePermit);

/// The largest number of slots a semaphore can hold (`Semaphore::MAX_PERMITS`, which is
/// `usize::MAX >> 3`).
pub open spec fn max_permits() -> int {
    usize::MAX as int / 8
}

/// Creates a semaphore with `permits` free slots with `Semaphore::new`, shared through an
/// `Arc`; `Semaphore::new` panics above `MAX_PERMITS`, hence the precondition.
#[verifier::external_body]
fn new_semaphore(permits: usize) -> Arc<Semaphore>
    requires
        permits <= max_permits(),
{
    Arc::new(Semaphore::new(permits))
}

/// Another handle on the same semaphore (`Arc::clone`, which documents that the new pointer
/// points to the same allocation).
#[verifier::external_body]
fn share_semaphore(s: &Arc<Semaphore>) -> (r: Arc<Semaphore>)
    ensures
        r == *s,
{
    Arc::clone(s)
}

/// The number of free slots at the time of the call (`Semaphore::available_permits`). The
/// value depends on the other holders of the semaphore; the source stores the count shifted
/// left by one bit, so it is below `usize::MAX`.
#[verifier::external_body]
fn free_slots(s: &Arc<Semaphore>) -> (r: usize)
    ensures
        r < usize::MAX,
{
    s.available_permits()
}

/// Takes a slot if one is free at the time of the call (`Semaphore::try_acquire_owned`);
/// whether one is free depends on the other holders of the semaphore.
#[verifier::external_body]
fn take_slot_now(s: Arc<Semaphore>) -> Option<OwnedSemaphorePermit> {
    s.try_acquire_owned().ok()
}

/// A taken slot; the slot is given back when the guard is dropped.
pub struct RateLimitGuard {
    _permit: OwnedSemaphorePermit,
}

impl RateLimitGuard {
    /// The taken slot that the guard holds.
    pub closed spec fn permit(self) -> OwnedSemaphorePermit {
        self._permit
    }

    /// The guard of a slot taken from the limiter's semaphore.
    pub fn from_permit(permit: OwnedSemaphorePermit) -> (r: Self)
        ensures
            r.permit() == permit,
    {
        RateLimitGuard { _permit: permit }
    }
}

/// Whether a limiter of `capacity` simultaneous requests is close to its limit: fewer than
/// 20% of its slots are free.
pub open spec fn below_fifth_free(available: usize, capacity: usize) -> bool {
    available * 5 < capacity
}

/// Whether `available` free slots are fewer than 20% of `capacity`.
pub fn near_limit(available: usize, capacity: usize) -> (r: bool)
    ensures
        r == below_fifth_free(available, capacity),
{
    if available > usize::MAX / 5 {
        false
    } else {
        available * 5 < capacity
    }
}

/// What a request does under a per-period budget.
#[derive(Debug, PartialEq, Eq, Structural)]
pub enum BudgetDecision {
    /// The request is counted and goes ahead.
    Proceed,
    /// The budget of the current period is spent: wait `secs` seconds, until the period
    /// ends, then ask again.
    WaitSecs { secs: u64 },
}

/// The requests counted against a budget of requests per period, in fixed periods: a
/// period starts with the first request after the previous one ended.
pub struct RequestWindow {
    max_requests: u32,
    period_secs: u64,
    started: u64,
    count: u32,
}

/// Whether the period that started at `started` (Unix seconds) and lasts `period_secs` is
/// over at `now` (a clock that went back also ends it).
pub open spec fn period_over(started: u64, period_secs: u64, now: u64) -> bool {
    now < started || now - started >= period_secs
}

impl RequestWindow {
    #[verifier::type_invariant]
    spec fn within_budget(self) -> bool {
        self.max_requests == 0 || self.count <= self.max_requests
    }

    /// The requests allowed per period; 0 means no budget.
    pub closed spec fn budget(self) -> u32 {
        self.max_requests
    }

    /// The length of a period in seconds.
    pub closed spec fn period(self) -> u64 {
        self.period_secs
    }

    /// When the current period started (Unix seconds).
    pub closed spec fn started(self) -> u64 {
        self.started
    }

    /// The requests counted in the current period.
    pub closed spec fn admitted(self) -> u32 {
        self.count
    }

    /// A budget of `max_requests` requests per `period_secs` seconds with nothing counted.
    pub fn new(max_requests: u32, period_secs: u64) -> (r: Self)
        ensures
            r.budget() == max_requests,
            r.period() == period_secs,
            r.started() == 0,
            r.admitted() == 0,
    {
        RequestWindow { max_requests, period_secs, started: 0, count: 0 }
    }

    /// Decides whether a request made at `now` (Unix seconds) goes ahead. Without a budget it
    /// always does, uncounted. When the current period is over, a new one starts at `now`
    /// with this request. Otherwise the request is counted while the budget lasts; once it
    /// is spent, the answer is to wait until the period ends.
    pub fn request_at(&mut self, now: u64) -> (r: BudgetDecision)
        ensures
            final(self).budget() == old(self).budget(),
            final(self).period() == old(self).period(),
            old(self).budget() == 0 ==> r == BudgetDecision::Proceed && final(self).started()
                == old(self).started() && final(self).admitted() == old(self).admitted(),
            old(self).budget() > 0 && period_over(old(self).started(), old(self).period(), now)
                ==> r == BudgetDecision::Proceed && final(self).started() == now
                && final(self).admitted() == 1,
            old(self).budget() > 0 && !period_over(old(self).started(), old(self).period(), now)
                && old(self).admitted() < old(self).budget() ==> r == BudgetDecision::Proceed
                && final(self).started() == old(self).started() && final(self).admitted()
                == old(self).admitted() + 1,
            old(self).budget() > 0 && !period_over(old(self).started(), old(self).period(), now)
                && old(self).admitted() >= old(self).budget() ==> r == (BudgetDecision::WaitSecs {
                secs: (old(self).period() - (now - old(self).started())) as u64,
            }) && final(self).started() == old(self).started() && final(self).admitted()
                == old(self).admitted(),
            old(self).budget() > 0 ==> final(self).admitted() <= final(self).budget(),
            r matches BudgetDecision::WaitSecs { secs } ==> 0 < secs <= old(self).period(),
    {
        proof {
            use_type_invariant(&*self);
        }
        if self.max_requests == 0 {
            return BudgetDecision::Proceed;
        }
        if now < self.started || now - self.started >= self.period_secs {
            self.started = now;
            self.count = 1;
            return BudgetDecision::Proceed;
        }
        if self.count < self.max_requests {
            self.count = self.count + 1;
            return BudgetDecision::Proceed;
        }
        BudgetDecision::WaitSecs { secs: self.period_secs - (now - self.started) }
    }
}

/// A limiter of the requests sent to the remote drive: it bounds how many run at once, and
/// hands out the per-period budget as a `RequestWindow` that counts requests against it.
pub struct DriveRateLimiter {
    semaphore: Arc<Semaphore>,
    max_concurrent: usize,
    max_requests_per_period: u32,
    period_seconds: u64,
}

impl DriveRateLimiter {
    /// The budget of requests per period.
    pub closed spec fn requests_per_period(self) -> u32 {
        self.max_requests_per_period
    }

    /// The length of the budget's period in seconds.
    pub closed spec fn period(self) -> u64 {
        self.period_seconds
    }

    /// The number of simultaneous requests allowed: the slots the limiter was made with.
    pub closed spec fn capacity(self) -> usize {
        self.max_concurrent
    }

    /// The semaphore that holds the limiter's free slots.
    pub closed spec fn slots(self) -> Arc<Semaphore> {
        self.semaphore
    }

    /// A limiter of 10 simultaneous requests and a budget of 800 requests per 100 seconds.
    pub fn new() -> (r: Self)
        ensures
            r.capacity() == 10,
            r.requests_per_period() == 800,
            r.period() == 100,
    {
        Self::with_limits(10, 800, 100)
    }

    /// A limiter of `max_concurrent` simultaneous requests and a budget of `max_requests`
    /// requests per `period_secs` seconds.
    pub fn with_limits(max_concurrent: usize, max_requests: u32, period_secs: u64) -> (r: Self)
        requires
            max_concurrent <= max_permits(),
        ensures
            r.capacity() == max_concurrent,
            r.requests_per_period() == max_requests,
            r.period() == period_secs,
    {
        DriveRateLimiter {
            semaphore: new_semaphore(max_concurrent),
            max_concurrent,
            max_requests_per_period: max_requests,
            period_seconds: period_secs,
        }
    }

    /// A fresh count of requests against the limiter's per-period budget.
    pub fn request_window(&self) -> (r: RequestWindow)
        ensures
            r.budget() == self.requests_per_period(),
            r.period() == self.period(),
            r.admitted() == 0,
    {
        RequestWindow::new(self.max_requests_per_period, self.period_seconds)
    }

    /// A handle on the semaphore of free slots, for waiting on a slot.
    pub fn semaphore(&self) -> (r: Arc<Semaphore>)
        ensures
            r == self.slots(),
    {
        share_semaphore(&self.semaphore)
    }

    /// Takes a slot without waiting, if one is free.
    pub fn try_acquire(&self) -> Option<RateLimitGuard> {
        match take_slot_now(share_semaphore(&self.semaphore)) {
            Some(permit) => Some(RateLimitGuard::from_permit(permit)),
            None => None,
        }
    }

    /// The number of free slots.
    pub fn available_permits(&self) -> (r: usize)
        ensures
            r < usize::MAX,
    {
        free_slots(&self.semaphore)
    }

    /// Whether fewer than 20% of the slots are free, by one reading of the free slots (see
    /// `below_fifth_free`). The reading depends on the other holders of the slots; a limiter
    /// of no slots is never near its limit.
    pub fn is_near_limit(&self) -> (r: bool)
        ensures
            r ==> self.capacity() > 0,
    {
        let available = self.available_permits();
        near_limit(available, self.max_concurrent)
    }
}

impl Clone for DriveRateLimiter {
    /// Another limiter sharing the same slots.
    fn clone(&self) -> (r: Self)
        ensures
            r.capacity() == self.capacity(),
            r.requests_per_period() == self.requests_per_period(),
            r.period() == self.period(),
    {
        DriveRateLimiter {
            semaphore: share_semaphore(&self.semaphore),
            max_concurrent: self.max_concurrent,
            max_requests_per_period: self.max_requests_per_period,
            period_seconds: self.period_seconds,
        }
    }
}

impl Default for DriveRateLimiter {
    fn default() -> (r: Self)
        ensures
            r.capacity() == 10,
            r.requests_per_period() == 800,
            r.period() == 100,
    {
        Self::new()
    }
}

/// A client whose requests go through a limiter.
pub struct RateLimitedClient<T> {
    inner: T,
    limiter: DriveRateLimiter,
}

impl<T> RateLimitedClient<T> {
    /// The client as given.
    pub closed spec fn client(self) -> T {
        self.inner
    }

    /// The limiter's settings: simultaneous requests, requests per period and period.
    pub closed spec fn limits(self) -> (usize, u32, u64) {
        (self.limiter.capacity(), self.limiter.requests_per_period(), self.limiter.period())
    }

    /// `client` limited by `limiter`.
    pub fn new(client: T, limiter: DriveRateLimiter) -> (r: Self)
        ensures
            r.client() == client,
            r.limits() == (limiter.capacity(), limiter.requests_per_period(), limiter.period()),
    {
        RateLimitedClient { inner: client, limiter }
    }

    /// The client.
    pub fn inner(&self) -> (r: &T)
        ensures
            *r == self.client(),
    {
        &self.inner
    }

    /// The client, for changes.
    pub fn inner_mut(&mut self) -> (r: &mut T)
        ensures
            *r == old(self).client(),
            final(self).client() == *final(r),
            final(self).limits() == old(self).limits(),
    {
        &mut self.inner
    }

    /// The limiter.
    pub fn limiter(&self) -> (r: &DriveRateLimiter)
        ensures
            (r.capacity(), r.requests_per_period(), r.period()) == self.limits(),
    {
        &self.limiter
    }
}

} // verus!
