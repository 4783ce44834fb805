//! The per-client request limiter of the playground server: each client
//! gets `num` requests per interval. The server measures time and sleeps;
//! the decisions are made here, on times given in nanoseconds.
use vstd::prelude::*;
use crate::error::Error;

verus! {

/// The largest permit count; a count at or above it means the permits ran
/// out.
pub const MAX_NUM: u64 = 0x7fff_ffff_ffff_ffff;

/// How many requests a client may make in an interval, and what happens to
/// one over the limit.
#[derive(Debug, Clone, Copy, PartialEq, Eq, Structural)]
pub struct LimitInfo {
    pub rate: Rate,
    pub handler: LimitHandler,
}

impl LimitInfo {
    pub fn new(num: u64, interval: u64, handler: LimitHandler) -> (r: Self)
        ensures
            r == (LimitInfo { rate: Rate { num, interval }, handler }),
    {
        LimitInfo { rate: Rate { num, interval }, handler }
    }
}

/// `num` requests per `interval` nanoseconds.
#[derive(Debug, Clone, Copy, PartialEq, Eq, Structural)]
pub struct Rate {
    pub num: u64,
    pub interval: u64,
}

/// What happens to a request over the limit: it waits for the next
/// interval, or fails.
#[derive(Debug, Clone, Copy, PartialEq, Eq, Structural)]
pub enum LimitHandler {
    Wait,
    Fail,
}

/// The limit applied to each client.
#[derive(Debug, Clone, Copy, PartialEq, Eq, Structural)]
pub struct RateLimit {
    pub specific_info: LimitInfo,
}

impl RateLimit {
    pub fn new(specific_info: LimitInfo) -> (r: Self)
        ensures
            r.specific_info == specific_info,
    {
        RateLimit { specific_info }
    }
}

/// The permits left to a client and the end of its current interval.
#[derive(Debug, Clone, Copy, PartialEq, Eq, Structural)]
pub struct LimiterState {
    pub permits: u64,
    pub valid_until: u64,
}

impl LimiterState {
    /// A fresh interval starting at `now`.
    pub fn new(rate: Rate, now: u64) -> (r: Self)
        requires
            now + rate.interval <= u64::MAX,
        ensures
            r == (LimiterState { permits: rate.num, valid_until: (now + rate.interval) as u64 }),
    {
        LimiterState { permits: rate.num, valid_until: now + rate.interval }
    }
}

/// The limiter of one client.
#[derive(Debug, Clone, Copy, PartialEq, Eq, Structural)]
pub struct Limiter {
    pub state: LimiterState,
    pub info: LimitInfo,
}

/// What a request does next.
#[derive(Debug, Clone, Copy, PartialEq, Eq, Structural)]
pub enum RequestAction {
    /// The request goes through.
    Proceed,
    /// The request waits until the given time, then tries again.
    WaitUntil(u64),
    /// The request is refused.
    Refuse(Error),
}

/// A request's attempt at a permit: it takes one, and goes through unless
/// the count had run out.
pub open spec fn spec_attempt(l: Limiter) -> (Limiter, RequestAction) {
    let x = l.state.permits;
    let after = Limiter { state: LimiterState { permits: ((x - 1) % 0x1_0000_0000_0000_0000) as u64, ..l.state }, ..l };
    if x >= MAX_NUM {
        match l.info.handler {
            LimitHandler::Wait => (after, RequestAction::WaitUntil(l.state.valid_until)),
            LimitHandler::Fail => (after, RequestAction::Refuse(Error::RateLimitExceeded)),
        }
    } else {
        (after, RequestAction::Proceed)
    }
}

/// Whether the interval that ended at `valid_until` is over by `now`, a
/// whole interval later.
pub open spec fn spec_expired(l: Limiter, now: u64) -> bool {
    (if now >= l.state.valid_until { now - l.state.valid_until } else { 0 }) >= l.info.rate.interval
}

/// A new request at `now`: an expired interval starts afresh, then the
/// request attempts a permit.
pub open spec fn spec_request(l: Limiter, now: u64) -> (Limiter, RequestAction) {
    if spec_expired(l, now) {
        spec_attempt(Limiter { state: LimiterState { permits: l.info.rate.num, valid_until: (now + l.info.rate.interval) as u64 }, ..l })
    } else {
        spec_attempt(l)
    }
}

impl Limiter {
    /// A client's first limiter, at `now`.
    pub fn new(info: LimitInfo, now: u64) -> (r: Self)
        requires
            now + info.rate.interval <= u64::MAX,
        ensures
            r == (Limiter { state: LimiterState { permits: info.rate.num, valid_until: (now + info.rate.interval) as u64 }, info }),
    {
        Limiter { state: LimiterState::new(info.rate, now), info }
    }

    /// Takes a permit for a request that already waited.
    pub fn attempt(&mut self) -> (r: RequestAction)
        ensures
            (*final(self), r) == spec_attempt(*old(self)),
    {
        let x = self.state.permits;
        self.state.permits = x.wrapping_sub(1);
        if x >= MAX_NUM {
            match self.info.handler {
                LimitHandler::Wait => RequestAction::WaitUntil(self.state.valid_until),
                LimitHandler::Fail => RequestAction::Refuse(Error::RateLimitExceeded),
            }
        } else {
            RequestAction::Proceed
        }
    }

    /// A new request at `now`.
    pub fn request(&mut self, now: u64) -> (r: RequestAction)
        requires
            spec_expired(*old(self), now) ==> now + old(self).info.rate.interval <= u64::MAX,
        ensures
            (*final(self), r) == spec_request(*old(self), now),
    {
        let elapsed = if now >= self.state.valid_until { now - self.state.valid_until } else { 0 };
        if elapsed >= self.info.rate.interval {
            self.state = LimiterState::new(self.info.rate, now);
        }
        self.attempt()
    }
}

/// A fresh interval lets `num + 1` requests through one after the other:
/// the count runs down to zero, and the attempt at zero still goes through
/// as the count wraps round.
pub proof fn lemma_fresh_interval_admits(l: Limiter, k: nat)
    requires
        l.info.rate.num < MAX_NUM,
        k <= l.info.rate.num,
        l.state.permits == l.info.rate.num - k,
    ensures
        spec_attempt(l).1 == RequestAction::Proceed,
        k < l.info.rate.num ==> spec_attempt(l).0.state.permits == l.info.rate.num - k - 1,
        k == l.info.rate.num ==> spec_attempt(spec_attempt(l).0).1 != RequestAction::Proceed,
{
}

} // verus!
