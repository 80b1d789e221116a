//! The rate-limited transport decorator.
//!
//! [`RateLimitedTransport`] wraps an inner transport and enforces
//! check-then-forward on every send: the matching bucket is consulted
//! first, and only an admitted message reaches the inner transport.  A
//! denied send is rejected synchronously and has no effect on the wrapped
//! transport; `receive` and `close` pass straight through and never touch
//! the buckets.

use vstd::prelude::*;

use crate::bucket::{spec_can_consume, spec_consume};
use crate::config::RateLimitConfig;
use crate::limiter::{
    bucket_of, fresh_limiter_model, limiter_wf, set_bucket, LimiterModel, MessageRateLimiter,
    RateLimitError,
};
use crate::taxonomy::{spec_classify_message, JsonRpcMessage};

verus! {

/// A send outcome that distinguishes rejection by the rate limiter from a
/// failure inside the wrapped transport, so callers can branch on cause.
#[derive(Debug)]
pub enum RateLimitedTransportError<E> {
    /// The message was denied by the rate limiter and never forwarded.
    RateLimit(RateLimitError),
    /// The inner transport failed; its error is passed through unmodified.
    Transport(E),
}

impl<E> From<RateLimitError> for RateLimitedTransportError<E> {
    fn from(e: RateLimitError) -> (r: Self) {
        RateLimitedTransportError::RateLimit(e)
    }
}

impl<E> vstd::std_specs::convert::FromSpecImpl<RateLimitError> for RateLimitedTransportError<E> {
    open spec fn obeys_from_spec() -> bool {
        true
    }

    open spec fn from_spec(e: RateLimitError) -> Self {
        RateLimitedTransportError::RateLimit(e)
    }
}

/// The transport contract this layer consumes and re-exposes.  Concrete
/// wire transports implement it; nothing is assumed of their behaviour.
pub trait Transport {
    type Error;

    /// Attempt delivery of one outbound message.
    fn send(&mut self, item: JsonRpcMessage) -> Result<(), Self::Error>;

    /// Yield the next inbound message, or the end-of-stream signal.
    fn receive(&mut self) -> Option<JsonRpcMessage>;

    /// Release the transport's resources.
    fn close(&mut self) -> Result<(), Self::Error>;
}

/// Marker for adapters that turn a `(transport, RateLimitConfig)` pair into
/// a rate-limited transport; carries no data.
#[derive(Debug, Clone, Copy, PartialEq, Eq, Structural)]
pub struct RateLimitTransportAdapter;

/// Rate-limited transport wrapper: an inner transport plus one rate
/// limiter.  All methods take `&mut self`, so concurrent senders must
/// share the decorator behind a mutual-exclusion boundary; that boundary
/// need not — and should not — be held across the forwarding step.
pub struct RateLimitedTransport<T> {
    inner: T,
    rate_limiter: MessageRateLimiter,
}

impl<T: Transport> RateLimitedTransport<T> {
    /// The wrapped transport.
    pub closed spec fn spec_inner(self) -> T {
        self.inner
    }

    /// The state of the limiter's buckets.
    pub closed spec fn limiter_model(self) -> LimiterModel {
        self.rate_limiter@
    }

    /// The decorator invariant: every bucket is well formed.
    pub open spec fn wf(self) -> bool {
        limiter_wf(self.limiter_model())
    }

    /// Wrap a transport, building one full bucket per category.
    pub fn new(transport: T, config: RateLimitConfig) -> (r: Self)
        requires
            config.wf(),
        ensures
            r.wf(),
            r.spec_inner() == transport,
            r.limiter_model() == fresh_limiter_model(config),
    {
        RateLimitedTransport { inner: transport, rate_limiter: MessageRateLimiter::new(config) }
    }

    /// Send at the given clock reading: the deterministic core of
    /// [`RateLimitedTransport::send`].  The message's category's bucket
    /// takes one consume step; on a denied send the inner transport is
    /// untouched, on an admitted one the message is forwarded and any
    /// failure comes back tagged as transport-origin.
    pub fn send_at(&mut self, item: JsonRpcMessage, now_micros: u64) -> (r: Result<
        (),
        RateLimitedTransportError<T::Error>,
    >)
        requires
            old(self).wf(),
        ensures
            final(self).wf(),
            final(self).limiter_model() == set_bucket(
                old(self).limiter_model(),
                spec_classify_message(item),
                spec_consume(
                    bucket_of(old(self).limiter_model(), spec_classify_message(item)),
                    now_micros as int,
                ),
            ),
            spec_can_consume(
                bucket_of(old(self).limiter_model(), spec_classify_message(item)),
                now_micros as int,
            ) ==> !(r matches Err(RateLimitedTransportError::RateLimit(_))),
            !spec_can_consume(
                bucket_of(old(self).limiter_model(), spec_classify_message(item)),
                now_micros as int,
            ) ==> {
                &&& r matches Err(RateLimitedTransportError::RateLimit(e))
                    && e == (RateLimitError::Exceeded { message_type: spec_classify_message(item) })
                &&& final(self).spec_inner() == old(self).spec_inner()
            },
    {
        match self.rate_limiter.check_limit_at(&item, now_micros) {
            Ok(()) => match self.inner.send(item) {
                Ok(()) => Ok(()),
                Err(e) => Err(RateLimitedTransportError::Transport(e)),
            },
            Err(e) => Err(RateLimitedTransportError::RateLimit(e)),
        }
    }

    /// Send a message: check the rate limit first, and forward only on
    /// admission.  A denied send returns the rate-limit error and never
    /// invokes the inner transport's send; an admitted send forwards the
    /// original message unchanged and propagates the inner result, tagging
    /// any failure as transport-origin.  The clock's reading is not under
    /// the caller's control, so the contract promises what holds of every
    /// reading.
    pub fn send(&mut self, item: JsonRpcMessage) -> (r: Result<
        (),
        RateLimitedTransportError<T::Error>,
    >)
        requires
            old(self).wf(),
        ensures
            final(self).wf(),
            // a denied send never reaches the inner transport
            (r matches Err(RateLimitedTransportError::RateLimit(_))) ==> {
                &&& final(self).spec_inner() == old(self).spec_inner()
                &&& r matches Err(RateLimitedTransportError::RateLimit(e))
                    && e == (RateLimitError::Exceeded { message_type: spec_classify_message(item) })
            },
            exists|now: int|
                {
                    &&& final(self).limiter_model() == set_bucket(
                        old(self).limiter_model(),
                        spec_classify_message(item),
                        #[trigger] spec_consume(
                            bucket_of(old(self).limiter_model(), spec_classify_message(item)),
                            now,
                        ),
                    )
                    &&& spec_can_consume(
                        bucket_of(old(self).limiter_model(), spec_classify_message(item)),
                        now,
                    ) ==> !(r matches Err(RateLimitedTransportError::RateLimit(_)))
                    &&& !spec_can_consume(
                        bucket_of(old(self).limiter_model(), spec_classify_message(item)),
                        now,
                    ) ==> r matches Err(RateLimitedTransportError::RateLimit(_))
                },
    {
        match self.rate_limiter.check_limit(&item) {
            Ok(()) => match self.inner.send(item) {
                Ok(()) => Ok(()),
                Err(e) => Err(RateLimitedTransportError::Transport(e)),
            },
            Err(e) => Err(RateLimitedTransportError::RateLimit(e)),
        }
    }

    /// Receive the next inbound message, passed straight through to the
    /// inner transport: inbound traffic is never throttled, and no bucket
    /// is read or written.
    pub fn receive(&mut self) -> (r: Option<JsonRpcMessage>)
        ensures
            final(self).limiter_model() == old(self).limiter_model(),
    {
        self.inner.receive()
    }

    /// Close the inner transport, passing its result through; a failure
    /// comes back tagged as transport-origin, never as a rate-limit error,
    /// and no bucket is read or written.
    pub fn close(&mut self) -> (r: Result<(), RateLimitedTransportError<T::Error>>)
        ensures
            final(self).limiter_model() == old(self).limiter_model(),
            !(r matches Err(RateLimitedTransportError::RateLimit(_))),
    {
        match self.inner.close() {
            Ok(()) => Ok(()),
            Err(e) => Err(RateLimitedTransportError::Transport(e)),
        }
    }
}

} // verus!
