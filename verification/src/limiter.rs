//! The per-category rate limiter.
//!
//! A [`MessageRateLimiter`] owns one token bucket per message category —
//! the category set is closed, so the mapping is total and every message
//! finds its bucket.  `check_limit` classifies a message, lets the matching
//! bucket take one consume step, and reports `Exceeded` exactly when that
//! step found no whole token.

use vstd::prelude::*;

use crate::bucket::{
    fresh_bucket_model, model_wf, spec_can_consume, spec_consume, BucketModel, TokenBucket,
};
use crate::config::{ConfigError, RateLimitConfig};
use crate::taxonomy::{classify_message, spec_classify_message, JsonRpcMessage, MessageType};

verus! {

/// Rate limiting errors.
#[derive(Debug, Clone, Copy, PartialEq, Eq, Structural)]
pub enum RateLimitError {
    /// The bucket of the message's category had no whole token left.
    Exceeded { message_type: MessageType },
    /// A configuration error, carried through from construction.
    Config(ConfigError),
}

impl From<ConfigError> for RateLimitError {
    fn from(e: ConfigError) -> (r: Self) {
        RateLimitError::Config(e)
    }
}

impl vstd::std_specs::convert::FromSpecImpl<ConfigError> for RateLimitError {
    open spec fn obeys_from_spec() -> bool {
        true
    }

    open spec fn from_spec(e: ConfigError) -> Self {
        RateLimitError::Config(e)
    }
}

/// The mathematical state of a limiter: the model of each category's bucket.
pub ghost struct LimiterModel {
    pub progress_notifications: BucketModel,
    pub logging_messages: BucketModel,
    pub sampling_requests: BucketModel,
    pub completion_requests: BucketModel,
    pub elicitation_requests: BucketModel,
    pub tool_calls: BucketModel,
    pub other: BucketModel,
}

/// The bucket a category is limited by.
pub open spec fn bucket_of(l: LimiterModel, t: MessageType) -> BucketModel {
    match t {
        MessageType::ProgressNotification => l.progress_notifications,
        MessageType::LoggingMessage => l.logging_messages,
        MessageType::SamplingRequest => l.sampling_requests,
        MessageType::CompletionRequest => l.completion_requests,
        MessageType::ElicitationRequest => l.elicitation_requests,
        MessageType::ToolCall => l.tool_calls,
        MessageType::Other => l.other,
    }
}

/// The limiter with one category's bucket replaced.
pub open spec fn set_bucket(l: LimiterModel, t: MessageType, b: BucketModel) -> LimiterModel {
    match t {
        MessageType::ProgressNotification => LimiterModel { progress_notifications: b, ..l },
        MessageType::LoggingMessage => LimiterModel { logging_messages: b, ..l },
        MessageType::SamplingRequest => LimiterModel { sampling_requests: b, ..l },
        MessageType::CompletionRequest => LimiterModel { completion_requests: b, ..l },
        MessageType::ElicitationRequest => LimiterModel { elicitation_requests: b, ..l },
        MessageType::ToolCall => LimiterModel { tool_calls: b, ..l },
        MessageType::Other => LimiterModel { other: b, ..l },
    }
}

/// Every bucket of the limiter satisfies the bucket invariant.
pub open spec fn limiter_wf(l: LimiterModel) -> bool {
    forall|t: MessageType| model_wf(#[trigger] bucket_of(l, t))
}

/// The limiter freshly built from a configuration: one full bucket per
/// category.
pub open spec fn fresh_limiter_model(config: RateLimitConfig) -> LimiterModel {
    LimiterModel {
        progress_notifications: fresh_bucket_model(config.progress_notifications),
        logging_messages: fresh_bucket_model(config.logging_messages),
        sampling_requests: fresh_bucket_model(config.sampling_requests),
        completion_requests: fresh_bucket_model(config.completion_requests),
        elicitation_requests: fresh_bucket_model(config.elicitation_requests),
        tool_calls: fresh_bucket_model(config.tool_calls),
        other: fresh_bucket_model(config.other),
    }
}

/// Rate limiter for outbound protocol messages: one token bucket per
/// category.  All mutation goes through `&mut self`, so concurrent senders
/// must share the limiter behind one mutual-exclusion boundary.
pub struct MessageRateLimiter {
    progress_notifications: TokenBucket,
    logging_messages: TokenBucket,
    sampling_requests: TokenBucket,
    completion_requests: TokenBucket,
    elicitation_requests: TokenBucket,
    tool_calls: TokenBucket,
    other: TokenBucket,
}

impl View for MessageRateLimiter {
    type V = LimiterModel;

    closed spec fn view(&self) -> LimiterModel {
        LimiterModel {
            progress_notifications: self.progress_notifications@,
            logging_messages: self.logging_messages@,
            sampling_requests: self.sampling_requests@,
            completion_requests: self.completion_requests@,
            elicitation_requests: self.elicitation_requests@,
            tool_calls: self.tool_calls@,
            other: self.other@,
        }
    }
}

impl MessageRateLimiter {
    /// The limiter invariant: every bucket is well formed.
    pub open spec fn wf(&self) -> bool {
        limiter_wf(self@)
    }

    /// Build one full bucket per category from the supplied configuration.
    pub fn new(config: RateLimitConfig) -> (r: MessageRateLimiter)
        requires
            config.wf(),
        ensures
            r.wf(),
            r@ == fresh_limiter_model(config),
    {
        let r = MessageRateLimiter {
            progress_notifications: TokenBucket::new(config.progress_notifications),
            logging_messages: TokenBucket::new(config.logging_messages),
            sampling_requests: TokenBucket::new(config.sampling_requests),
            completion_requests: TokenBucket::new(config.completion_requests),
            elicitation_requests: TokenBucket::new(config.elicitation_requests),
            tool_calls: TokenBucket::new(config.tool_calls),
            other: TokenBucket::new(config.other),
        };
        assert forall|t: MessageType| model_wf(#[trigger] bucket_of(r@, t)) by {
            match t {
                MessageType::ProgressNotification => {},
                MessageType::LoggingMessage => {},
                MessageType::SamplingRequest => {},
                MessageType::CompletionRequest => {},
                MessageType::ElicitationRequest => {},
                MessageType::ToolCall => {},
                MessageType::Other => {},
            }
        };
        r
    }

    /// The bucket that limits category `t`.
    fn bucket_mut(&mut self, t: MessageType) -> (b: &mut TokenBucket)
        ensures
            (*b)@ == bucket_of(old(self)@, t),
            final(self)@ == set_bucket(old(self)@, t, (*final(b))@),
    {
        match t {
            MessageType::ProgressNotification => &mut self.progress_notifications,
            MessageType::LoggingMessage => &mut self.logging_messages,
            MessageType::SamplingRequest => &mut self.sampling_requests,
            MessageType::CompletionRequest => &mut self.completion_requests,
            MessageType::ElicitationRequest => &mut self.elicitation_requests,
            MessageType::ToolCall => &mut self.tool_calls,
            MessageType::Other => &mut self.other,
        }
    }

    /// Check the rate limit for a message at the given clock reading:
    /// the deterministic core of [`MessageRateLimiter::check_limit`].
    /// The message's category's bucket takes one consume step; the check
    /// passes exactly when that step took a token.
    pub fn check_limit_at(&mut self, msg: &JsonRpcMessage, now_micros: u64) -> (r: Result<
        (),
        RateLimitError,
    >)
        requires
            old(self).wf(),
        ensures
            final(self).wf(),
            final(self)@ == set_bucket(
                old(self)@,
                spec_classify_message(*msg),
                spec_consume(bucket_of(old(self)@, spec_classify_message(*msg)), now_micros as int),
            ),
            r == if spec_can_consume(bucket_of(old(self)@, spec_classify_message(*msg)), now_micros as int) {
                Ok::<(), RateLimitError>(())
            } else {
                Err::<(), RateLimitError>(RateLimitError::Exceeded {
                    message_type: spec_classify_message(*msg),
                })
            },
    {
        let msg_type = classify_message(msg);
        let bucket = self.bucket_mut(msg_type);
        let admitted = bucket.try_consume_at(now_micros);
        proof {
            lemma_set_bucket_wf(old(self)@, msg_type, self@);
        }
        if admitted {
            Ok(())
        } else {
            Err(RateLimitError::Exceeded { message_type: msg_type })
        }
    }

    /// Check the rate limit for a message, reading the monotonic clock.
    /// The contract promises what holds of every reading: the category's
    /// bucket takes one consume step for some time, and the check passes
    /// exactly when that step took a token.
    pub fn check_limit(&mut self, msg: &JsonRpcMessage) -> (r: Result<(), RateLimitError>)
        requires
            old(self).wf(),
        ensures
            final(self).wf(),
            exists|now: int|
                {
                    &&& final(self)@ == set_bucket(
                        old(self)@,
                        spec_classify_message(*msg),
                        #[trigger] spec_consume(
                            bucket_of(old(self)@, spec_classify_message(*msg)),
                            now,
                        ),
                    )
                    &&& r == if spec_can_consume(
                        bucket_of(old(self)@, spec_classify_message(*msg)),
                        now,
                    ) {
                        Ok::<(), RateLimitError>(())
                    } else {
                        Err::<(), RateLimitError>(RateLimitError::Exceeded {
                            message_type: spec_classify_message(*msg),
                        })
                    }
                },
    {
        let msg_type = classify_message(msg);
        let bucket = self.bucket_mut(msg_type);
        let admitted = bucket.try_consume();
        proof {
            lemma_set_bucket_wf(old(self)@, msg_type, self@);
        }
        if admitted {
            Ok(())
        } else {
            Err(RateLimitError::Exceeded { message_type: msg_type })
        }
    }
}

/// Replacing one bucket by a well-formed one keeps the limiter invariant.
proof fn lemma_set_bucket_wf(l0: LimiterModel, t: MessageType, l1: LimiterModel)
    requires
        limiter_wf(l0),
        exists|b: BucketModel| model_wf(b) && l1 == #[trigger] set_bucket(l0, t, b),
    ensures
        limiter_wf(l1),
{
    let b = choose|b: BucketModel| model_wf(b) && l1 == #[trigger] set_bucket(l0, t, b);
    assert forall|u: MessageType| model_wf(#[trigger] bucket_of(l1, u)) by {
        if u == t {
            assert(bucket_of(l1, u) == b);
        } else {
            assert(bucket_of(l1, u) == bucket_of(l0, u));
        }
    };
}

} // verus!
