//! A throttling layer for a JSON-RPC style message transport.
//!
//! Outbound messages are sorted into a closed set of semantic categories,
//! and each category is limited independently by a token bucket.  The
//! decorator in [`transport`] checks the matching bucket before a message
//! is forwarded and never touches the wrapped transport when a send is
//! denied.  The [`elicitation`] module holds the typed schema builder for
//! user-input forms.

pub mod bucket;
pub mod config;
pub mod elicitation;
pub mod limiter;
pub mod taxonomy;
pub mod transport;

mod clock;
