//! Pagination options and the library's error type.

use vstd::prelude::*;

verus! {

/// Optional pagination and filter parameters for a feed fetch.
///
/// At most one of `after` / `before` is applied to a request; when both are
/// set, `after` takes precedence. `count` is appended independently.
pub struct FeedOption {
    /// Cursor naming the entry after which the requested page starts.
    pub after: Option<String>,
    /// Cursor naming the entry before which the requested page ends.
    pub before: Option<String>,
    /// Number of entries already seen by the caller.
    pub count: Option<u32>,
}

impl FeedOption {
    /// A new set of options with nothing set.
    pub fn new() -> (r: FeedOption)
        ensures
            r.after is None,
            r.before is None,
            r.count is None,
    {
        FeedOption { after: None, before: None, count: None }
    }

    /// Set the `after` cursor.
    pub fn after(self, ticket: &str) -> (r: FeedOption)
        ensures
            r.after matches Some(a) && a@ == ticket@,
            r.before == self.before,
            r.count == self.count,
    {
        FeedOption { after: Some(ticket.to_owned()), ..self }
    }

    /// Set the `before` cursor.
    pub fn before(self, ticket: &str) -> (r: FeedOption)
        ensures
            r.before matches Some(b) && b@ == ticket@,
            r.after == self.after,
            r.count == self.count,
    {
        FeedOption { before: Some(ticket.to_owned()), ..self }
    }

    /// Set the `count` parameter.
    pub fn count(self, count: u32) -> (r: FeedOption)
        ensures
            r.count == Some(count),
            r.after == self.after,
            r.before == self.before,
    {
        FeedOption { count: Some(count), ..self }
    }
}

/// Why a fetch failed: the transport failed, or the response body did not
/// have the expected shape. Each variant carries a description of the
/// failure.
#[derive(Debug)]
pub enum RouxError {
    /// The HTTP transport failed: connection error, timeout, or an
    /// unsuccessful status.
    Transport(String),
    /// The response body could not be decoded into the expected shape.
    Decode(String),
}

} // verus!
