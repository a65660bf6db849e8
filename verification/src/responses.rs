//! The typed shapes that response bodies are decoded into, and the
//! post-processing of a wrapped comment response.
//!
//! The platform returns comment data in two shapes. The subreddit-wide
//! comment stream is one comment tree. A submission-scoped fetch (whose URL
//! contains `comments/`) is a non-empty sequence of comment trees whose last
//! element is the payload; everything before it is discarded. The caller
//! decodes the body into the shape the request names and hands the values
//! here as plain data.

use vstd::prelude::*;
use vstd::string::StringExecFns;

use crate::util::FeedOption;
use crate::util::RouxError;

verus! {

/// `serde_json::Value` carries the platform-defined metadata fields that
/// this library passes through without reading.
#[verifier::external_type_specification]
#[verifier::external_body]
pub struct ExValue(serde_json::Value);

/// One post entry of a feed page.
pub struct Submission {
    /// The post's unique identifier.
    pub id: String,
    /// The platform-defined metadata (title, author, score, ...), passed
    /// through as received.
    pub data: serde_json::Value,
}

/// One page of a subreddit feed: the posts in order, and the pagination
/// cursors of the page.
pub struct Submissions {
    /// The post entries, in the order received.
    pub children: Vec<Submission>,
    /// Cursor for the page after this one, when the feed has one.
    pub after: Option<String>,
    /// Cursor for the page before this one, when the feed has one.
    pub before: Option<String>,
}

/// One comment-tree page: the comment entries in order, each with its
/// nested replies preserved as received.
pub struct SubredditComments {
    /// The comment entries, passed through as received.
    pub comments: Vec<serde_json::Value>,
}

/// The moderator list of a subreddit.
pub struct Moderators {
    /// The moderator identities, passed through as received.
    pub moderators: Vec<serde_json::Value>,
}

impl Submissions {
    /// The options that request the page after this one: the page's `after`
    /// cursor when it has one, nothing otherwise.
    pub fn next_page_options(&self) -> (r: Option<FeedOption>)
        ensures
            self.after matches Some(c) ==> (r matches Some(o) && o.after matches Some(a) && a@
                == c@ && o.before is None && o.count is None),
            self.after is None ==> r is None,
    {
        match &self.after {
            Some(cursor) => Some(
                FeedOption { after: Some(cursor.clone()), before: None, count: None },
            ),
            None => None,
        }
    }
}

/// The payload of a wrapped comment response: the last element of the
/// sequence. An empty sequence does not match the expected shape, so it is
/// a decode error.
pub fn last_comment_page(pages: Vec<SubredditComments>) -> (r: Result<
    SubredditComments,
    RouxError,
>)
    ensures
        pages@.len() > 0 ==> (r matches Ok(c) && c == pages@.last()),
        pages@.len() == 0 ==> (r matches Err(e) && e matches RouxError::Decode(m) && m@
            == "empty comment response"@),
{
    let mut pages = pages;
    match pages.pop() {
        Some(last) => Ok(last),
        None => Err(RouxError::Decode(String::from_str("empty comment response"))),
    }
}

} // verus!
