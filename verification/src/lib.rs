//! Read-only client for a subreddit's public JSON feeds.
//!
//! The library builds the query URLs for the feed, comment and moderator
//! endpoints, decides which response shape a comment fetch must be decoded
//! into, and post-processes decoded responses. Performing the HTTP requests
//! and decoding the JSON bodies is left to the caller, who hands the decoded
//! values back as plain data.

pub mod http;
pub mod responses;
pub mod subreddit;
pub mod text;
pub mod util;

pub use responses::Moderators;
pub use responses::SubredditComments;
pub use responses::Submission;
pub use responses::Submissions;
pub use subreddit::CommentRequest;
pub use subreddit::Subreddit;
pub use util::FeedOption;
pub use util::RouxError;
