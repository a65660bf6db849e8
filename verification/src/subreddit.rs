//! A read-only view of one subreddit: the client value and the URLs of its
//! feed, comment and moderator endpoints.
//!
//! Every operation of the platform's API that this library supports is one
//! HTTP GET. The methods here build the exact URL for each operation (and,
//! for comment fetches, decide which response shape the body must be decoded
//! into); the caller performs the GET with the shared HTTP handle and decodes
//! the JSON body.

use vstd::prelude::*;
use vstd::string::StringExecFns;

use crate::text::lemma_contains_concat;
use crate::text::push_u32;
use crate::text::seq_contains;
use crate::text::spec_u32_string;
use crate::text::str_contains;
use crate::util::FeedOption;

verus! {

/// The base URL of a subreddit's endpoints.
pub open spec fn spec_base_url(name: Seq<char>) -> Seq<char> {
    "https://www.reddit.com/r/"@ + name
}

/// One optional numeric query parameter: `prefix` followed by the decimal
/// value when set, nothing when absent.
pub open spec fn spec_param_u32(prefix: Seq<char>, v: Option<u32>) -> Seq<char> {
    match v {
        Some(x) => prefix + spec_u32_string(x as nat),
        None => Seq::<char>::empty(),
    }
}

/// The cursor parameter of a feed fetch. At most one cursor is applied:
/// `after` when set, else `before` when set, else nothing.
pub open spec fn spec_cursor_params(o: FeedOption) -> Seq<char> {
    match o.after {
        Some(a) => "&after="@ + a@,
        None => match o.before {
            Some(b) => "&before="@ + b@,
            None => Seq::<char>::empty(),
        },
    }
}

/// Everything the options contribute to a feed URL: the cursor parameter,
/// then the `count` parameter.
pub open spec fn spec_opt_params(options: Option<FeedOption>) -> Seq<char> {
    match options {
        Some(o) => spec_cursor_params(o) + spec_param_u32("&count="@, o.count),
        None => Seq::<char>::empty(),
    }
}

/// The URL of a feed fetch: `<base>/<ty>.json?limit=<limit>` followed by
/// the options' parameters.
pub open spec fn spec_feed_url(
    name: Seq<char>,
    ty: Seq<char>,
    limit: u32,
    options: Option<FeedOption>,
) -> Seq<char> {
    spec_base_url(name) + "/"@ + ty + ".json?limit="@ + spec_u32_string(limit as nat)
        + spec_opt_params(options)
}

/// The URL of a comment fetch: `<base>/<ty>.json?` followed by the optional
/// `depth` and `limit` parameters.
pub open spec fn spec_comment_url(
    name: Seq<char>,
    ty: Seq<char>,
    depth: Option<u32>,
    limit: Option<u32>,
) -> Seq<char> {
    spec_base_url(name) + "/"@ + ty + ".json?"@ + spec_param_u32("&depth="@, depth)
        + spec_param_u32("&limit="@, limit)
}

/// The URL of the moderator list.
pub open spec fn spec_moderators_url(name: Seq<char>) -> Seq<char> {
    spec_base_url(name) + "/about/moderators/.json"@
}

/// URL building is deterministic and pure: the feed URL is a function of
/// the subreddit name, the listing type, the limit and the options alone,
/// so two clients for the same subreddit build the same URL from the same
/// arguments.
pub proof fn lemma_feed_url_deterministic(
    s1: Subreddit,
    s2: Subreddit,
    ty: Seq<char>,
    limit: u32,
    options: Option<FeedOption>,
)
    requires
        s1.name@ == s2.name@,
    ensures
        spec_feed_url(s1.name@, ty, limit, options) == spec_feed_url(s2.name@, ty, limit, options),
{
}

/// When both cursors are set, `after` takes precedence: the URL parameters
/// equal those of the same options with `before` cleared.
pub proof fn lemma_after_precedence(both: FeedOption, after_only: FeedOption)
    requires
        both.after is Some,
        both.after == after_only.after,
        both.count == after_only.count,
        after_only.before is None,
    ensures
        spec_opt_params(Some(both)) == spec_opt_params(Some(after_only)),
{
}

/// A comment fetch to perform: the URL to GET, and the shape of the
/// response body. When `wrapped` is set the body is a sequence of comment
/// trees whose last element is the payload; otherwise the body is a single
/// comment tree.
pub struct CommentRequest {
    /// The URL to GET.
    pub url: String,
    /// Whether the URL contains the segment `comments/`, so that the
    /// response is wrapped in a sequence.
    pub wrapped: bool,
}

impl CommentRequest {
    /// The request is for the URL of a comment fetch of kind `ty`, and its
    /// decode shape matches the URL's content.
    pub open spec fn is_for(
        self,
        name: Seq<char>,
        ty: Seq<char>,
        depth: Option<u32>,
        limit: Option<u32>,
    ) -> bool {
        &&& self.url@ == spec_comment_url(name, ty, depth, limit)
        &&& self.wrapped == seq_contains(self.url@, "comments/"@)
    }
}

/// A read-only client for one subreddit.
pub struct Subreddit {
    /// Name of the subreddit.
    pub name: String,
    /// The base URL derived from the name.
    pub url: String,
    /// The shared HTTP client handle that the caller GETs with.
    pub client: reqwest::Client,
}

impl Subreddit {
    /// The stored base URL is the one derived from the name.
    pub open spec fn wf(&self) -> bool {
        self.url@ == spec_base_url(self.name@)
    }

    /// Create a new `Subreddit` instance with a default HTTP client.
    pub fn new(name: &str) -> (s: Subreddit)
        ensures
            s.wf(),
            s.name@ == name@,
    {
        Self::new_with_http_client(name, reqwest::Client::new())
    }

    /// Create a new `Subreddit` instance with a provided HTTP client, so
    /// that one connection pool can serve several subreddits.
    pub fn new_with_http_client(name: &str, http_client: reqwest::Client) -> (s: Subreddit)
        ensures
            s.wf(),
            s.name@ == name@,
            s.client == http_client,
    {
        let mut subreddit_url = String::from_str("https://www.reddit.com/r/");
        subreddit_url.append(name);
        Subreddit { name: name.to_owned(), url: subreddit_url, client: http_client }
    }

    /// The URL of the moderator list.
    pub fn moderators(&self) -> (url: String)
        requires
            self.wf(),
        ensures
            url@ == spec_moderators_url(self.name@),
    {
        let mut url = self.url.clone();
        url.append("/about/moderators/.json");
        proof {
            assert(url@ =~= spec_moderators_url(self.name@));
        }
        url
    }

    /// The URL of a feed fetch of listing type `ty`.
    fn get_feed(&self, ty: &str, limit: u32, options: Option<FeedOption>) -> (url: String)
        requires
            self.wf(),
        ensures
            url@ == spec_feed_url(self.name@, ty@, limit, options),
    {
        let mut url = self.url.clone();
        url.append("/");
        url.append(ty);
        url.append(".json?limit=");
        push_u32(&mut url, limit);

        match &options {
            None => {},
            Some(option) => {
                match &option.after {
                    Some(after) => {
                        url.append("&after=");
                        url.append(after.as_str());
                    },
                    None => {
                        match &option.before {
                            Some(before) => {
                                url.append("&before=");
                                url.append(before.as_str());
                            },
                            None => {},
                        }
                    },
                }
                match option.count {
                    Some(count) => {
                        url.append("&count=");
                        push_u32(&mut url, count);
                    },
                    None => {},
                }
            },
        }
        proof {
            assert(url@ =~= spec_feed_url(self.name@, ty@, limit, options));
        }
        url
    }

    /// The URL and decode shape of a comment fetch of kind `ty`.
    fn get_comment_feed(&self, ty: &str, depth: Option<u32>, limit: Option<u32>) -> (r:
        CommentRequest)
        requires
            self.wf(),
        ensures
            r.is_for(self.name@, ty@, depth, limit),
    {
        let mut url = self.url.clone();
        url.append("/");
        url.append(ty);
        url.append(".json?");

        match depth {
            Some(depth) => {
                url.append("&depth=");
                push_u32(&mut url, depth);
            },
            None => {},
        }
        match limit {
            Some(limit) => {
                url.append("&limit=");
                push_u32(&mut url, limit);
            },
            None => {},
        }
        proof {
            assert(url@ =~= spec_comment_url(self.name@, ty@, depth, limit));
        }
        let wrapped = str_contains(url.as_str(), "comments/");
        CommentRequest { url, wrapped }
    }

    /// The URL of a hot-posts fetch.
    pub fn hot(&self, limit: u32, options: Option<FeedOption>) -> (url: String)
        requires
            self.wf(),
        ensures
            url@ == spec_feed_url(self.name@, "hot"@, limit, options),
    {
        self.get_feed("hot", limit, options)
    }

    /// The URL of a rising-posts fetch.
    pub fn rising(&self, limit: u32, options: Option<FeedOption>) -> (url: String)
        requires
            self.wf(),
        ensures
            url@ == spec_feed_url(self.name@, "rising"@, limit, options),
    {
        self.get_feed("rising", limit, options)
    }

    /// The URL of a top-posts fetch, over the platform's default time
    /// window.
    pub fn top(&self, limit: u32, options: Option<FeedOption>) -> (url: String)
        requires
            self.wf(),
        ensures
            url@ == spec_feed_url(self.name@, "top"@, limit, options),
    {
        self.get_feed("top", limit, options)
    }

    /// The URL of a latest-posts fetch (listing type `new`).
    pub fn latest(&self, limit: u32, options: Option<FeedOption>) -> (url: String)
        requires
            self.wf(),
        ensures
            url@ == spec_feed_url(self.name@, "new"@, limit, options),
    {
        self.get_feed("new", limit, options)
    }

    /// The comment fetch for the subreddit-wide comment stream.
    pub fn latest_comments(&self, depth: Option<u32>, limit: Option<u32>) -> (r: CommentRequest)
        requires
            self.wf(),
        ensures
            r.is_for(self.name@, "comments"@, depth, limit),
    {
        self.get_comment_feed("comments", depth, limit)
    }

    /// The comment fetch for one submission. Its URL always contains the
    /// segment `comments/`, so the response is always the wrapped shape.
    pub fn article_comments(&self, article: &str, depth: Option<u32>, limit: Option<u32>) -> (r:
        CommentRequest)
        requires
            self.wf(),
        ensures
            r.is_for(self.name@, "comments/"@ + article@, depth, limit),
            r.wrapped,
    {
        let mut ty = String::from_str("comments/");
        ty.append(article);
        let r = self.get_comment_feed(ty.as_str(), depth, limit);
        proof {
            let head = spec_base_url(self.name@) + "/"@;
            let tail = article@ + ".json?"@ + spec_param_u32("&depth="@, depth) + spec_param_u32(
                "&limit="@,
                limit,
            );
            lemma_contains_concat(head, "comments/"@, tail);
            assert(r.url@ =~= head + "comments/"@ + tail);
        }
        r
    }
}

} // verus!
