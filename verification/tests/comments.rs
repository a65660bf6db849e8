use roux::responses::last_comment_page;
use roux::RouxError;
use roux::SubredditComments;
use roux::Subreddit;

#[test]
fn latest_comments_url_is_plain_shape() {
    let subreddit = Subreddit::new("x");
    let request = subreddit.latest_comments(None, Some(25));
    assert_eq!(request.url, "https://www.reddit.com/r/x/comments.json?&limit=25");
    assert!(!request.wrapped);
}

#[test]
fn latest_comments_url_with_depth() {
    let subreddit = Subreddit::new("x");
    let request = subreddit.latest_comments(Some(3), Some(25));
    assert_eq!(request.url, "https://www.reddit.com/r/x/comments.json?&depth=3&limit=25");
}

#[test]
fn latest_comments_url_without_parameters() {
    let subreddit = Subreddit::new("x");
    let request = subreddit.latest_comments(None, None);
    assert_eq!(request.url, "https://www.reddit.com/r/x/comments.json?");
    assert!(!request.wrapped);
}

#[test]
fn article_comments_url_is_wrapped_shape() {
    let subreddit = Subreddit::new("x");
    let request = subreddit.article_comments("abc123", None, Some(25));
    assert_eq!(request.url, "https://www.reddit.com/r/x/comments/abc123.json?&limit=25");
    assert!(request.wrapped);
}

#[test]
fn article_comments_url_with_depth_and_limit() {
    let subreddit = Subreddit::new("astolfo");
    let request = subreddit.article_comments("abc123", Some(2), Some(25));
    assert_eq!(
        request.url,
        "https://www.reddit.com/r/astolfo/comments/abc123.json?&depth=2&limit=25"
    );
    assert!(request.wrapped);
}

// The branch is chosen by the URL's content, exactly as the platform quirk
// demands: a subreddit whose name ends in "comments" makes the stream URL
// contain "comments/" too.
#[test]
fn name_ending_in_comments_selects_wrapped_shape() {
    let subreddit = Subreddit::new("bugcomments");
    let request = subreddit.latest_comments(None, None);
    assert_eq!(request.url, "https://www.reddit.com/r/bugcomments/comments.json?");
    assert!(request.wrapped);
}

#[test]
fn last_comment_page_takes_last_element() {
    let first = SubredditComments { comments: vec![serde_json::Value::String("submission".to_owned())] };
    let second = SubredditComments { comments: vec![serde_json::Value::String("tree".to_owned())] };
    let result = last_comment_page(vec![first, second]).expect("non-empty response");
    assert_eq!(result.comments.len(), 1);
    assert_eq!(result.comments[0], serde_json::Value::String("tree".to_owned()));
}

#[test]
fn last_comment_page_of_single_element() {
    let only = SubredditComments { comments: vec![] };
    let result = last_comment_page(vec![only]).expect("non-empty response");
    assert!(result.comments.is_empty());
}

#[test]
fn last_comment_page_of_empty_response_is_decode_error() {
    let result = last_comment_page(vec![]);
    match result {
        Err(RouxError::Decode(message)) => assert_eq!(message, "empty comment response"),
        _ => panic!("expected a decode error"),
    }
}
