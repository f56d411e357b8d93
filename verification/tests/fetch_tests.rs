use youtube_comment_search::youtube_api::ApiRequest;
use youtube_comment_search::youtube_api::CommentFetch;
use youtube_comment_search::youtube_api::FetchError;
use youtube_comment_search::youtube_api::YoutubeComment;
use youtube_comment_search::youtube_api::YoutubeVideo;

fn video() -> YoutubeVideo {
    YoutubeVideo {
        video_id: String::from("vid123"),
        api_key: String::from("key456"),
    }
}

fn pairs(req: &ApiRequest) -> Vec<(&str, &str)> {
    req.params.iter().map(|p| (p.0.as_str(), p.1.as_str())).collect()
}

const THREADS_URL: &str = "https://www.googleapis.com/youtube/v3/commentThreads";
const COMMENTS_URL: &str = "https://www.googleapis.com/youtube/v3/comments";

#[test]
fn thread_list_request_carries_the_fixed_parameters() {
    let req = video().request_video_comment_thread_list(None);
    assert_eq!(req.url, THREADS_URL);
    assert_eq!(
        pairs(&req),
        vec![
            ("part", "id,snippet"),
            ("videoId", "vid123"),
            ("textFormat", "plainText"),
            ("key", "key456"),
            ("maxResults", "100"),
        ]
    );

    let req = video().request_video_comment_thread_list(Some("tok"));
    assert_eq!(
        pairs(&req),
        vec![
            ("part", "id,snippet"),
            ("videoId", "vid123"),
            ("textFormat", "plainText"),
            ("key", "key456"),
            ("maxResults", "100"),
            ("pageToken", "tok"),
        ]
    );
}

#[test]
fn reply_list_request_carries_the_parent_id() {
    let req = video().request_comment_replies("c1", None);
    assert_eq!(req.url, COMMENTS_URL);
    assert_eq!(
        pairs(&req),
        vec![("part", "id,snippet"), ("parentId", "c1"), ("key", "key456")]
    );

    let req = video().request_comment_replies("c1", Some("tok2"));
    assert_eq!(
        pairs(&req),
        vec![
            ("part", "id,snippet"),
            ("parentId", "c1"),
            ("key", "key456"),
            ("pageToken", "tok2"),
        ]
    );
}

#[test]
fn is_parent_reflects_the_reply_count() {
    let parent = YoutubeComment {
        comment_id: String::from("a"),
        parent_id: None,
        total_reply_count: 2,
        text: String::from("t"),
    };
    let leaf = YoutubeComment {
        comment_id: String::from("b"),
        parent_id: None,
        total_reply_count: 0,
        text: String::from("t"),
    };
    assert!(parent.is_parent());
    assert!(!leaf.is_parent());
}

const PAGE1: &str = r#"{
  "items": [
    {
      "id": "c1",
      "snippet": {
        "totalReplyCount": 2,
        "topLevelComment": { "snippet": { "textOriginal": "first comment" } }
      }
    }
  ],
  "nextPageToken": "tok1"
}"#;

const PAGE2: &str = r#"{
  "items": [
    {
      "id": "c2",
      "snippet": {
        "totalReplyCount": 0,
        "topLevelComment": { "snippet": { "textOriginal": "second comment" } }
      }
    }
  ]
}"#;

const REPLY_PAGE: &str = r#"{
  "items": [
    { "id": "r1", "snippet": { "textOriginal": "first reply" } },
    { "id": "r2", "snippet": { "textOriginal": "second reply" } }
  ]
}"#;

#[test]
fn two_thread_pages_and_one_reply_page_yield_four_comments() {
    let mut fetch = CommentFetch::new(video(), 10);

    let req = fetch.next_request().expect("a thread page is due");
    assert_eq!(req.url, THREADS_URL);
    assert!(!pairs(&req).iter().any(|p| p.0 == "pageToken"));
    assert_eq!(fetch.feed(Some(PAGE1)), Ok(()));

    let req = fetch.next_request().expect("a second thread page is due");
    assert_eq!(req.url, THREADS_URL);
    assert!(pairs(&req).contains(&("pageToken", "tok1")));
    assert_eq!(fetch.feed(Some(PAGE2)), Ok(()));

    let req = fetch.next_request().expect("a reply page is due");
    assert_eq!(req.url, COMMENTS_URL);
    assert!(pairs(&req).contains(&("parentId", "c1")));
    assert!(!pairs(&req).iter().any(|p| p.0 == "pageToken"));
    assert_eq!(fetch.feed(Some(REPLY_PAGE)), Ok(()));

    assert!(fetch.next_request().is_none());
    assert!(fetch.is_done());

    let corpus = fetch.into_comments();
    assert_eq!(corpus.len(), 4);

    let top: Vec<&YoutubeComment> = corpus.iter().filter(|c| c.parent_id.is_none()).collect();
    assert_eq!(top.len(), 2);
    assert_eq!(top[0].comment_id, "c1");
    assert_eq!(top[0].total_reply_count, 2);
    assert_eq!(top[0].text, "first comment");
    assert_eq!(top[1].comment_id, "c2");
    assert_eq!(top[1].total_reply_count, 0);
    assert_eq!(top[1].text, "second comment");

    let replies: Vec<&YoutubeComment> = corpus.iter().filter(|c| c.parent_id.is_some()).collect();
    assert_eq!(replies.len(), 2);
    assert_eq!(replies[0].comment_id, "r1");
    assert_eq!(replies[0].parent_id.as_deref(), Some("c1"));
    assert_eq!(replies[0].total_reply_count, 0);
    assert_eq!(replies[0].text, "first reply");
    assert_eq!(replies[1].comment_id, "r2");
    assert_eq!(replies[1].parent_id.as_deref(), Some("c1"));
    assert_eq!(replies[1].text, "second reply");
}

#[test]
fn page_without_token_stops_the_thread_listing_at_once() {
    let mut fetch = CommentFetch::new(video(), 10);
    assert!(fetch.next_request().is_some());
    // one page with no continuation token and no parents: no extra request
    assert_eq!(fetch.feed(Some(PAGE2)), Ok(()));
    assert!(fetch.next_request().is_none());
    assert!(fetch.is_done());
    assert_eq!(fetch.comments().len(), 1);
}

#[test]
fn reply_page_without_token_stops_the_reply_listing_at_once() {
    let mut fetch = CommentFetch::new(video(), 10);
    assert_eq!(fetch.feed(Some(PAGE1)), Ok(()));
    assert_eq!(fetch.feed(Some(PAGE2)), Ok(()));
    // the only parent is c1; one token-less reply page ends the retrieval
    assert_eq!(fetch.feed(Some(REPLY_PAGE)), Ok(()));
    assert!(fetch.next_request().is_none());
    assert!(fetch.is_done());
}

#[test]
fn transport_failure_aborts_the_retrieval() {
    let mut fetch = CommentFetch::new(video(), 10);
    assert_eq!(fetch.feed(None), Err(FetchError::RequestFailed));
    assert!(fetch.next_request().is_none());
    assert!(!fetch.is_done());
    assert_eq!(fetch.comments().len(), 0);
}

#[test]
fn unparsable_body_is_decode_failed() {
    let mut fetch = CommentFetch::new(video(), 10);
    assert_eq!(fetch.feed(Some("this is not json")), Err(FetchError::DecodeFailed));
    assert!(fetch.next_request().is_none());
    assert!(!fetch.is_done());
}

#[test]
fn page_of_the_wrong_shape_is_decode_failed() {
    // a JSON object without an items array is a hard failure, not a skip
    let mut fetch = CommentFetch::new(video(), 10);
    assert_eq!(fetch.feed(Some("{}")), Err(FetchError::DecodeFailed));
    assert!(!fetch.is_done());

    // an item without its snippet fields fails the whole page
    let mut fetch = CommentFetch::new(video(), 10);
    assert_eq!(
        fetch.feed(Some(r#"{ "items": [ { "id": "c1" } ] }"#)),
        Err(FetchError::DecodeFailed)
    );
    assert!(!fetch.is_done());
}

#[test]
fn exhausted_page_budget_is_pagination_limit_exceeded() {
    let mut fetch = CommentFetch::new(video(), 1);
    assert_eq!(fetch.feed(Some(PAGE1)), Ok(()));
    // the page asked for a continuation, but the budget is spent
    assert!(fetch.next_request().is_some());
    assert_eq!(fetch.feed(Some(PAGE2)), Err(FetchError::PaginationLimitExceeded));
    assert!(fetch.next_request().is_none());
    assert!(!fetch.is_done());
}
