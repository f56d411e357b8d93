//! The comment data model, the decoded shape of the two listing endpoints,
//! and the fetch engine that drives paginated retrieval.
//!
//! The comment-listing API splits a video's comment tree over two endpoints:
//! thread listing returns the top-level comments with their reply counts, and
//! reply listing returns the replies of one thread. `CommentFetch` walks both,
//! page by page, and assembles a flat collection of comments in which each
//! reply names its thread through `parent_id`.

use vstd::prelude::*;
use vstd::string::StringExecFns;

use crate::json::JsonRep;
use crate::json::field;
use crate::json::get_field;
use crate::json::json_as_array;
use crate::json::json_as_str;
use crate::json::json_as_u64;
use crate::json::json_of;
use crate::json::json_rep;
use crate::json::str_field;
use crate::json::u64_field;

verus! {

/// One comment record. Top-level comments carry no `parent_id` and the count
/// of replies beneath them; replies carry the owning thread's id as
/// `parent_id` and a zero count, since the API nests only one level deep.
#[derive(Debug)]
pub struct YoutubeComment {
    pub comment_id: String,
    pub parent_id: Option<String>,
    pub total_reply_count: usize,
    pub text: String,
}

/// The mathematical value of a `YoutubeComment`.
pub struct CommentView {
    pub comment_id: Seq<char>,
    pub parent_id: Option<Seq<char>>,
    pub total_reply_count: nat,
    pub text: Seq<char>,
}

impl View for YoutubeComment {
    type V = CommentView;

    open spec fn view(&self) -> CommentView {
        CommentView {
            comment_id: self.comment_id@,
            parent_id: match self.parent_id {
                Some(p) => Some(p@),
                None => None,
            },
            total_reply_count: self.total_reply_count as nat,
            text: self.text@,
        }
    }
}

impl YoutubeComment {
    /// Whether this comment heads a thread with replies beneath it.
    pub fn is_parent(&self) -> (r: bool)
        ensures
            r == (self@.total_reply_count > 0),
    {
        self.total_reply_count > 0
    }
}

/// The values of a sequence of comments.
pub open spec fn comments_view(cs: Seq<YoutubeComment>) -> Seq<CommentView> {
    cs.map_values(|c: YoutubeComment| c@)
}

/// The value of an optional owned string.
pub open spec fn opt_str_view(t: Option<String>) -> Option<Seq<char>> {
    match t {
        Some(s) => Some(s@),
        None => None,
    }
}

/// The two-tier invariant of a comment collection: a comment that carries a
/// parent is a reply, and replies have no replies of their own.
pub open spec fn corpus_wf(cs: Seq<CommentView>) -> bool {
    forall|i: int|
        0 <= i < cs.len() ==> (cs[i].parent_id is Some ==> cs[i].total_reply_count == 0)
}

/// The continuation token of a page, when the page carries one as a string.
pub open spec fn token_of(j: JsonRep) -> Option<Seq<char>> {
    str_field(j, "nextPageToken"@)
}

/// The comment a thread-listing item describes: its id, its reply count (as
/// `totalReplyCount` in the item's snippet), and the text of its top-level
/// comment. `None` when the item does not have that shape or the count does
/// not fit a `usize`.
pub open spec fn thread_item_of(j: JsonRep) -> Option<CommentView> {
    match (str_field(j, "id"@), field(j, "snippet"@)) {
        (Some(id), Some(sn)) => match (
            u64_field(sn, "totalReplyCount"@),
            field(sn, "topLevelComment"@),
        ) {
            (Some(count), Some(top)) => match field(top, "snippet"@) {
                Some(tsn) => match str_field(tsn, "textOriginal"@) {
                    Some(text) => if count <= usize::MAX {
                        Some(
                            (CommentView {
                                comment_id: id,
                                parent_id: None,
                                total_reply_count: count as nat,
                                text,
                            }),
                        )
                    } else {
                        None
                    },
                    None => None,
                },
                None => None,
            },
            _ => None,
        },
        _ => None,
    }
}

/// The comments of a thread-listing page's `items` array, in order; `None`
/// when any item is malformed.
pub open spec fn thread_items_of(items: Seq<JsonRep>) -> Option<Seq<CommentView>>
    decreases items.len(),
{
    if items.len() == 0 {
        Some(Seq::empty())
    } else {
        match (thread_items_of(items.drop_last()), thread_item_of(items.last())) {
            (Some(cs), Some(c)) => Some(cs.push(c)),
            _ => None,
        }
    }
}

/// A decoded thread-listing page: its comments and its continuation token.
/// `None` when the page has no `items` array or a malformed item.
pub open spec fn thread_page_of(j: JsonRep) -> Option<(Seq<CommentView>, Option<Seq<char>>)> {
    match field(j, "items"@) {
        Some(JsonRep::Arr(items)) => match thread_items_of(items) {
            Some(cs) => Some((cs, token_of(j))),
            None => None,
        },
        _ => None,
    }
}

/// The reply a reply-listing item describes, tagged with the owning thread's
/// id: the item's id and the text in its snippet.
pub open spec fn reply_item_of(j: JsonRep, parent: Seq<char>) -> Option<CommentView> {
    match (str_field(j, "id"@), field(j, "snippet"@)) {
        (Some(id), Some(sn)) => match str_field(sn, "textOriginal"@) {
            Some(text) => Some(
                (CommentView {
                    comment_id: id,
                    parent_id: Some(parent),
                    total_reply_count: 0,
                    text,
                }),
            ),
            None => None,
        },
        _ => None,
    }
}

/// The replies of a reply-listing page's `items` array, in order; `None`
/// when any item is malformed.
pub open spec fn reply_items_of(items: Seq<JsonRep>, parent: Seq<char>) -> Option<Seq<CommentView>>
    decreases items.len(),
{
    if items.len() == 0 {
        Some(Seq::empty())
    } else {
        match (reply_items_of(items.drop_last(), parent), reply_item_of(items.last(), parent)) {
            (Some(cs), Some(c)) => Some(cs.push(c)),
            _ => None,
        }
    }
}

/// A decoded reply-listing page for the thread `parent`: its replies and its
/// continuation token. `None` when the page has no `items` array or a
/// malformed item.
pub open spec fn reply_page_of(j: JsonRep, parent: Seq<char>) -> Option<
    (Seq<CommentView>, Option<Seq<char>>),
> {
    match field(j, "items"@) {
        Some(JsonRep::Arr(items)) => match reply_items_of(items, parent) {
            Some(cs) => Some((cs, token_of(j))),
            _ => None,
        },
        _ => None,
    }
}

proof fn lemma_thread_items_fail(items: Seq<JsonRep>, j: int)
    requires
        0 <= j < items.len(),
        thread_item_of(items[j]) is None,
    ensures
        thread_items_of(items) is None,
    decreases items.len(),
{
    if j < items.len() - 1 {
        lemma_thread_items_fail(items.drop_last(), j);
    }
}

proof fn lemma_reply_items_fail(items: Seq<JsonRep>, parent: Seq<char>, j: int)
    requires
        0 <= j < items.len(),
        reply_item_of(items[j], parent) is None,
    ensures
        reply_items_of(items, parent) is None,
    decreases items.len(),
{
    if j < items.len() - 1 {
        lemma_reply_items_fail(items.drop_last(), parent, j);
    }
}

/// Read the continuation token off a decoded page, as `token_of` describes.
fn decode_token(v: &serde_json::Value) -> (r: Option<String>)
    ensures
        opt_str_view(r) == token_of(json_rep(*v)),
{
    match get_field(v, "nextPageToken") {
        Some(t) => match json_as_str(t) {
            Some(s) => Some(String::from_str(s)),
            None => None,
        },
        None => None,
    }
}

/// Decode one thread-listing item, as `thread_item_of` describes.
fn decode_thread_item(v: &serde_json::Value) -> (r: Option<YoutubeComment>)
    ensures
        match r {
            Some(c) => thread_item_of(json_rep(*v)) == Some(c@),
            None => thread_item_of(json_rep(*v)) is None,
        },
{
    let id_v = match get_field(v, "id") {
        Some(x) => x,
        None => {
            return None;
        },
    };
    let id = match json_as_str(id_v) {
        Some(s) => s,
        None => {
            return None;
        },
    };
    let sn = match get_field(v, "snippet") {
        Some(x) => x,
        None => {
            return None;
        },
    };
    let count_v = match get_field(sn, "totalReplyCount") {
        Some(x) => x,
        None => {
            return None;
        },
    };
    let count = match json_as_u64(count_v) {
        Some(n) => n,
        None => {
            return None;
        },
    };
    let top = match get_field(sn, "topLevelComment") {
        Some(x) => x,
        None => {
            return None;
        },
    };
    let tsn = match get_field(top, "snippet") {
        Some(x) => x,
        None => {
            return None;
        },
    };
    let text_v = match get_field(tsn, "textOriginal") {
        Some(x) => x,
        None => {
            return None;
        },
    };
    let text = match json_as_str(text_v) {
        Some(s) => s,
        None => {
            return None;
        },
    };
    if count > usize::MAX as u64 {
        return None;
    }
    Some(
        YoutubeComment {
            comment_id: String::from_str(id),
            parent_id: None,
            total_reply_count: count as usize,
            text: String::from_str(text),
        },
    )
}

/// Decode one reply-listing item for the thread `parent`, as `reply_item_of`
/// describes.
fn decode_reply_item(v: &serde_json::Value, parent: &String) -> (r: Option<YoutubeComment>)
    ensures
        match r {
            Some(c) => reply_item_of(json_rep(*v), parent@) == Some(c@),
            None => reply_item_of(json_rep(*v), parent@) is None,
        },
{
    let id_v = match get_field(v, "id") {
        Some(x) => x,
        None => {
            return None;
        },
    };
    let id = match json_as_str(id_v) {
        Some(s) => s,
        None => {
            return None;
        },
    };
    let sn = match get_field(v, "snippet") {
        Some(x) => x,
        None => {
            return None;
        },
    };
    let text_v = match get_field(sn, "textOriginal") {
        Some(x) => x,
        None => {
            return None;
        },
    };
    let text = match json_as_str(text_v) {
        Some(s) => s,
        None => {
            return None;
        },
    };
    Some(
        YoutubeComment {
            comment_id: String::from_str(id),
            parent_id: Some(parent.clone()),
            total_reply_count: 0,
            text: String::from_str(text),
        },
    )
}

/// Decode a thread-listing page, as `thread_page_of` describes.
fn decode_thread_page(v: &serde_json::Value) -> (r: Option<(Vec<YoutubeComment>, Option<String>)>)
    ensures
        match r {
            Some(page) => thread_page_of(json_rep(*v)) == Some(
                (comments_view(page.0@), opt_str_view(page.1)),
            ),
            None => thread_page_of(json_rep(*v)) is None,
        },
{
    let items_v = match get_field(v, "items") {
        Some(x) => x,
        None => {
            return None;
        },
    };
    let arr = match json_as_array(items_v) {
        Some(a) => a,
        None => {
            return None;
        },
    };
    let ghost items = json_rep(*items_v)->Arr_0;
    let mut out: Vec<YoutubeComment> = Vec::new();
    let mut i: usize = 0;
    while i < arr.len()
        invariant
            i <= arr.len(),
            arr@.len() == items.len(),
            forall|k: int| 0 <= k < items.len() ==> json_rep(arr@[k]) == items[k],
            field(json_rep(*v), "items"@) == Some(JsonRep::Arr(items)),
            thread_items_of(items.subrange(0, i as int)) == Some(comments_view(out@)),
        decreases arr.len() - i,
    {
        let c = match decode_thread_item(&arr[i]) {
            Some(c) => c,
            None => {
                proof {
                    lemma_thread_items_fail(items, i as int);
                }
                return None;
            },
        };
        out.push(c);
        proof {
            let pre = items.subrange(0, i as int);
            let post = items.subrange(0, i + 1);
            assert(post.drop_last() =~= pre);
            assert(comments_view(out@) =~= comments_view(out@.drop_last()).push(c@));
        }
        i = i + 1;
    }
    proof {
        assert(items.subrange(0, items.len() as int) =~= items);
    }
    let token = decode_token(v);
    Some((out, token))
}

/// Decode a reply-listing page for the thread `parent`, as `reply_page_of`
/// describes.
fn decode_reply_page(v: &serde_json::Value, parent: &String) -> (r: Option<
    (Vec<YoutubeComment>, Option<String>),
>)
    ensures
        match r {
            Some(page) => reply_page_of(json_rep(*v), parent@) == Some(
                (comments_view(page.0@), opt_str_view(page.1)),
            ),
            None => reply_page_of(json_rep(*v), parent@) is None,
        },
{
    let items_v = match get_field(v, "items") {
        Some(x) => x,
        None => {
            return None;
        },
    };
    let arr = match json_as_array(items_v) {
        Some(a) => a,
        None => {
            return None;
        },
    };
    let ghost items = json_rep(*items_v)->Arr_0;
    let mut out: Vec<YoutubeComment> = Vec::new();
    let mut i: usize = 0;
    while i < arr.len()
        invariant
            i <= arr.len(),
            arr@.len() == items.len(),
            forall|k: int| 0 <= k < items.len() ==> json_rep(arr@[k]) == items[k],
            field(json_rep(*v), "items"@) == Some(JsonRep::Arr(items)),
            reply_items_of(items.subrange(0, i as int), parent@) == Some(comments_view(out@)),
        decreases arr.len() - i,
    {
        let c = match decode_reply_item(&arr[i], parent) {
            Some(c) => c,
            None => {
                proof {
                    lemma_reply_items_fail(items, parent@, i as int);
                }
                return None;
            },
        };
        out.push(c);
        proof {
            let pre = items.subrange(0, i as int);
            let post = items.subrange(0, i + 1);
            assert(post.drop_last() =~= pre);
            assert(comments_view(out@) =~= comments_view(out@.drop_last()).push(c@));
        }
        i = i + 1;
    }
    proof {
        assert(items.subrange(0, items.len() as int) =~= items);
    }
    let token = decode_token(v);
    Some((out, token))
}

/// A video identifier together with the credential used to query the
/// comment-listing API. Transport lives with the caller; this type only
/// says which requests to make.
pub struct YoutubeVideo {
    pub video_id: String,
    pub api_key: String,
}

/// One GET request to issue against the comment-listing API: the endpoint
/// URL and its query parameters.
pub struct ApiRequest {
    pub url: String,
    pub params: Vec<(String, String)>,
}

/// The values of a parameter list.
pub open spec fn params_view(ps: Seq<(String, String)>) -> Seq<(Seq<char>, Seq<char>)> {
    ps.map_values(|p: (String, String)| (p.0@, p.1@))
}

/// The values of a list of owned strings.
pub open spec fn strings_view(ps: Seq<String>) -> Seq<Seq<char>> {
    ps.map_values(|p: String| p@)
}

/// The value of an optional string slice.
pub open spec fn opt_slice_view(t: Option<&str>) -> Option<Seq<char>> {
    match t {
        Some(s) => Some(s@),
        None => None,
    }
}

/// The thread-listing endpoint.
pub open spec fn thread_list_url() -> Seq<char> {
    "https://www.googleapis.com/youtube/v3/commentThreads"@
}

/// The reply-listing endpoint.
pub open spec fn reply_list_url() -> Seq<char> {
    "https://www.googleapis.com/youtube/v3/comments"@
}

/// The parameters of one thread-listing page: id and snippet parts,
/// plain-text formatting, a page size of 100, the video id and credential,
/// and the continuation token when one is held.
pub open spec fn thread_list_params(
    video_id: Seq<char>,
    api_key: Seq<char>,
    token: Option<Seq<char>>,
) -> Seq<(Seq<char>, Seq<char>)> {
    let base = seq![
        ("part"@, "id,snippet"@),
        ("videoId"@, video_id),
        ("textFormat"@, "plainText"@),
        ("key"@, api_key),
        ("maxResults"@, "100"@),
    ];
    match token {
        Some(t) => base.push(("pageToken"@, t)),
        None => base,
    }
}

/// The parameters of one reply-listing page: id and snippet parts, the
/// parent comment id and credential, and the continuation token when one is
/// held.
pub open spec fn reply_list_params(
    parent: Seq<char>,
    api_key: Seq<char>,
    token: Option<Seq<char>>,
) -> Seq<(Seq<char>, Seq<char>)> {
    let base = seq![("part"@, "id,snippet"@), ("parentId"@, parent), ("key"@, api_key)];
    match token {
        Some(t) => base.push(("pageToken"@, t)),
        None => base,
    }
}

fn push_param(params: &mut Vec<(String, String)>, key: &str, value: &str)
    ensures
        params_view(final(params)@) =~= params_view(old(params)@).push((key@, value@)),
{
    params.push((String::from_str(key), String::from_str(value)));
    proof {
        assert(params_view(params@) =~= params_view(params@.drop_last()).push((key@, value@)));
    }
}

impl YoutubeVideo {
    /// The request for one page of the video's top-level comment threads.
    pub fn request_video_comment_thread_list(&self, next_page_token: Option<&str>) -> (r:
        ApiRequest)
        ensures
            r.url@ == thread_list_url(),
            params_view(r.params@) == thread_list_params(
                self.video_id@,
                self.api_key@,
                opt_slice_view(next_page_token),
            ),
    {
        let mut params: Vec<(String, String)> = Vec::new();
        push_param(&mut params, "part", "id,snippet");
        push_param(&mut params, "videoId", self.video_id.as_str());
        push_param(&mut params, "textFormat", "plainText");
        push_param(&mut params, "key", self.api_key.as_str());
        push_param(&mut params, "maxResults", "100");
        if let Some(t) = next_page_token {
            push_param(&mut params, "pageToken", t);
        }
        proof {
            assert(params_view(params@) =~= thread_list_params(
                self.video_id@,
                self.api_key@,
                opt_slice_view(next_page_token),
            ));
        }
        ApiRequest { url: String::from_str("https://www.googleapis.com/youtube/v3/commentThreads"), params }
    }

    /// The request for one page of the replies beneath `comment_id`.
    pub fn request_comment_replies(&self, comment_id: &str, next_page_token: Option<&str>) -> (r:
        ApiRequest)
        ensures
            r.url@ == reply_list_url(),
            params_view(r.params@) == reply_list_params(
                comment_id@,
                self.api_key@,
                opt_slice_view(next_page_token),
            ),
    {
        let mut params: Vec<(String, String)> = Vec::new();
        push_param(&mut params, "part", "id,snippet");
        push_param(&mut params, "parentId", comment_id);
        push_param(&mut params, "key", self.api_key.as_str());
        if let Some(t) = next_page_token {
            push_param(&mut params, "pageToken", t);
        }
        proof {
            assert(params_view(params@) =~= reply_list_params(
                comment_id@,
                self.api_key@,
                opt_slice_view(next_page_token),
            ));
        }
        ApiRequest { url: String::from_str("https://www.googleapis.com/youtube/v3/comments"), params }
    }
}

/// The errors of comment retrieval.
#[derive(Debug, Clone, Copy, PartialEq, Eq, Structural)]
pub enum FetchError {
    /// The transport produced no response body.
    RequestFailed,
    /// A response body was not a page of the expected shape.
    DecodeFailed,
    /// The page budget ran out before the listings ended.
    PaginationLimitExceeded,
}

/// Where the fetch engine stands.
#[derive(Debug, Clone, Copy, PartialEq, Eq, Structural)]
pub enum FetchPhase {
    /// Listing top-level comment threads.
    Threads,
    /// Listing the replies of one thread with a positive reply count.
    Replies,
    /// Every listing has ended; the corpus is complete.
    Done,
    /// A page failed; the retrieval is abandoned.
    Failed,
}

/// The mathematical state of a `CommentFetch`.
#[verifier::ext_equal]
pub struct FetchView {
    pub video_id: Seq<char>,
    pub api_key: Seq<char>,
    pub phase: FetchPhase,
    pub comments: Seq<CommentView>,
    pub parents: Seq<Seq<char>>,
    pub parent_idx: int,
    pub token: Option<Seq<char>>,
    pub pages_left: nat,
}

/// The ids of the comments that head threads with replies, in insertion
/// order: the parents whose replies are fetched.
pub open spec fn parents_of(cs: Seq<CommentView>) -> Seq<Seq<char>>
    decreases cs.len(),
{
    if cs.len() == 0 {
        Seq::empty()
    } else if cs.last().total_reply_count > 0 {
        parents_of(cs.drop_last()).push(cs.last().comment_id)
    } else {
        parents_of(cs.drop_last())
    }
}

/// The state after a page fails: the retrieval is abandoned where it stands.
pub open spec fn failed_state(st: FetchView) -> FetchView {
    FetchView { phase: FetchPhase::Failed, ..st }
}

/// The state after a decoded thread page: its comments join the corpus; a
/// continuation token keeps the thread listing going, and its absence ends
/// the phase, fixing the parent queue from the corpus assembled so far.
pub open spec fn after_thread_page(
    st: FetchView,
    items: Seq<CommentView>,
    next: Option<Seq<char>>,
) -> FetchView {
    let cs = st.comments + items;
    match next {
        Some(t) => FetchView { comments: cs, token: Some(t), ..st },
        None => {
            let ps = parents_of(cs);
            FetchView {
                comments: cs,
                parents: ps,
                parent_idx: 0,
                token: None,
                phase: if ps.len() == 0 {
                    FetchPhase::Done
                } else {
                    FetchPhase::Replies
                },
                ..st
            }
        },
    }
}

/// The state after a decoded reply page: its replies join the corpus; a
/// continuation token keeps the current parent's listing going, and its
/// absence moves the cursor to the next parent, or ends the retrieval after
/// the last one.
pub open spec fn after_reply_page(
    st: FetchView,
    items: Seq<CommentView>,
    next: Option<Seq<char>>,
) -> FetchView {
    let cs = st.comments + items;
    match next {
        Some(t) => FetchView { comments: cs, token: Some(t), ..st },
        None => if st.parent_idx + 1 < st.parents.len() {
            FetchView { comments: cs, parent_idx: st.parent_idx + 1, token: None, ..st }
        } else {
            FetchView { comments: cs, phase: FetchPhase::Done, token: None, ..st }
        },
    }
}

/// How one transport outcome advances the engine while a page is awaited:
/// the state after `feed` and what `feed` returns. A missing body abandons
/// the retrieval; so does an exhausted page budget or an undecodable page;
/// otherwise the page advances the phase it belongs to.
pub open spec fn feed_spec(st: FetchView, resp: Option<Seq<char>>) -> (FetchView, Result<
    (),
    FetchError,
>) {
    match resp {
        None => (failed_state(st), Err(FetchError::RequestFailed)),
        Some(body) => if st.pages_left == 0 {
            (failed_state(st), Err(FetchError::PaginationLimitExceeded))
        } else {
            let st1 = FetchView { pages_left: (st.pages_left - 1) as nat, ..st };
            match json_of(body) {
                None => (failed_state(st1), Err(FetchError::DecodeFailed)),
                Some(j) => if st.phase == FetchPhase::Threads {
                    match thread_page_of(j) {
                        None => (failed_state(st1), Err(FetchError::DecodeFailed)),
                        Some(page) => (after_thread_page(st1, page.0, page.1), Ok(())),
                    }
                } else {
                    match reply_page_of(j, st.parents[st.parent_idx]) {
                        None => (failed_state(st1), Err(FetchError::DecodeFailed)),
                        Some(page) => (after_reply_page(st1, page.0, page.1), Ok(())),
                    }
                },
            }
        },
    }
}

/// The engine's well-formedness: the reply cursor stays within the parent
/// queue, and the corpus keeps the two-tier invariant.
pub open spec fn fetch_wf(st: FetchView) -> bool {
    &&& st.phase == FetchPhase::Replies ==> st.parent_idx < st.parents.len()
    &&& 0 <= st.parent_idx <= st.parents.len()
    &&& corpus_wf(st.comments)
}

proof fn lemma_thread_items_top_level(items: Seq<JsonRep>)
    requires
        thread_items_of(items) is Some,
    ensures
        forall|i: int|
            0 <= i < thread_items_of(items)->Some_0.len() ==> (#[trigger] thread_items_of(
                items,
            )->Some_0[i]).parent_id is None,
    decreases items.len(),
{
    if items.len() > 0 {
        lemma_thread_items_top_level(items.drop_last());
    }
}

proof fn lemma_reply_items_tagged(items: Seq<JsonRep>, parent: Seq<char>)
    requires
        reply_items_of(items, parent) is Some,
    ensures
        forall|i: int|
            0 <= i < reply_items_of(items, parent)->Some_0.len() ==> (#[trigger] reply_items_of(
                items,
                parent,
            )->Some_0[i]).parent_id == Some(parent) && reply_items_of(
                items,
                parent,
            )->Some_0[i].total_reply_count == 0,
    decreases items.len(),
{
    if items.len() > 0 {
        lemma_reply_items_tagged(items.drop_last(), parent);
    }
}

/// Collect the ids of the comments with replies, in insertion order.
fn collect_parents(cs: &Vec<YoutubeComment>) -> (r: Vec<String>)
    ensures
        strings_view(r@) == parents_of(comments_view(cs@)),
{
    let ghost cv = comments_view(cs@);
    let mut r: Vec<String> = Vec::new();
    let mut i: usize = 0;
    while i < cs.len()
        invariant
            i <= cs.len(),
            cv == comments_view(cs@),
            cv.len() == cs@.len(),
            strings_view(r@) == parents_of(cv.subrange(0, i as int)),
        decreases cs.len() - i,
    {
        proof {
            assert(cv.subrange(0, i + 1).drop_last() =~= cv.subrange(0, i as int));
        }
        if cs[i].is_parent() {
            r.push(cs[i].comment_id.clone());
            proof {
                assert(strings_view(r@) =~= strings_view(r@.drop_last()).push(
                    cs@[i as int].comment_id@,
                ));
            }
        }
        i = i + 1;
    }
    proof {
        assert(cv.subrange(0, cv.len() as int) =~= cv);
    }
    r
}

/// The engine that retrieves a video's comment tree page by page.
///
/// The caller alternates `next_request`, performing the transport itself,
/// with `feed`, handing back the raw response body (or `None` on a transport
/// failure). The engine is done when `next_request` returns nothing.
pub struct CommentFetch {
    video: YoutubeVideo,
    phase: FetchPhase,
    comments: Vec<YoutubeComment>,
    parents: Vec<String>,
    parent_idx: usize,
    token: Option<String>,
    pages_left: usize,
}

impl View for CommentFetch {
    type V = FetchView;

    closed spec fn view(&self) -> FetchView {
        FetchView {
            video_id: self.video.video_id@,
            api_key: self.video.api_key@,
            phase: self.phase,
            comments: comments_view(self.comments@),
            parents: strings_view(self.parents@),
            parent_idx: self.parent_idx as int,
            token: opt_str_view(self.token),
            pages_left: self.pages_left as nat,
        }
    }
}

impl CommentFetch {
    /// The engine's well-formedness; established by `new` and kept by `feed`.
    pub open spec fn wf(&self) -> bool {
        fetch_wf(self@)
    }

    /// Whether the engine waits on a page: true in the two listing phases.
    pub open spec fn expects_page(&self) -> bool {
        self@.phase == FetchPhase::Threads || self@.phase == FetchPhase::Replies
    }

    /// A fresh engine for `video`, allowed at most `max_pages` page fetches
    /// in total across both listing levels.
    pub fn new(video: YoutubeVideo, max_pages: usize) -> (r: CommentFetch)
        ensures
            r.wf(),
            r@.video_id == video.video_id@,
            r@.api_key == video.api_key@,
            r@.phase == FetchPhase::Threads,
            r@.comments == Seq::<CommentView>::empty(),
            r@.parents == Seq::<Seq<char>>::empty(),
            r@.parent_idx == 0,
            r@.token is None,
            r@.pages_left == max_pages,
    {
        let r = CommentFetch {
            video,
            phase: FetchPhase::Threads,
            comments: Vec::new(),
            parents: Vec::new(),
            parent_idx: 0,
            token: None,
            pages_left: max_pages,
        };
        proof {
            assert(r@.comments =~= Seq::<CommentView>::empty());
            assert(r@.parents =~= Seq::<Seq<char>>::empty());
        }
        r
    }

    /// The request the engine waits on: a thread-listing page while threads
    /// remain, a reply-listing page for the current parent while its replies
    /// remain, and nothing once the retrieval is done or abandoned.
    pub fn next_request(&self) -> (r: Option<ApiRequest>)
        requires
            self.wf(),
        ensures
            match r {
                Some(req) => self.expects_page() && if self@.phase == FetchPhase::Threads {
                    req.url@ == thread_list_url() && params_view(req.params@) == thread_list_params(
                        self@.video_id,
                        self@.api_key,
                        self@.token,
                    )
                } else {
                    req.url@ == reply_list_url() && params_view(req.params@) == reply_list_params(
                        self@.parents[self@.parent_idx],
                        self@.api_key,
                        self@.token,
                    )
                },
                None => !self.expects_page(),
            },
    {
        let token: Option<&str> = match &self.token {
            Some(t) => Some(t.as_str()),
            None => None,
        };
        match self.phase {
            FetchPhase::Threads => Some(self.video.request_video_comment_thread_list(token)),
            FetchPhase::Replies => {
                let parent = &self.parents[self.parent_idx];
                Some(self.video.request_comment_replies(parent.as_str(), token))
            },
            FetchPhase::Done => None,
            FetchPhase::Failed => None,
        }
    }

    /// Consume one transport outcome, as `feed_spec` describes: append the
    /// page's comments to the corpus and advance the pagination state, or
    /// abandon the retrieval with the error naming what went wrong.
    pub fn feed(&mut self, response: Option<&str>) -> (r: Result<(), FetchError>)
        requires
            old(self).wf(),
            old(self).expects_page(),
        ensures
            final(self).wf(),
            final(self)@ == feed_spec(old(self)@, opt_slice_view(response)).0,
            r == feed_spec(old(self)@, opt_slice_view(response)).1,
    {
        let body = match response {
            Some(b) => b,
            None => {
                self.phase = FetchPhase::Failed;
                return Err(FetchError::RequestFailed);
            },
        };
        if self.pages_left == 0 {
            self.phase = FetchPhase::Failed;
            return Err(FetchError::PaginationLimitExceeded);
        }
        self.pages_left = self.pages_left - 1;
        let v = match crate::json::parse_json(body) {
            Some(v) => v,
            None => {
                self.phase = FetchPhase::Failed;
                return Err(FetchError::DecodeFailed);
            },
        };
        let ghost st0 = old(self)@;
        let ghost st1 = FetchView { pages_left: (st0.pages_left - 1) as nat, ..st0 };
        match self.phase {
            FetchPhase::Threads => {
                let page = match decode_thread_page(&v) {
                    Some(p) => p,
                    None => {
                        self.phase = FetchPhase::Failed;
                        return Err(FetchError::DecodeFailed);
                    },
                };
                let (mut items, token) = page;
                let ghost items_view = comments_view(items@);
                let ghost token_view = opt_str_view(token);
                let ghost old_corpus = comments_view(self.comments@);
                proof {
                    let j = json_rep(v);
                    let items_j = field(j, "items"@)->Some_0->Arr_0;
                    lemma_thread_items_top_level(items_j);
                    assert(items_view == thread_items_of(items_j)->Some_0);
                }
                self.comments.append(&mut items);
                proof {
                    let cs = old_corpus + items_view;
                    assert(comments_view(self.comments@) =~= cs);
                    assert forall|k: int|
                        0 <= k < cs.len() implies (cs[k].parent_id is Some
                        ==> cs[k].total_reply_count == 0) by {
                        if k < old_corpus.len() {
                            assert(cs[k] == old_corpus[k]);
                        } else {
                            assert(cs[k] == items_view[k - old_corpus.len()]);
                        }
                    }
                    assert(corpus_wf(cs));
                }
                match token {
                    Some(t) => {
                        self.token = Some(t);
                    },
                    None => {
                        self.token = None;
                        self.parents = collect_parents(&self.comments);
                        self.parent_idx = 0;
                        if self.parents.len() == 0 {
                            self.phase = FetchPhase::Done;
                        } else {
                            self.phase = FetchPhase::Replies;
                        }
                    },
                }
                proof {
                    assert(self@ =~~= after_thread_page(st1, items_view, token_view));
                }
                Ok(())
            },
            FetchPhase::Replies => {
                let parent = self.parents[self.parent_idx].clone();
                proof {
                    assert(parent@ == st0.parents[st0.parent_idx]);
                }
                let page = match decode_reply_page(&v, &parent) {
                    Some(p) => p,
                    None => {
                        self.phase = FetchPhase::Failed;
                        return Err(FetchError::DecodeFailed);
                    },
                };
                let (mut items, token) = page;
                let ghost items_view = comments_view(items@);
                let ghost token_view = opt_str_view(token);
                let ghost old_corpus = comments_view(self.comments@);
                proof {
                    let j = json_rep(v);
                    let items_j = field(j, "items"@)->Some_0->Arr_0;
                    lemma_reply_items_tagged(items_j, parent@);
                    assert(items_view == reply_items_of(items_j, parent@)->Some_0);
                }
                self.comments.append(&mut items);
                proof {
                    let cs = old_corpus + items_view;
                    assert(comments_view(self.comments@) =~= cs);
                    assert forall|k: int|
                        0 <= k < cs.len() implies (cs[k].parent_id is Some
                        ==> cs[k].total_reply_count == 0) by {
                        if k < old_corpus.len() {
                            assert(cs[k] == old_corpus[k]);
                        } else {
                            assert(cs[k] == items_view[k - old_corpus.len()]);
                        }
                    }
                    assert(corpus_wf(cs));
                }
                match token {
                    Some(t) => {
                        self.token = Some(t);
                    },
                    None => {
                        self.token = None;
                        proof {
                            assert(strings_view(self.parents@).len() == self.parents@.len());
                        }
                        let plen = self.parents.len();
                        let nxt = self.parent_idx + 1;
                        if nxt < plen {
                            self.parent_idx = nxt;
                        } else {
                            self.phase = FetchPhase::Done;
                        }
                    },
                }
                proof {
                    assert(self@ =~~= after_reply_page(st1, items_view, token_view));
                }
                Ok(())
            },
            FetchPhase::Done => {
                proof {
                    assert(false);
                }
                Err(FetchError::RequestFailed)
            },
            FetchPhase::Failed => {
                proof {
                    assert(false);
                }
                Err(FetchError::RequestFailed)
            },
        }
    }

    /// The comments assembled so far; the complete corpus once the engine is
    /// done. The collection always keeps the two-tier invariant.
    pub fn comments(&self) -> (r: &Vec<YoutubeComment>)
        requires
            self.wf(),
        ensures
            comments_view(r@) == self@.comments,
            corpus_wf(comments_view(r@)),
    {
        &self.comments
    }

    /// The assembled corpus, by value.
    pub fn into_comments(self) -> (r: Vec<YoutubeComment>)
        requires
            self.wf(),
        ensures
            comments_view(r@) == self@.comments,
            corpus_wf(comments_view(r@)),
    {
        self.comments
    }

    /// Whether the retrieval has ended with a complete corpus.
    pub fn is_done(&self) -> (r: bool)
        ensures
            r == (self@.phase == FetchPhase::Done),
    {
        self.phase == FetchPhase::Done
    }
}

/// A thread page without a continuation token ends the thread listing: the
/// page is consumed and the engine leaves the thread-listing phase, so no
/// further thread-listing request is issued.
pub proof fn lemma_thread_page_without_token_stops(st: FetchView, body: Seq<char>)
    requires
        st.phase == FetchPhase::Threads,
        st.pages_left > 0,
        json_of(body) matches Some(j) && thread_page_of(j) matches Some(page) && page.1 is None,
    ensures
        feed_spec(st, Some(body)).1 is Ok,
        feed_spec(st, Some(body)).0.phase != FetchPhase::Threads,
{
}

/// The engine never re-enters the thread-listing phase once it has left it:
/// the token-less page of `lemma_thread_page_without_token_stops` ends that
/// phase exactly once.
pub proof fn lemma_threads_never_resume(st: FetchView, resp: Option<Seq<char>>)
    requires
        st.phase != FetchPhase::Threads,
    ensures
        feed_spec(st, resp).0.phase != FetchPhase::Threads,
{
}

/// A reply page without a continuation token ends the reply listing for the
/// current parent: the page is consumed and the cursor moves past it, or the
/// retrieval is done.
pub proof fn lemma_reply_page_without_token_advances(st: FetchView, body: Seq<char>)
    requires
        st.phase == FetchPhase::Replies,
        st.pages_left > 0,
        0 <= st.parent_idx < st.parents.len(),
        json_of(body) matches Some(j) && reply_page_of(j, st.parents[st.parent_idx]) matches Some(
            page,
        ) && page.1 is None,
    ensures
        feed_spec(st, Some(body)).1 is Ok,
        feed_spec(st, Some(body)).0.phase == FetchPhase::Done || feed_spec(
            st,
            Some(body),
        ).0.parent_idx == st.parent_idx + 1,
{
}

/// Replies are fetched only for comments with replies: every id in the
/// parent queue belongs to a comment of the corpus whose reply count is
/// positive.
pub proof fn lemma_parent_queue_sound(cs: Seq<CommentView>, i: int)
    requires
        0 <= i < parents_of(cs).len(),
    ensures
        exists|k: int|
            0 <= k < cs.len() && (#[trigger] cs[k]).comment_id == parents_of(cs)[i]
                && cs[k].total_reply_count > 0,
    decreases cs.len(),
{
    let ps = parents_of(cs);
    let head = parents_of(cs.drop_last());
    if cs.last().total_reply_count > 0 && i == head.len() {
        assert(cs[cs.len() - 1].comment_id == ps[i] && cs[cs.len() - 1].total_reply_count > 0);
    } else {
        lemma_parent_queue_sound(cs.drop_last(), i);
        let k = choose|k: int|
            0 <= k < cs.drop_last().len() && (#[trigger] cs.drop_last()[k]).comment_id == head[i]
                && cs.drop_last()[k].total_reply_count > 0;
        assert(cs[k].comment_id == ps[i] && cs[k].total_reply_count > 0);
    }
}

/// Replies are fetched for every comment with replies: the id of each corpus
/// comment whose reply count is positive stands in the parent queue.
pub proof fn lemma_parent_queue_complete(cs: Seq<CommentView>, k: int)
    requires
        0 <= k < cs.len(),
        cs[k].total_reply_count > 0,
    ensures
        parents_of(cs).contains(cs[k].comment_id),
    decreases cs.len(),
{
    let ps = parents_of(cs);
    let head = parents_of(cs.drop_last());
    if k == cs.len() - 1 {
        assert(ps[ps.len() - 1] == cs[k].comment_id);
    } else {
        lemma_parent_queue_complete(cs.drop_last(), k);
        let i = choose|i: int| 0 <= i < head.len() && head[i] == cs.drop_last()[k].comment_id;
        assert(ps[i] == cs[k].comment_id);
    }
}

/// The reply cursor never moves backward, so once a token-less page has moved
/// it past a parent, no further request for that parent is issued.
pub proof fn lemma_parent_cursor_monotone(st: FetchView, resp: Option<Seq<char>>)
    requires
        st.phase == FetchPhase::Replies,
    ensures
        feed_spec(st, resp).0.parent_idx >= st.parent_idx,
{
}

} // verus!
