//! Extracting a video identifier from a YouTube URL.
//!
//! A URL is accepted when its host is one of the four canonical YouTube hosts.
//! For the long-form family (`youtube.com`, `www.youtube.com`) the id is the
//! value of the leading `v=` query assignment; for the short-form family
//! (`youtu.be`, `www.youtu.be`) it is the first path segment.

use vstd::prelude::*;
use vstd::string::StrSliceExecFns;
use vstd::string::StringExecFns;

verus! {

/// Why no video id could be taken from a URL string.
#[derive(Debug, Clone, Copy, PartialEq, Eq, Structural)]
pub enum YoutubeUrlError {
    /// The string is not a syntactically valid URL.
    MalformedUrl,
    /// The URL parsed, but carries no host.
    MissingHost,
    /// The host is not one of the recognized YouTube hosts.
    UnsupportedDomain,
    /// The URL names a YouTube host but carries no video id.
    VideoIdNotFound,
}

impl YoutubeUrlError {
    /// A short description of the error, for reporting to a user.
    pub fn message(&self) -> (r: &'static str)
        ensures
            match self {
                YoutubeUrlError::MalformedUrl => r@ == "Url Parse Error"@,
                YoutubeUrlError::MissingHost => r@ == "There is no host string"@,
                YoutubeUrlError::UnsupportedDomain => r@ == "Not a valid youtube video url"@,
                YoutubeUrlError::VideoIdNotFound => r@ == "No video found from URL"@,
            },
    {
        match self {
            YoutubeUrlError::MalformedUrl => "Url Parse Error",
            YoutubeUrlError::MissingHost => "There is no host string",
            YoutubeUrlError::UnsupportedDomain => "Not a valid youtube video url",
            YoutubeUrlError::VideoIdNotFound => "No video found from URL",
        }
    }
}

/// The parts of a parsed URL that video-id extraction reads.
pub struct UrlParts {
    pub host: Option<String>,
    pub query: Option<String>,
    pub path: String,
}

/// The mathematical value of a `UrlParts`.
pub struct UrlPartsView {
    pub host: Option<Seq<char>>,
    pub query: Option<Seq<char>>,
    pub path: Seq<char>,
}

impl View for UrlParts {
    type V = UrlPartsView;

    open spec fn view(&self) -> UrlPartsView {
        UrlPartsView {
            host: match self.host {
                Some(h) => Some(h@),
                None => None,
            },
            query: match self.query {
                Some(q) => Some(q@),
                None => None,
            },
            path: self.path@,
        }
    }
}

/// What `url::Url::parse` yields on a given string: `None` when the string is
/// not a valid URL, otherwise the host, query and path of the parsed URL.
pub uninterp spec fn url_parts_of(s: Seq<char>) -> Option<UrlPartsView>;

/// Relies on `url::Url::parse` and on the `host_str`, `query` and `path`
/// accessors of `url::Url`. Parsing is a function of the input string alone;
/// its outcome is named `url_parts_of`.
#[verifier::external_body]
fn parse_url_parts(s: &str) -> (r: Option<UrlParts>)
    ensures
        match r {
            Some(p) => url_parts_of(s@) == Some(p@),
            None => url_parts_of(s@) is None,
        },
{
    match url::Url::parse(s) {
        Ok(u) => Some(UrlParts {
            host: u.host_str().map(|h| h.to_string()),
            query: u.query().map(|q| q.to_string()),
            path: u.path().to_string(),
        }),
        Err(_) => None,
    }
}

/// The hosts whose URLs carry the video id in the `v` query parameter.
pub open spec fn is_long_form_host(h: Seq<char>) -> bool {
    h == "youtube.com"@ || h == "www.youtube.com"@
}

/// The hosts whose URLs carry the video id as the first path segment.
pub open spec fn is_short_form_host(h: Seq<char>) -> bool {
    h == "youtu.be"@ || h == "www.youtu.be"@
}

/// The four canonical YouTube hosts, recognized case-sensitively.
pub open spec fn is_youtube_host(h: Seq<char>) -> bool {
    is_long_form_host(h) || is_short_form_host(h)
}

/// The longest prefix of `s` that contains no `stop` character.
pub open spec fn take_until(s: Seq<char>, stop: char) -> Seq<char>
    decreases s.len(),
{
    if s.len() == 0 {
        Seq::empty()
    } else if s[0] == stop {
        Seq::empty()
    } else {
        seq![s[0]] + take_until(s.drop_first(), stop)
    }
}

/// The video id a long-form query carries: the query must begin with the
/// assignment `v=`, and the id is its nonempty value, up to the next
/// parameter separator.
pub open spec fn query_video_id(q: Seq<char>) -> Option<Seq<char>> {
    if q.len() >= 2 && q[0] == 'v' && q[1] == '=' {
        let id = take_until(q.skip(2), '&');
        if id.len() == 0 {
            None
        } else {
            Some(id)
        }
    } else {
        None
    }
}

/// The video id a short-form path carries: the first path segment after the
/// leading slash, which must be nonempty.
pub open spec fn path_video_id(p: Seq<char>) -> Option<Seq<char>> {
    if p.len() >= 1 && p[0] == '/' {
        let id = take_until(p.skip(1), '/');
        if id.len() == 0 {
            None
        } else {
            Some(id)
        }
    } else {
        None
    }
}

/// What resolution returns on a URL string: the video id, or the error that
/// names the first check the string fails.
pub open spec fn resolve_spec(s: Seq<char>) -> Result<Seq<char>, YoutubeUrlError> {
    match url_parts_of(s) {
        None => Err(YoutubeUrlError::MalformedUrl),
        Some(p) => match p.host {
            None => Err(YoutubeUrlError::MissingHost),
            Some(h) => if is_long_form_host(h) {
                match p.query {
                    None => Err(YoutubeUrlError::VideoIdNotFound),
                    Some(q) => match query_video_id(q) {
                        Some(id) => Ok(id),
                        None => Err(YoutubeUrlError::VideoIdNotFound),
                    },
                }
            } else if is_short_form_host(h) {
                match path_video_id(p.path) {
                    Some(id) => Ok(id),
                    None => Err(YoutubeUrlError::VideoIdNotFound),
                }
            } else {
                Err(YoutubeUrlError::UnsupportedDomain)
            },
        },
    }
}

proof fn lemma_take_until_scan(s: Seq<char>, start: int, end: int, stop: char)
    requires
        0 <= start <= end <= s.len(),
        forall|j: int| start <= j < end ==> s[j] != stop,
        end == s.len() || s[end] == stop,
    ensures
        take_until(s.skip(start), stop) == s.subrange(start, end),
    decreases end - start,
{
    if start == end {
        assert(s.subrange(start, end) =~= Seq::<char>::empty());
        if start < s.len() {
            assert(s.skip(start)[0] == s[start]);
        }
    } else {
        assert(s.skip(start)[0] == s[start]);
        assert(s.skip(start).drop_first() =~= s.skip(start + 1));
        lemma_take_until_scan(s, start + 1, end, stop);
        assert(s.subrange(start, end) =~= seq![s[start]] + s.subrange(start + 1, end));
    }
}

/// The characters of `s` from `start` up to the first `stop` character (or
/// the end), as an owned string.
fn scan_segment(s: &str, start: usize, stop: char) -> (r: String)
    requires
        start as int <= s@.len(),
    ensures
        r@ == take_until(s@.skip(start as int), stop),
{
    let len = s.unicode_len();
    let mut i: usize = start;
    loop
        invariant
            start <= i <= len,
            len == s@.len(),
            forall|j: int| start <= j < i ==> s@[j] != stop,
        ensures
            start <= i <= len,
            len == s@.len(),
            forall|j: int| start <= j < i ==> s@[j] != stop,
            i == len || s@[i as int] == stop,
        decreases len - i,
    {
        if i == len {
            break;
        }
        if s.get_char(i) == stop {
            break;
        }
        i = i + 1;
    }
    proof {
        lemma_take_until_scan(s@, start as int, i as int, stop);
    }
    let sub = s.substring_char(start, i);
    String::from_str(sub)
}

/// Whether two string slices hold the same characters.
fn str_eq(a: &str, b: &str) -> (r: bool)
    ensures
        r == (a@ == b@),
{
    let sa = String::from_str(a);
    let sb = String::from_str(b);
    sa == sb
}

/// Resolve a YouTube video URL to the video id it names.
///
/// The id is returned verbatim, taken from the `v` query assignment for
/// `youtube.com` URLs and from the first path segment for `youtu.be` URLs;
/// no further validation is applied. Each error variant names exactly the
/// condition under which it is returned, per `resolve_spec`.
pub fn get_video_id_from_url(video_url: &str) -> (r: Result<String, YoutubeUrlError>)
    ensures
        match r {
            Ok(id) => resolve_spec(video_url@) == Ok::<Seq<char>, YoutubeUrlError>(id@),
            Err(e) => resolve_spec(video_url@) == Err::<Seq<char>, YoutubeUrlError>(e),
        },
{
    let parts = match parse_url_parts(video_url) {
        Some(p) => p,
        None => {
            return Err(YoutubeUrlError::MalformedUrl);
        },
    };
    let host = match &parts.host {
        Some(h) => h.as_str(),
        None => {
            return Err(YoutubeUrlError::MissingHost);
        },
    };
    if str_eq(host, "youtube.com") || str_eq(host, "www.youtube.com") {
        match &parts.query {
            None => Err(YoutubeUrlError::VideoIdNotFound),
            Some(q) => {
                let qs = q.as_str();
                let qlen = qs.unicode_len();
                if qlen >= 2 && qs.get_char(0) == 'v' && qs.get_char(1) == '=' {
                    let id = scan_segment(qs, 2, '&');
                    if id.as_str().unicode_len() == 0 {
                        Err(YoutubeUrlError::VideoIdNotFound)
                    } else {
                        Ok(id)
                    }
                } else {
                    Err(YoutubeUrlError::VideoIdNotFound)
                }
            },
        }
    } else if str_eq(host, "youtu.be") || str_eq(host, "www.youtu.be") {
        let ps = parts.path.as_str();
        let plen = ps.unicode_len();
        if plen >= 1 && ps.get_char(0) == '/' {
            let id = scan_segment(ps, 1, '/');
            if id.as_str().unicode_len() == 0 {
                Err(YoutubeUrlError::VideoIdNotFound)
            } else {
                Ok(id)
            }
        } else {
            Err(YoutubeUrlError::VideoIdNotFound)
        }
    } else {
        Err(YoutubeUrlError::UnsupportedDomain)
    }
}

/// Resolution is a pure function of its input: any two results obtained for
/// the same URL string are equal, so calling twice changes nothing.
pub proof fn lemma_resolve_deterministic(
    s: Seq<char>,
    r1: Result<Seq<char>, YoutubeUrlError>,
    r2: Result<Seq<char>, YoutubeUrlError>,
)
    requires
        r1 == resolve_spec(s),
        r2 == resolve_spec(s),
    ensures
        r1 == r2,
{
}

/// Long-form resolution returns the id verbatim: whenever a URL parses with a
/// host of the long-form family and a query that is exactly `v=` followed by
/// a nonempty id free of parameter separators, resolution yields that id.
pub proof fn lemma_long_form_resolution(s: Seq<char>, id: Seq<char>)
    requires
        url_parts_of(s) matches Some(p) && p.host matches Some(h) && is_long_form_host(h)
            && p.query == Some("v="@ + id),
        id.len() > 0,
        forall|j: int| 0 <= j < id.len() ==> id[j] != '&',
    ensures
        resolve_spec(s) == Ok::<Seq<char>, YoutubeUrlError>(id),
{
    reveal_strlit("v=");
    let q = "v="@ + id;
    assert(q[0] == 'v' && q[1] == '=');
    assert forall|j: int| 2 <= j < q.len() implies q[j] != '&' by {
        assert(q[j] == id[j - 2]);
    }
    lemma_take_until_scan(q, 2, q.len() as int, '&');
    assert(q.subrange(2, q.len() as int) =~= id);
}

/// Short-form resolution returns the id verbatim: whenever a URL parses with
/// a host of the short-form family and a path that is exactly a slash
/// followed by a nonempty, slash-free id, resolution yields that id.
pub proof fn lemma_short_form_resolution(s: Seq<char>, id: Seq<char>)
    requires
        url_parts_of(s) matches Some(p) && p.host matches Some(h) && is_short_form_host(h)
            && p.path == "/"@ + id,
        id.len() > 0,
        forall|j: int| 0 <= j < id.len() ==> id[j] != '/',
    ensures
        resolve_spec(s) == Ok::<Seq<char>, YoutubeUrlError>(id),
{
    reveal_strlit("/");
    let p = "/"@ + id;
    assert(p[0] == '/');
    assert forall|j: int| 1 <= j < p.len() implies p[j] != '/' by {
        assert(p[j] == id[j - 1]);
    }
    lemma_take_until_scan(p, 1, p.len() as int, '/');
    assert(p.subrange(1, p.len() as int) =~= id);
    reveal_strlit("youtube.com");
    reveal_strlit("www.youtube.com");
    reveal_strlit("youtu.be");
    reveal_strlit("www.youtu.be");
    let h = url_parts_of(s)->Some_0.host->Some_0;
    assert("youtube.com"@.len() == 11 && "www.youtube.com"@.len() == 15);
    assert("youtu.be"@.len() == 8 && "www.youtu.be"@.len() == 12);
    assert(!is_long_form_host(h));
}

/// A successfully resolved video id is never the empty string.
pub proof fn lemma_resolved_id_nonempty(s: Seq<char>)
    requires
        resolve_spec(s) is Ok,
    ensures
        resolve_spec(s)->Ok_0.len() > 0,
{
}

}
