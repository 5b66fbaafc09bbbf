//! What a request string asks for: a single video, a playlist, or a free-text search.

use crate::text::{count_char, ends_with, has_prefix, has_suffix, occurrences, same_text};
use vstd::prelude::*;

verus! {

/// The kind of a request string.
#[derive(Clone, Copy, PartialEq, Eq, Structural, Debug)]
pub enum ParseYtLink {
    Song,
    Playlist,
    NotYoutube,
    Channel,
    User,
    Live,
    Search,
    Shorts,
}

/// The parts of a parsed URL that the classifier reads.
pub struct UrlParts {
    /// The host, if the URL has one.
    pub host: Option<String>,
    /// The percent-encoded path.
    pub path: String,
    /// The decoded keys of the query's pairs, in order.
    pub query_keys: Vec<String>,
}

/// Whether url's parser accepts `s` as an absolute URL.
pub uninterp spec fn url_accepts(s: Seq<char>) -> bool;

/// The host that url gives for `s`.
pub uninterp spec fn url_host_of(s: Seq<char>) -> Option<Seq<char>>;

/// The path that url gives for `s`.
pub uninterp spec fn url_path_of(s: Seq<char>) -> Seq<char>;

/// The keys of the query pairs that url gives for `s`.
pub uninterp spec fn url_query_keys_of(s: Seq<char>) -> Seq<Seq<char>>;

/// The host of `p` as text.
pub open spec fn host_view(p: UrlParts) -> Option<Seq<char>> {
    match p.host {
        Some(h) => Some(h@),
        None => None,
    }
}

/// The query keys of `p` as text.
pub open spec fn keys_view(p: UrlParts) -> Seq<Seq<char>> {
    p.query_keys@.map_values(|k: String| k@)
}

/// Relies on url's `Url::parse`, and on `Url::host_str`, `Url::path` and
/// `Url::query_pairs` for the parsed URL; their results depend on the text alone.
#[verifier::external_body]
fn parse_url(s: &str) -> (r: Option<UrlParts>)
    ensures
        r is Some <==> url_accepts(s@),
        r matches Some(p) ==> host_view(p) == url_host_of(s@) && p.path@ == url_path_of(s@)
            && keys_view(p) == url_query_keys_of(s@),
{
    match url::Url::parse(s) {
        Ok(u) => Some(
            UrlParts {
                host: u.host_str().map(|h| h.to_string()),
                path: u.path().to_string(),
                query_keys: u.query_pairs().map(|(k, _)| k.into_owned()).collect(),
            },
        ),
        Err(_) => None,
    }
}

/// The kind of a link to a youtube.com host, by its path and query keys.
pub open spec fn youtube_com_kind(path: Seq<char>, keys: Seq<Seq<char>>) -> ParseYtLink {
    if "/watch"@.is_prefix_of(path) && keys.contains("v"@) {
        ParseYtLink::Song
    } else if "/watch"@.is_prefix_of(path) && keys.contains("list"@) {
        ParseYtLink::Playlist
    } else if "/playlist"@.is_prefix_of(path) && keys.contains("list"@) {
        ParseYtLink::Playlist
    } else if "/channel/"@.is_prefix_of(path) {
        ParseYtLink::Channel
    } else if "/user/"@.is_prefix_of(path) {
        ParseYtLink::User
    } else if "/c/"@.is_prefix_of(path) {
        ParseYtLink::Channel
    } else if "/live/"@.is_prefix_of(path) {
        ParseYtLink::Live
    } else if path == "/shorts/{}"@ && occurrences(path, '/') == 2 {
        ParseYtLink::Shorts
    } else {
        ParseYtLink::Song
    }
}

/// The kind of a link to youtu.be, by its path.
pub open spec fn short_host_kind(path: Seq<char>) -> ParseYtLink {
    if "/"@.is_prefix_of(path) && occurrences(path, '/') == 1 {
        ParseYtLink::Song
    } else if "/live/"@.is_prefix_of(path) {
        ParseYtLink::Live
    } else if path == "/shorts/{}"@ && occurrences(path, '/') == 2 {
        ParseYtLink::Shorts
    } else {
        ParseYtLink::Song
    }
}

/// The kind of a parsed URL: no host means a search; a host that is neither a
/// youtube.com host nor youtu.be is no YouTube link.
pub open spec fn link_kind(host: Option<Seq<char>>, path: Seq<char>, keys: Seq<Seq<char>>) -> ParseYtLink {
    match host {
        None => ParseYtLink::Search,
        Some(h) => if ends_with(h, "youtube.com"@) {
            youtube_com_kind(path, keys)
        } else if h == "youtu.be"@ {
            short_host_kind(path)
        } else {
            ParseYtLink::NotYoutube
        },
    }
}

/// The kind of request string `s`: text that is no URL is a search.
pub open spec fn request_kind(s: Seq<char>) -> ParseYtLink {
    if url_accepts(s) {
        link_kind(url_host_of(s), url_path_of(s), url_query_keys_of(s))
    } else {
        ParseYtLink::Search
    }
}

fn has_key(keys: &Vec<String>, key: &str) -> (r: bool)
    ensures
        r == keys@.map_values(|k: String| k@).contains(key@),
{
    let mut i: usize = 0;
    while i < keys.len()
        invariant
            i <= keys@.len(),
            forall|j: int| 0 <= j < i ==> keys@[j]@ != key@,
        decreases keys@.len() - i,
    {
        if same_text(keys[i].as_str(), key) {
            assert(keys@.map_values(|k: String| k@)[i as int] == key@);
            return true;
        }
        i = i + 1;
    }
    proof {
        let v = keys@.map_values(|k: String| k@);
        if v.contains(key@) {
            let j = choose|j: int| 0 <= j < v.len() && v[j] == key@;
            assert(keys@[j]@ == key@);
        }
    }
    false
}

fn youtube_com_link_kind(path: &str, keys: &Vec<String>) -> (r: ParseYtLink)
    ensures
        r == youtube_com_kind(path@, keys@.map_values(|k: String| k@)),
{
    let watch = has_prefix(path, "/watch");
    if watch && has_key(keys, "v") {
        ParseYtLink::Song
    } else if watch && has_key(keys, "list") {
        ParseYtLink::Playlist
    } else if has_prefix(path, "/playlist") && has_key(keys, "list") {
        ParseYtLink::Playlist
    } else if has_prefix(path, "/channel/") {
        ParseYtLink::Channel
    } else if has_prefix(path, "/user/") {
        ParseYtLink::User
    } else if has_prefix(path, "/c/") {
        ParseYtLink::Channel
    } else if has_prefix(path, "/live/") {
        ParseYtLink::Live
    } else if same_text(path, "/shorts/{}") && count_char(path, '/') == 2 {
        ParseYtLink::Shorts
    } else {
        ParseYtLink::Song
    }
}

fn short_host_link_kind(path: &str) -> (r: ParseYtLink)
    ensures
        r == short_host_kind(path@),
{
    if has_prefix(path, "/") && count_char(path, '/') == 1 {
        ParseYtLink::Song
    } else if has_prefix(path, "/live/") {
        ParseYtLink::Live
    } else if same_text(path, "/shorts/{}") && count_char(path, '/') == 2 {
        ParseYtLink::Shorts
    } else {
        ParseYtLink::Song
    }
}

/// The kind of an already parsed URL.
pub fn classify_url_parts(parts: &UrlParts) -> (r: ParseYtLink)
    ensures
        r == link_kind(host_view(*parts), parts.path@, keys_view(*parts)),
{
    match &parts.host {
        None => ParseYtLink::Search,
        Some(h) => {
            if has_suffix(h.as_str(), "youtube.com") {
                youtube_com_link_kind(parts.path.as_str(), &parts.query_keys)
            } else if same_text(h.as_str(), "youtu.be") {
                short_host_link_kind(parts.path.as_str())
            } else {
                ParseYtLink::NotYoutube
            }
        },
    }
}

/// The kind of a request string: a YouTube video, playlist, channel, user, live or
/// shorts link, a link elsewhere, or (text that is no URL, or a URL without a host)
/// a search.
pub fn is_youtube_link(url_string: &str) -> (r: ParseYtLink)
    ensures
        r == request_kind(url_string@),
{
    match parse_url(url_string) {
        Some(parts) => classify_url_parts(&parts),
        None => ParseYtLink::Search,
    }
}

} // verus!
