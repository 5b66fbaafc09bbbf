//! How a request string is turned into tracks: which lookup to make, how the playlist
//! lister's output is framed, and which suggestions a partial query gets.

use crate::link::{is_youtube_link, request_kind, ParseYtLink};
use vstd::prelude::*;

verus! {

/// How many candidates a free-text search asks for.
pub const SEARCH_LIMIT: usize = 5;

/// Shortest partial query, in bytes, that is worth a search.
pub const MIN_QUERY_LEN: usize = 3;

/// The lookup that a request needs.
#[derive(Clone, Copy, PartialEq, Eq, Structural, Debug)]
pub enum SourcePlan {
    /// Search for the text and take up to `limit` results.
    Search { limit: usize },
    /// List the playlist's entries; each becomes a track.
    Playlist,
    /// The link itself is the one track.
    Single,
}

/// Why a request could not be turned into tracks.
#[derive(Clone, Copy, PartialEq, Eq, Structural, Debug)]
pub enum ResolveError {
    /// The link is of a kind that cannot be played (a channel, a user, another site...).
    UnsupportedLink,
    /// The search could not be made.
    SearchFailed,
    /// The playlist could not be listed.
    PlaylistFailed,
}

/// A playlist entry as the playlist lister reports it.
#[derive(Clone, Debug)]
pub struct YoutubeVideo {
    pub title: String,
    pub url: String,
}

/// The lookup for a request of kind `k`.
pub open spec fn plan_for(k: ParseYtLink) -> Result<SourcePlan, ResolveError> {
    match k {
        ParseYtLink::Search => Ok(SourcePlan::Search { limit: SEARCH_LIMIT }),
        ParseYtLink::Playlist => Ok(SourcePlan::Playlist),
        ParseYtLink::Song => Ok(SourcePlan::Single),
        _ => Err(ResolveError::UnsupportedLink),
    }
}

/// The lookup for a request of kind `kind`: searches take up to `SEARCH_LIMIT`
/// candidates, and only songs, playlists and searches can be played.
pub fn plan_for_kind(kind: ParseYtLink) -> (r: Result<SourcePlan, ResolveError>)
    ensures
        r == plan_for(kind),
{
    match kind {
        ParseYtLink::Search => Ok(SourcePlan::Search { limit: SEARCH_LIMIT }),
        ParseYtLink::Playlist => Ok(SourcePlan::Playlist),
        ParseYtLink::Song => Ok(SourcePlan::Single),
        _ => Err(ResolveError::UnsupportedLink),
    }
}

/// The lookup for request string `text`.
pub fn plan_request(text: &str) -> (r: Result<SourcePlan, ResolveError>)
    ensures
        r == plan_for(request_kind(text@)),
{
    plan_for_kind(is_youtube_link(text))
}

/// The non-empty lines of `s`, where `cur` is the part of a line already read.
pub open spec fn lines_from(s: Seq<u8>, cur: Seq<u8>) -> Seq<Seq<u8>>
    decreases s.len(),
{
    if s.len() == 0 {
        if cur.len() > 0 {
            seq![cur]
        } else {
            Seq::empty()
        }
    } else if s[0] == 10u8 {
        (if cur.len() > 0 {
            seq![cur]
        } else {
            Seq::empty()
        }) + lines_from(s.drop_first(), Seq::empty())
    } else {
        lines_from(s.drop_first(), cur.push(s[0]))
    }
}

/// The lines of `s`, split at each newline byte, with the empty ones left out.
pub open spec fn nonempty_lines(s: Seq<u8>) -> Seq<Seq<u8>> {
    lines_from(s, Seq::empty())
}

/// The playlist lister writes one entry per line; this splits its output into the
/// entries' texts, leaving out empty lines.
pub fn playlist_lines(output: &[u8]) -> (r: Vec<Vec<u8>>)
    ensures
        r@.map_values(|v: Vec<u8>| v@) == nonempty_lines(output@),
{
    let mut out: Vec<Vec<u8>> = Vec::new();
    let mut cur: Vec<u8> = Vec::new();
    let mut i: usize = 0;
    assert(output@.skip(0) =~= output@);
    assert(out@.map_values(|v: Vec<u8>| v@) + lines_from(output@, cur@) =~= lines_from(output@, cur@));
    while i < output.len()
        invariant
            i <= output@.len(),
            out@.map_values(|v: Vec<u8>| v@) + lines_from(output@.skip(i as int), cur@)
                == nonempty_lines(output@),
        decreases output@.len() - i,
    {
        let ghost rest = output@.skip(i as int);
        assert(rest[0] == output@[i as int]);
        assert(rest.drop_first() == output@.skip(i + 1));
        let b = output[i];
        let ghost old_cur = cur@;
        if b == 10u8 {
            assert(lines_from(rest, old_cur) == (if old_cur.len() > 0 {
                seq![old_cur]
            } else {
                Seq::empty()
            }) + lines_from(output@.skip(i + 1), Seq::empty()));
            if cur.len() > 0 {
                let ghost before = out@.map_values(|v: Vec<u8>| v@);
                let line = cur;
                cur = Vec::new();
                out.push(line);
                assert(out@.map_values(|v: Vec<u8>| v@) =~= before + seq![line@]);
                assert(before + seq![line@] + lines_from(output@.skip(i + 1), cur@) =~= before + (
                seq![line@] + lines_from(output@.skip(i + 1), cur@)));
            } else {
                assert(cur@ =~= Seq::<u8>::empty());
                assert(Seq::<Seq<u8>>::empty() + lines_from(output@.skip(i + 1), cur@)
                    =~= lines_from(output@.skip(i + 1), cur@));
            }
        } else {
            cur.push(b);
            assert(lines_from(rest, old_cur) == lines_from(output@.skip(i + 1), cur@));
        }
        i = i + 1;
    }
    let ghost before = out@.map_values(|v: Vec<u8>| v@);
    assert(output@.skip(i as int).len() == 0);
    if cur.len() > 0 {
        let ghost line = cur@;
        out.push(cur);
        assert(out@.map_values(|v: Vec<u8>| v@) =~= before + seq![line]);
    } else {
        assert(before + lines_from(output@.skip(i as int), cur@) =~= before);
    }
    out
}

/// Whether a partial query is long enough to search for.
pub fn needs_search(partial: &str) -> (r: bool)
    ensures
        r == (partial.len() >= MIN_QUERY_LEN),
{
    partial.len() >= MIN_QUERY_LEN
}

/// The text offered when there is nothing better to suggest.
pub const FALLBACK_SUGGESTION: &'static str = "music";

/// The suggestion for one search result: its title, or a placeholder.
pub open spec fn suggestion_text(title: Option<String>) -> Seq<char> {
    match title {
        Some(t) => t@,
        None => "No suggestion"@,
    }
}

/// The suggestions for a partial query: for a failed search (`None`) the fallback
/// alone; else each result's title in order, with a placeholder where a title is
/// missing.
pub fn suggestions(found: Option<Vec<Option<String>>>) -> (r: Vec<String>)
    ensures
        found is None ==> r@.map_values(|s: String| s@) == seq![FALLBACK_SUGGESTION@],
        found matches Some(titles) ==> r@.len() == titles@.len() && forall|i: int|
            0 <= i < titles@.len() ==> #[trigger] r@[i]@ == suggestion_text(titles@[i]),
{
    match found {
        None => {
            let mut r: Vec<String> = Vec::new();
            r.push(String::from_str(FALLBACK_SUGGESTION));
            assert(r@.map_values(|s: String| s@) =~= seq![FALLBACK_SUGGESTION@]);
            r
        },
        Some(titles) => {
            let mut r: Vec<String> = Vec::new();
            let mut i: usize = 0;
            while i < titles.len()
                invariant
                    i <= titles@.len(),
                    r@.len() == i,
                    forall|j: int| 0 <= j < i ==> #[trigger] r@[j]@ == suggestion_text(titles@[j]),
                decreases titles@.len() - i,
            {
                let s = match &titles[i] {
                    Some(t) => String::from_str(t.as_str()),
                    None => String::from_str("No suggestion"),
                };
                r.push(s);
                i = i + 1;
            }
            r
        },
    }
}

} // verus!
