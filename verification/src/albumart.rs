//! Album-art lookup decisions: the MusicBrainz search plan, the Cover Art
//! Archive URL, and what a cover check's HTTP status means. The HTTP
//! requests themselves are made by the caller.

use vstd::prelude::*;
use crate::text::opt_string;

verus! {

/// User agent reported to the MusicBrainz API, whose guidelines require one.
pub const MUSICBRAINZ_USER_AGENT: &'static str =
    "SwinsianRichPresence/1.0.0 ( https://jonasbengtson.se )";

/// Network timeout of MusicBrainz and Cover Art Archive requests.
pub const HTTP_TIMEOUT_MS: u64 = 10_000;

/// Pause between two MusicBrainz searches, which have no rate limiter of
/// their own.
pub const SEARCH_SPACING_MS: u64 = 1_000;

/// Pattern of trailing parenthesised or bracketed qualifiers of an album
/// name, as in "Album (Deluxe Edition)" or "Album [Remaster] (Bonus)".
pub const ALBUM_CLEAN_PATTERN: &'static str =
    r"\s+[\(\[][^\(\)\[\]]*[\)\]](\s+[\(\[][^\(\)\[\]]*[\)\]])*$";

/// What `regex::Regex::new(pattern)` followed by `Regex::replace(haystack,
/// "")` gives: `None` when the pattern does not compile, otherwise the
/// haystack with its leftmost-first match deleted.
pub uninterp spec fn regex_deletion(pattern: Seq<char>, haystack: Seq<char>) -> Option<Seq<char>>;

/// Compiles `pattern` with `regex::Regex::new` and deletes the leftmost-first
/// match in `haystack` with `Regex::replace` and an empty replacement. The
/// contract names the result (see [`regex_deletion`]) and states what the
/// crate documents of every deletion: the result is the haystack with one
/// contiguous piece, possibly empty, cut out.
#[verifier::external_body]
fn regex_delete_first(pattern: &str, haystack: &str) -> (r: Option<String>)
    ensures
        opt_string(r) == regex_deletion(pattern@, haystack@),
        r matches Some(s) ==> exists|i: int, j: int|
            0 <= i <= j <= haystack@.len() && s@ == haystack@.take(i) + haystack@.skip(j),
{
    match regex::Regex::new(pattern) {
        Ok(re) => Some(re.replace(haystack, "").into_owned()),
        Err(_) => None,
    }
}

/// The album name without trailing qualifiers (see [`ALBUM_CLEAN_PATTERN`]),
/// used as the last and broadest search. `None` only if the pattern fails
/// to compile.
pub fn clean_album_name(album: &str) -> (r: Option<String>)
    ensures
        opt_string(r) == regex_deletion(ALBUM_CLEAN_PATTERN@, album@),
        r matches Some(s) ==> exists|i: int, j: int|
            0 <= i <= j <= album@.len() && s@ == album@.take(i) + album@.skip(j),
{
    regex_delete_first(ALBUM_CLEAN_PATTERN, album)
}

/// One MusicBrainz release-group search.
#[derive(Debug)]
pub struct ReleaseQuery {
    /// The artist to match, if the search narrows by artist.
    pub artist: Option<String>,
    /// The release-group (album) name to match.
    pub release_group: String,
}

/// The searches, from most to least specific: artist and album, album
/// alone, then the album without its qualifiers. The first that finds a
/// release group decides.
pub fn release_queries(artist: &str, album: &str, cleaned_album: &str) -> (r: Vec<ReleaseQuery>)
    ensures
        r@.len() == 3,
        r@[0].artist matches Some(a) && a@ == artist@,
        r@[0].release_group@ == album@,
        r@[1].artist is None,
        r@[1].release_group@ == album@,
        r@[2].artist is None,
        r@[2].release_group@ == cleaned_album@,
{
    let mut queries = Vec::new();
    queries.push(
        ReleaseQuery {
            artist: Some(String::from_str(artist)),
            release_group: String::from_str(album),
        },
    );
    queries.push(ReleaseQuery { artist: None, release_group: String::from_str(album) });
    queries.push(ReleaseQuery { artist: None, release_group: String::from_str(cleaned_album) });
    queries
}

/// What `ReleaseGroupSearchQuery::query_builder().artist(artist).and()
/// .release_group(album).build()` of `musicbrainz_rs` gives: the Lucene
/// query string of a release-group search by artist and album.
pub uninterp spec fn artist_album_lucene(artist: Seq<char>, album: Seq<char>) -> Seq<char>;

/// What `ReleaseGroupSearchQuery::query_builder().and()
/// .release_group(album).build()` of `musicbrainz_rs` gives: the Lucene
/// query string of a release-group search by album alone.
pub uninterp spec fn album_lucene(album: Seq<char>) -> Seq<char>;

/// Builds the MusicBrainz query string of a release-group search by artist
/// and album. The builder only formats its arguments, so the result is
/// named (see [`artist_album_lucene`]).
#[verifier::external_body]
fn artist_album_query(artist: &str, album: &str) -> (r: String)
    ensures
        r@ == artist_album_lucene(artist@, album@),
{
    musicbrainz_rs::entity::release_group::ReleaseGroupSearchQuery::query_builder()
        .artist(artist)
        .and()
        .release_group(album)
        .build()
}

/// Builds the MusicBrainz query string of a release-group search by album
/// alone, with the builder's leading `and()` as the search has always been
/// written. The result is named (see [`album_lucene`]).
#[verifier::external_body]
fn album_query(album: &str) -> (r: String)
    ensures
        r@ == album_lucene(album@),
{
    musicbrainz_rs::entity::release_group::ReleaseGroupSearchQuery::query_builder()
        .and()
        .release_group(album)
        .build()
}

/// The query string of a search: by artist and album where the search
/// narrows by artist, by album alone otherwise.
pub fn query_string(query: &ReleaseQuery) -> (r: String)
    ensures
        r@ == match query.artist {
            Some(a) => artist_album_lucene(a@, query.release_group@),
            None => album_lucene(query.release_group@),
        },
{
    match &query.artist {
        Some(artist) => artist_album_query(artist.as_str(), query.release_group.as_str()),
        None => album_query(query.release_group.as_str()),
    }
}

/// Where the release search stands after one of its searches answered.
#[derive(Debug)]
pub enum SearchStep {
    /// The search found a release group, whose id ends the lookup.
    Found(String),
    /// Nothing found: wait [`SEARCH_SPACING_MS`], then run the next search.
    Next,
    /// Nothing found by the last search either: the album has no data.
    Exhausted,
}

/// The abstract value of a [`SearchStep`].
pub enum StepView {
    Found(Seq<char>),
    Next,
    Exhausted,
}

/// The view of a step.
pub open spec fn step_view(s: SearchStep) -> StepView {
    match s {
        SearchStep::Found(id) => StepView::Found(id@),
        SearchStep::Next => StepView::Next,
        SearchStep::Exhausted => StepView::Exhausted,
    }
}

/// The step after search `index` of `count` found `first_id`: a found id
/// decides; otherwise the next search, or none left after the last.
pub open spec fn search_step_of(index: int, count: int, first_id: Option<Seq<char>>) -> StepView {
    match first_id {
        Some(id) => StepView::Found(id),
        None => if index + 1 < count {
            StepView::Next
        } else {
            StepView::Exhausted
        },
    }
}

/// The step after search `index` of `count` came back with `first_id`, the
/// id of its first release group if it found any. The first search that
/// finds something decides; a failed search ends the lookup before this is
/// asked.
pub fn search_step(index: usize, count: usize, first_id: Option<String>) -> (r: SearchStep)
    requires
        index < count,
    ensures
        step_view(r) == search_step_of(index as int, count as int, opt_string(first_id)),
{
    match first_id {
        Some(id) => SearchStep::Found(id),
        None => if index + 1 < count {
            SearchStep::Next
        } else {
            SearchStep::Exhausted
        },
    }
}

/// Front of a Cover Art Archive URL, before the release-group id.
pub const COVER_ART_PREFIX: &'static str = "https://coverartarchive.org/release-group/";

/// End of a Cover Art Archive URL: the 250-pixel front cover.
pub const COVER_ART_SUFFIX: &'static str = "/front-250";

/// The URL of the front cover of a release group.
pub fn cover_art_url(release_id: &str) -> (r: String)
    ensures
        r@ == COVER_ART_PREFIX@ + release_id@ + COVER_ART_SUFFIX@,
{
    let mut url = String::from_str(COVER_ART_PREFIX);
    url.append(release_id);
    url.append(COVER_ART_SUFFIX);
    url
}

/// What the status of the HEAD request for a cover URL means.
#[derive(Debug, Clone, Copy, PartialEq, Eq, Structural)]
pub enum CoverCheck {
    /// The cover exists.
    Present,
    /// Not found: the release group has no cover.
    Missing,
    /// Any other client or server error.
    Failed(u16),
}

/// 404 means no cover; any other 4xx or 5xx status is an HTTP failure;
/// everything else means the cover is there.
pub open spec fn cover_check_of(status: u16) -> CoverCheck {
    if status == 404 {
        CoverCheck::Missing
    } else if 400 <= status <= 599 {
        CoverCheck::Failed(status)
    } else {
        CoverCheck::Present
    }
}

/// Interprets the status of a cover check (see [`cover_check_of`]).
pub fn cover_check(status: u16) -> (r: CoverCheck)
    ensures
        r == cover_check_of(status),
{
    if status == 404 {
        CoverCheck::Missing
    } else if 400 <= status && status <= 599 {
        CoverCheck::Failed(status)
    } else {
        CoverCheck::Present
    }
}

/// How the release search goes on from search `index` of `count`, given
/// the `answers` of the searches from there on, in order: `Err(())` for a
/// failed request, which ends the lookup with the failure, otherwise the
/// id of the search's first release group, if it found one, which goes to
/// [`search_step_of`]. `Ok(Some(id))` is the release found, `Ok(None)` no
/// release.
pub open spec fn search_run(
    index: int,
    count: int,
    answers: Seq<Result<Option<Seq<char>>, ()>>,
) -> Result<Option<Seq<char>>, ()>
    decreases answers.len(),
{
    if answers.len() == 0 {
        Ok(None)
    } else {
        match answers[0] {
            Err(()) => Err(()),
            Ok(found) => match search_step_of(index, count, found) {
                StepView::Found(id) => Ok(Some(id)),
                StepView::Next => search_run(index + 1, count, answers.drop_first()),
                StepView::Exhausted => Ok(None),
            },
        }
    }
}

/// What an album-art lookup comes to, from the release search's result and
/// the answer to the HEAD request for the cover (`Err(())` where the
/// request failed).
pub enum ArtLookup {
    /// The cover URL.
    Cover(Seq<char>),
    /// No release, or no cover for it.
    NoData,
    /// A search failed.
    SearchFailed,
    /// The cover check failed.
    CheckFailed,
}

/// The lookup's result: the cover URL of the release found when its check
/// finds the cover; no data when no release matches or the check answers
/// 404; a failure otherwise.
pub open spec fn album_art(search: Result<Option<Seq<char>>, ()>, head: Result<u16, ()>) -> ArtLookup {
    match search {
        Err(()) => ArtLookup::SearchFailed,
        Ok(None) => ArtLookup::NoData,
        Ok(Some(id)) => match head {
            Err(()) => ArtLookup::CheckFailed,
            Ok(status) => match cover_check_of(status) {
                CoverCheck::Present => ArtLookup::Cover(COVER_ART_PREFIX@ + id + COVER_ART_SUFFIX@),
                CoverCheck::Missing => ArtLookup::NoData,
                CoverCheck::Failed(_) => ArtLookup::CheckFailed,
            },
        },
    }
}

/// Over all the searches (from the first, `answers` holding one answer per
/// search), the first search that fails or finds a release decides: a
/// failure propagates, the first release found wins, and only when every
/// search found nothing is there no release. Searches after the deciding
/// one do not matter.
pub proof fn law_first_found_release_wins(
    answers: Seq<Result<Option<Seq<char>>, ()>>,
    i: int,
)
    requires
        0 <= i < answers.len(),
        forall|j: int| 0 <= j < i ==> #[trigger] answers[j] == Ok::<Option<Seq<char>>, ()>(None),
        answers[i] != Ok::<Option<Seq<char>>, ()>(None),
    ensures
        search_run(0, answers.len() as int, answers) == match answers[i] {
            Err(()) => Err(()),
            Ok(found) => Ok(found),
        },
        forall|later: Seq<Result<Option<Seq<char>>, ()>>|
            #![trigger search_run(0, answers.len() as int, answers.take(i + 1) + later)]
            later.len() == answers.len() - (i + 1) ==> search_run(
                0,
                answers.len() as int,
                answers.take(i + 1) + later,
            ) == search_run(0, answers.len() as int, answers),
{
    lemma_search_run_first(0, answers.len() as int, answers, i);
    assert forall|later: Seq<Result<Option<Seq<char>>, ()>>|
        #![trigger search_run(0, answers.len() as int, answers.take(i + 1) + later)]
        later.len() == answers.len() - (i + 1) implies search_run(
            0,
            answers.len() as int,
            answers.take(i + 1) + later,
        ) == search_run(0, answers.len() as int, answers) by {
        let other = answers.take(i + 1) + later;
        assert forall|j: int| 0 <= j < i implies #[trigger] other[j] == Ok::<Option<Seq<char>>, ()>(None) by {
            assert(other[j] == answers[j]);
        }
        assert(other[i] == answers[i]);
        lemma_search_run_first(0, answers.len() as int, other, i);
    }
}

/// When every search finds nothing, there is no release.
pub proof fn law_no_release_when_nothing_is_found(answers: Seq<Result<Option<Seq<char>>, ()>>)
    requires
        forall|j: int| 0 <= j < answers.len() ==> #[trigger] answers[j] == Ok::<Option<Seq<char>>, ()>(None),
    ensures
        search_run(0, answers.len() as int, answers) == Ok::<Option<Seq<char>>, ()>(None),
{
    lemma_search_run_empty(0, answers.len() as int, answers);
}

proof fn lemma_search_run_empty(index: int, count: int, answers: Seq<Result<Option<Seq<char>>, ()>>)
    requires
        forall|j: int| 0 <= j < answers.len() ==> #[trigger] answers[j] == Ok::<Option<Seq<char>>, ()>(None),
    ensures
        search_run(index, count, answers) == Ok::<Option<Seq<char>>, ()>(None),
    decreases answers.len(),
{
    if answers.len() > 0 {
        let rest = answers.drop_first();
        assert forall|j: int| 0 <= j < rest.len() implies #[trigger] rest[j] == Ok::<Option<Seq<char>>, ()>(None) by {
            assert(rest[j] == answers[j + 1]);
        }
        assert(answers[0] == Ok::<Option<Seq<char>>, ()>(None));
        lemma_search_run_empty(index + 1, count, rest);
    }
}

proof fn lemma_search_run_first(
    index: int,
    count: int,
    answers: Seq<Result<Option<Seq<char>>, ()>>,
    i: int,
)
    requires
        0 <= i < answers.len(),
        index + answers.len() == count,
        forall|j: int| 0 <= j < i ==> #[trigger] answers[j] == Ok::<Option<Seq<char>>, ()>(None),
        answers[i] != Ok::<Option<Seq<char>>, ()>(None),
    ensures
        search_run(index, count, answers) == match answers[i] {
            Err(()) => Err(()),
            Ok(found) => Ok(found),
        },
    decreases i,
{
    if i > 0 {
        let rest = answers.drop_first();
        assert forall|j: int| 0 <= j < i - 1 implies #[trigger] rest[j] == Ok::<Option<Seq<char>>, ()>(None) by {
            assert(rest[j] == answers[j + 1]);
        }
        assert(rest[i - 1] == answers[i]);
        assert(answers[0] == Ok::<Option<Seq<char>>, ()>(None));
        lemma_search_run_first(index + 1, count, rest, i - 1);
    }
}

/// A lookup ends with a cover only for a release that was found and whose
/// check found the cover, and the URL is that release's front cover. It
/// ends with no data exactly when no release matches or the check answers
/// 404; a failed search or check is a failure, never "no data".
pub proof fn law_album_art(search: Result<Option<Seq<char>>, ()>, head: Result<u16, ()>)
    ensures
        album_art(search, head) matches ArtLookup::Cover(u) ==> (search matches Ok(Some(id)) && (u
            == COVER_ART_PREFIX@ + id + COVER_ART_SUFFIX@ && (head matches Ok(status) && !(400
            <= status <= 599)))),
        album_art(search, head) is NoData <==> (search == Ok::<Option<Seq<char>>, ()>(None) || (search
            matches Ok(Some(_)) && head == Ok::<u16, ()>(404))),
        search is Err ==> album_art(search, head) is SearchFailed,
        (search matches Ok(Some(_)) && (head is Err || (head matches Ok(status) && status
            != 404 && 400 <= status <= 599))) ==> album_art(search, head) is CheckFailed,
{
}

} // verus!
