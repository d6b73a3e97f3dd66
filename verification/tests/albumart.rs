use swoncord::albumart::{
    clean_album_name, cover_art_url, cover_check, query_string, release_queries, search_step,
    CoverCheck, ReleaseQuery, SearchStep,
};

#[test]
fn clean_album_name_strips_trailing_qualifiers() {
    assert_eq!(
        clean_album_name("Album (Deluxe Edition)").as_deref(),
        Some("Album")
    );
    assert_eq!(clean_album_name("Album [Remaster]").as_deref(), Some("Album"));
    assert_eq!(
        clean_album_name("Album [Remaster] (Bonus)").as_deref(),
        Some("Album")
    );
}

#[test]
fn clean_album_name_leaves_plain_names_untouched() {
    assert_eq!(
        clean_album_name("Plain Album").as_deref(),
        Some("Plain Album")
    );
    // Parentheses that are part of the title (not trailing-separated) stay.
    assert_eq!(
        clean_album_name("Album(NoSpace)").as_deref(),
        Some("Album(NoSpace)")
    );
}

#[test]
fn searches_go_from_most_to_least_specific() {
    let queries = release_queries("Artist", "Album (Live)", "Album");
    assert_eq!(queries.len(), 3);
    assert_eq!(queries[0].artist.as_deref(), Some("Artist"));
    assert_eq!(queries[0].release_group, "Album (Live)");
    assert_eq!(queries[1].artist, None);
    assert_eq!(queries[1].release_group, "Album (Live)");
    assert_eq!(queries[2].artist, None);
    assert_eq!(queries[2].release_group, "Album");
}

#[test]
fn cover_urls_point_at_the_front_cover() {
    assert_eq!(
        cover_art_url("abc-123"),
        "https://coverartarchive.org/release-group/abc-123/front-250"
    );
}

#[test]
fn http_failure_is_distinct_from_missing_art() {
    assert_eq!(cover_check(503), CoverCheck::Failed(503));
    assert_eq!(cover_check(404), CoverCheck::Missing);
    assert_eq!(cover_check(200), CoverCheck::Present);
    assert_eq!(cover_check(400), CoverCheck::Failed(400));
    assert_eq!(cover_check(302), CoverCheck::Present);
}

#[test]
fn first_search_that_finds_a_release_decides() {
    match search_step(0, 3, Some("abc".to_string())) {
        SearchStep::Found(id) => assert_eq!(id, "abc"),
        other => panic!("unexpected step {:?}", other),
    }
    match search_step(2, 3, Some("last".to_string())) {
        SearchStep::Found(id) => assert_eq!(id, "last"),
        other => panic!("unexpected step {:?}", other),
    }
}

#[test]
fn empty_searches_move_on_until_none_is_left() {
    assert!(matches!(search_step(0, 3, None), SearchStep::Next));
    assert!(matches!(search_step(1, 3, None), SearchStep::Next));
    assert!(matches!(search_step(2, 3, None), SearchStep::Exhausted));
}

#[test]
fn searches_become_lucene_queries() {
    let by_artist = ReleaseQuery {
        artist: Some("Artist".to_string()),
        release_group: "Album".to_string(),
    };
    assert_eq!(query_string(&by_artist), "artist:Artist AND releasegroup:Album");
    let by_album = ReleaseQuery {
        artist: None,
        release_group: "Two Words".to_string(),
    };
    assert_eq!(query_string(&by_album), "releasegroup:\"Two Words\"");
}
