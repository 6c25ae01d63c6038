use uta_studio_desktop::library::{
    library_filters, selected_song_index, LibraryFacet, LibraryFilters, SongPage,
    LIBRARY_PAGE_SIZE,
};

fn no_filters() -> LibraryFilters {
    LibraryFilters {
        search: None,
        status: None,
        transcript_source: None,
        artist: None,
        album: None,
        playlist: None,
    }
}

#[test]
fn filters_take_the_search_and_the_facet() {
    let mut view = no_filters();
    view.status = Some("queued".to_string());
    view.album = Some("Base Album".to_string());
    let filters = library_filters(
        view,
        &Some("moon".to_string()),
        &None,
        &Some("lrclib".to_string()),
        &Some(LibraryFacet::Artist { value: "Aimer".to_string() }),
    );
    assert_eq!(filters.search.as_deref(), Some("moon"));
    assert_eq!(filters.status, None);
    assert_eq!(filters.transcript_source.as_deref(), Some("lrclib"));
    assert_eq!(filters.artist.as_deref(), Some("Aimer"));
    assert_eq!(filters.album.as_deref(), Some("Base Album"));
    assert_eq!(filters.playlist, None);
}

#[test]
fn a_playlist_facet_restricts_only_the_playlist() {
    let filters = library_filters(
        no_filters(),
        &None,
        &None,
        &None,
        &Some(LibraryFacet::Playlist { value: "Night".to_string() }),
    );
    assert_eq!(filters.playlist.as_deref(), Some("Night"));
    assert_eq!(filters.artist, None);
    assert_eq!(filters.album, None);
}

#[test]
fn loading_more_appends_the_next_page() {
    let mut page = SongPage { processed: vec!["a", "b"], count: 9, processed_count: 2 };
    assert_eq!(page.next_page_window(), (2, LIBRARY_PAGE_SIZE));
    assert_eq!(LIBRARY_PAGE_SIZE, 500);
    page.load_more(SongPage { processed: vec!["c"], count: 10, processed_count: 1 });
    assert_eq!(page.processed, vec!["a", "b", "c"]);
    assert_eq!(page.count, 10);
    assert_eq!(page.processed_count, 3);
    assert_eq!(page.next_page_window(), (3, 500));
}

#[test]
fn the_selected_song_is_found_by_hash() {
    let hashes = vec!["h1".to_string(), "h2".to_string(), "h2".to_string()];
    assert_eq!(selected_song_index(&hashes, &Some("h2".to_string())), Some(1));
    assert_eq!(selected_song_index(&hashes, &Some("h1".to_string())), Some(0));
    assert_eq!(selected_song_index(&hashes, &Some("h3".to_string())), None);
    assert_eq!(selected_song_index(&hashes, &None), None);
    assert_eq!(selected_song_index(&Vec::new(), &Some("h1".to_string())), None);
}
