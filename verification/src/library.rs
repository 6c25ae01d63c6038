//! Library browsing: the filters a listing is loaded with, paging through
//! the listing, and finding the selected song in it.
use vstd::prelude::*;

use crate::text::{chars_equal, chars_of};

verus! {

/// A narrowing of the library to one artist, album or playlist.
pub enum LibraryFacet {
    Artist { value: String },
    Album { value: String },
    Playlist { value: String },
}

/// What a library listing is loaded with. `None` is no restriction.
pub struct LibraryFilters {
    pub search: Option<String>,
    pub status: Option<String>,
    pub transcript_source: Option<String>,
    pub artist: Option<String>,
    pub album: Option<String>,
    pub playlist: Option<String>,
}

fn clone_option(value: &Option<String>) -> (copy: Option<String>)
    ensures
        copy == *value,
{
    match value {
        Some(s) => Some(s.clone()),
        None => None,
    }
}

/// The filters of the current listing: those of the library view
/// (`view_filters`), with the search, status and transcript-source choices
/// put in place, and the facet, if any, restricting its own field.
pub fn library_filters(
    view_filters: LibraryFilters,
    search: &Option<String>,
    status: &Option<String>,
    transcript_source: &Option<String>,
    facet: &Option<LibraryFacet>,
) -> (filters: LibraryFilters)
    ensures
        filters.search == *search,
        filters.status == *status,
        filters.transcript_source == *transcript_source,
        filters.artist == (match facet {
            Some(LibraryFacet::Artist { value }) => Some(*value),
            _ => view_filters.artist,
        }),
        filters.album == (match facet {
            Some(LibraryFacet::Album { value }) => Some(*value),
            _ => view_filters.album,
        }),
        filters.playlist == (match facet {
            Some(LibraryFacet::Playlist { value }) => Some(*value),
            _ => view_filters.playlist,
        }),
{
    let mut filters = view_filters;
    filters.search = clone_option(search);
    filters.status = clone_option(status);
    filters.transcript_source = clone_option(transcript_source);
    match facet {
        Some(LibraryFacet::Artist { value }) => filters.artist = Some(value.clone()),
        Some(LibraryFacet::Album { value }) => filters.album = Some(value.clone()),
        Some(LibraryFacet::Playlist { value }) => filters.playlist = Some(value.clone()),
        None => {},
    }
    filters
}

/// How many songs one "load more" asks for.
pub const LIBRARY_PAGE_SIZE: usize = 500;

/// The songs of a listing loaded so far, and how many the whole listing
/// holds.
pub struct SongPage<T> {
    pub processed: Vec<T>,
    pub count: usize,
    pub processed_count: usize,
}

impl<T> SongPage<T> {
    /// Where the next page starts and how long it is: after the songs
    /// already loaded.
    pub fn next_page_window(&self) -> (window: (usize, usize))
        ensures
            window == (self.processed@.len() as usize, LIBRARY_PAGE_SIZE),
    {
        (self.processed.len(), LIBRARY_PAGE_SIZE)
    }

    /// Appends a loaded page: its songs follow those already loaded, the
    /// listing's total is the page's, and the loaded count is the new
    /// length.
    pub fn load_more(&mut self, next: SongPage<T>)
        requires
            old(self).processed@.len() + next.processed@.len() <= usize::MAX,
        ensures
            final(self).processed@ == old(self).processed@ + next.processed@,
            final(self).count == next.count,
            final(self).processed_count == final(self).processed@.len(),
    {
        let mut more = next.processed;
        self.processed.append(&mut more);
        self.count = next.count;
        self.processed_count = self.processed.len();
    }
}

/// The position of the first loaded song whose file hash is the selected
/// one; `None` when nothing is selected or the song is not loaded (it is
/// then looked up by its hash in the store).
pub fn selected_song_index(hashes: &Vec<String>, selected: &Option<String>) -> (index: Option<usize>)
    ensures
        selected is None ==> index is None,
        selected matches Some(hash) ==> match index {
            Some(i) => i < hashes@.len() && hashes@[i as int]@ == hash@ && forall|k: int|
                0 <= k < i ==> hashes@[k]@ != hash@,
            None => forall|k: int| 0 <= k < hashes@.len() ==> hashes@[k]@ != hash@,
        },
{
    match selected {
        None => None,
        Some(hash) => {
            let wanted = chars_of(hash.as_str());
            let mut i: usize = 0;
            while i < hashes.len()
                invariant
                    i <= hashes@.len(),
                    *selected == Some(*hash),
                    wanted@ == hash@,
                    forall|k: int| 0 <= k < i ==> hashes@[k]@ != hash@,
                decreases hashes.len() - i,
            {
                if chars_equal(&chars_of(hashes[i].as_str()), &wanted) {
                    return Some(i);
                }
                i = i + 1;
            }
            None
        },
    }
}

} // verus!
