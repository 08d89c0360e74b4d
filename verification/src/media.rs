//! The vocabulary shared by requests, adapters and reports, and the common
//! intermediate record that every adapter produces.

use crate::time::UtcInstant;
use vstd::prelude::*;

verus! {

/// The external sources from which a history can be imported.
#[derive(Clone, Copy, Debug, PartialEq, Eq, Hash, Structural)]
pub enum ImportSource {
    Audiobookshelf,
    GenericJson,
    Goodreads,
    Igdb,
    Imdb,
    Jellyfin,
    Mediatracker,
    Movary,
    Myanimelist,
    OpenScale,
    Plex,
    Storygraph,
    StrongApp,
    Trakt,
}

/// The catalogs that media identifiers belong to.
#[derive(Clone, Copy, Debug, PartialEq, Eq, Hash, Structural)]
pub enum MediaSource {
    Anilist,
    Audible,
    Custom,
    GoogleBooks,
    Igdb,
    Itunes,
    Listennotes,
    MangaUpdates,
    Mal,
    Openlibrary,
    Tmdb,
    Vndb,
}

/// The kinds of media that are tracked.
#[derive(Clone, Copy, Debug, PartialEq, Eq, Hash, Structural)]
pub enum MediaLot {
    AudioBook,
    Anime,
    Book,
    Podcast,
    Manga,
    Movie,
    Show,
    VideoGame,
    VisualNovel,
}

/// One progress marker of a record: how far the user got, and when.
#[derive(Clone, Debug, PartialEq, Eq)]
pub struct ImportOrExportMetadataItemSeen {
    /// Percentage consumed, where the source tells.
    pub progress: Option<u8>,
    pub started_on: Option<UtcInstant>,
    pub ended_on: Option<UtcInstant>,
}

/// One rating or review of a record.
#[derive(Clone, Debug, PartialEq, Eq)]
pub struct ImportOrExportItemRating {
    /// The rating in hundredths of a percent, where one was given.
    pub rating: Option<u16>,
    pub review: Option<String>,
    pub posted_on: Option<UtcInstant>,
}

/// A media record in the form that is independent of where it came from. It is
/// what adapters hand to the commit processor.
#[derive(Clone, Debug, PartialEq, Eq)]
pub struct ImportOrExportMetadataItem {
    pub lot: MediaLot,
    pub source: MediaSource,
    /// The identifier of the record within `source`.
    pub identifier: String,
    /// How the originating export named the record.
    pub source_id: String,
    pub seen_history: Vec<ImportOrExportMetadataItemSeen>,
    pub reviews: Vec<ImportOrExportItemRating>,
    pub collections: Vec<String>,
}

} // verus!
