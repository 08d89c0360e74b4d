//! Import requests, their shape, and the registry that maps each source to the
//! adapter input it needs.

use crate::media::ImportSource;
use vstd::prelude::*;

verus! {

/// An address and the key that opens it.
#[derive(Clone, Debug, PartialEq, Eq)]
pub struct DeployUrlAndKeyImportInput {
    pub api_url: String,
    pub api_key: String,
}

/// A CSV export.
#[derive(Clone, Debug, PartialEq, Eq)]
pub struct DeployGenericCsvImportInput {
    pub csv_path: String,
}

/// A JSON export.
#[derive(Clone, Debug, PartialEq, Eq)]
pub struct DeployJsonImportInput {
    pub export: String,
}

/// The two list exports of MyAnimeList; either may be left out.
#[derive(Clone, Debug, PartialEq, Eq)]
pub struct DeployMalImportInput {
    pub anime_path: Option<String>,
    pub manga_path: Option<String>,
}

/// An IGDB list export and the collection its entries go to.
#[derive(Clone, Debug, PartialEq, Eq)]
pub struct DeployIgdbImportInput {
    pub csv_path: String,
    pub collection: String,
}

/// The Trakt account to read.
#[derive(Clone, Debug, PartialEq, Eq)]
pub struct DeployTraktImportInput {
    pub username: String,
}

/// The three exports of Movary.
#[derive(Clone, Debug, PartialEq, Eq)]
pub struct DeployMovaryImportInput {
    pub ratings: String,
    pub history: String,
    pub watchlist: String,
}

/// A workout export of the Strong app.
#[derive(Clone, Debug, PartialEq, Eq)]
pub struct DeployStrongAppImportInput {
    pub export_path: String,
}

/// Credentials of a Jellyfin account.
#[derive(Clone, Debug, PartialEq, Eq)]
pub struct DeployJellyfinImportInput {
    pub api_url: String,
    pub username: String,
    pub password: Option<String>,
}

/// The forms that the source-specific part of a request can take.
#[derive(Clone, Copy, Debug, PartialEq, Eq, Hash, Structural)]
pub enum PayloadKind {
    UrlAndKey,
    GenericCsv,
    GenericJson,
    Mal,
    Igdb,
    Trakt,
    Movary,
    StrongApp,
    Jellyfin,
}

/// The source-specific part of a request, tagged with its form.
#[derive(Clone, Debug, PartialEq, Eq)]
pub enum ImportPayload {
    UrlAndKey(DeployUrlAndKeyImportInput),
    GenericCsv(DeployGenericCsvImportInput),
    GenericJson(DeployJsonImportInput),
    Mal(DeployMalImportInput),
    Igdb(DeployIgdbImportInput),
    Trakt(DeployTraktImportInput),
    Movary(DeployMovaryImportInput),
    StrongApp(DeployStrongAppImportInput),
    Jellyfin(DeployJellyfinImportInput),
}

/// An import request as it is submitted: the source, and one slot for each
/// payload form. A request is well shaped when the slot that the source needs
/// is filled and no other is.
#[derive(Clone, Debug, PartialEq, Eq)]
pub struct DeployImportJobInput {
    pub source: ImportSource,
    pub url_and_key: Option<DeployUrlAndKeyImportInput>,
    pub generic_csv: Option<DeployGenericCsvImportInput>,
    pub generic_json: Option<DeployJsonImportInput>,
    pub mal: Option<DeployMalImportInput>,
    pub igdb: Option<DeployIgdbImportInput>,
    pub trakt: Option<DeployTraktImportInput>,
    pub movary: Option<DeployMovaryImportInput>,
    pub strong_app: Option<DeployStrongAppImportInput>,
    pub jellyfin: Option<DeployJellyfinImportInput>,
}

/// The services that an adapter works with besides its payload.
#[derive(Clone, Copy, Debug, PartialEq, Eq, Structural)]
pub struct Collaborators {
    /// The identifier resolution chain over the book catalogs.
    pub book_catalogs: bool,
    /// The movie and show catalog.
    pub screen_catalog: bool,
    /// A way to commit a record while the adapter is still running.
    pub eager_commit: bool,
}

/// A request that has been found well shaped, ready for its adapter.
#[derive(Clone, Debug, PartialEq, Eq)]
pub struct AdapterCall {
    /// The source, which names the adapter.
    pub source: ImportSource,
    pub payload: ImportPayload,
    pub collaborators: Collaborators,
    /// The timezone in which the export's wall-clock readings were taken, for
    /// the adapter that has to normalise them.
    pub timezone: Option<String>,
    /// The importing user, for the adapter that has to know.
    pub user_id: Option<String>,
}

impl AdapterCall {
    /// The call is made as the registry has it for the call's source.
    pub open spec fn fits_registry(self) -> bool {
        &&& self.payload.kind() == required_payload(self.source)
        &&& self.collaborators == required_collaborators(self.source)
        &&& self.timezone is Some <==> takes_timezone(self.source)
        &&& self.user_id is Some <==> takes_user(self.source)
    }
}

/// Why a request was turned away before any work was done.
#[derive(Clone, Copy, Debug, PartialEq, Eq, Structural)]
pub enum RequestShapeError {
    /// The slot that the source needs is empty.
    MissingPayload { source: ImportSource, expected: PayloadKind },
    /// A slot that the source has no use for is filled.
    UnexpectedPayload { source: ImportSource, found: PayloadKind },
}

/// The registry's first column: the payload form that each source's adapter takes.
pub open spec fn required_payload(source: ImportSource) -> PayloadKind {
    match source {
        ImportSource::Audiobookshelf => PayloadKind::UrlAndKey,
        ImportSource::GenericJson => PayloadKind::GenericJson,
        ImportSource::Goodreads => PayloadKind::GenericCsv,
        ImportSource::Igdb => PayloadKind::Igdb,
        ImportSource::Imdb => PayloadKind::GenericCsv,
        ImportSource::Jellyfin => PayloadKind::Jellyfin,
        ImportSource::Mediatracker => PayloadKind::UrlAndKey,
        ImportSource::Movary => PayloadKind::Movary,
        ImportSource::Myanimelist => PayloadKind::Mal,
        ImportSource::OpenScale => PayloadKind::GenericCsv,
        ImportSource::Plex => PayloadKind::UrlAndKey,
        ImportSource::Storygraph => PayloadKind::GenericCsv,
        ImportSource::StrongApp => PayloadKind::StrongApp,
        ImportSource::Trakt => PayloadKind::Trakt,
    }
}

/// The registry's second column: the services that each source's adapter
/// works with.
pub open spec fn required_collaborators(source: ImportSource) -> Collaborators {
    Collaborators {
        book_catalogs: source == ImportSource::Goodreads || source == ImportSource::Storygraph
            || source == ImportSource::Audiobookshelf,
        screen_catalog: source == ImportSource::Imdb,
        eager_commit: source == ImportSource::Audiobookshelf,
    }
}

/// The registry's third column: whether the source's adapter is given the
/// timezone.
pub open spec fn takes_timezone(source: ImportSource) -> bool {
    source == ImportSource::OpenScale
}

/// The registry's fourth column: whether the source's adapter is given the
/// importing user.
pub open spec fn takes_user(source: ImportSource) -> bool {
    source == ImportSource::StrongApp
}

impl ImportSource {
    /// The payload form that this source's adapter takes.
    pub fn payload_kind(&self) -> (kind: PayloadKind)
        ensures
            kind == required_payload(*self),
    {
        match self {
            ImportSource::Audiobookshelf | ImportSource::Mediatracker | ImportSource::Plex => {
                PayloadKind::UrlAndKey
            },
            ImportSource::Goodreads
            | ImportSource::Imdb
            | ImportSource::OpenScale
            | ImportSource::Storygraph => PayloadKind::GenericCsv,
            ImportSource::GenericJson => PayloadKind::GenericJson,
            ImportSource::Igdb => PayloadKind::Igdb,
            ImportSource::Jellyfin => PayloadKind::Jellyfin,
            ImportSource::Movary => PayloadKind::Movary,
            ImportSource::Myanimelist => PayloadKind::Mal,
            ImportSource::StrongApp => PayloadKind::StrongApp,
            ImportSource::Trakt => PayloadKind::Trakt,
        }
    }

    /// The services that this source's adapter works with.
    pub fn collaborators(&self) -> (needs: Collaborators)
        ensures
            needs == required_collaborators(*self),
    {
        let books = match self {
            ImportSource::Goodreads | ImportSource::Storygraph | ImportSource::Audiobookshelf => true,
            _ => false,
        };
        Collaborators {
            book_catalogs: books,
            screen_catalog: matches!(self, ImportSource::Imdb),
            eager_commit: matches!(self, ImportSource::Audiobookshelf),
        }
    }
}

impl PayloadKind {
    /// The position of this form in the order in which slots are examined.
    pub open spec fn rank(self) -> int {
        match self {
            PayloadKind::UrlAndKey => 0,
            PayloadKind::GenericCsv => 1,
            PayloadKind::GenericJson => 2,
            PayloadKind::Mal => 3,
            PayloadKind::Igdb => 4,
            PayloadKind::Trakt => 5,
            PayloadKind::Movary => 6,
            PayloadKind::StrongApp => 7,
            PayloadKind::Jellyfin => 8,
        }
    }

    /// The form at position `rank` of the slot order.
    fn from_rank(rank: u8) -> (kind: PayloadKind)
        requires
            rank < 9,
        ensures
            kind.rank() == rank,
    {
        if rank == 0 {
            PayloadKind::UrlAndKey
        } else if rank == 1 {
            PayloadKind::GenericCsv
        } else if rank == 2 {
            PayloadKind::GenericJson
        } else if rank == 3 {
            PayloadKind::Mal
        } else if rank == 4 {
            PayloadKind::Igdb
        } else if rank == 5 {
            PayloadKind::Trakt
        } else if rank == 6 {
            PayloadKind::Movary
        } else if rank == 7 {
            PayloadKind::StrongApp
        } else {
            PayloadKind::Jellyfin
        }
    }
}

impl ImportPayload {
    /// The form of this payload.
    pub open spec fn kind(self) -> PayloadKind {
        match self {
            ImportPayload::UrlAndKey(_) => PayloadKind::UrlAndKey,
            ImportPayload::GenericCsv(_) => PayloadKind::GenericCsv,
            ImportPayload::GenericJson(_) => PayloadKind::GenericJson,
            ImportPayload::Mal(_) => PayloadKind::Mal,
            ImportPayload::Igdb(_) => PayloadKind::Igdb,
            ImportPayload::Trakt(_) => PayloadKind::Trakt,
            ImportPayload::Movary(_) => PayloadKind::Movary,
            ImportPayload::StrongApp(_) => PayloadKind::StrongApp,
            ImportPayload::Jellyfin(_) => PayloadKind::Jellyfin,
        }
    }
}

impl DeployImportJobInput {
    /// What the slot for `kind` holds, tagged.
    pub open spec fn payload(self, kind: PayloadKind) -> Option<ImportPayload> {
        match kind {
            PayloadKind::UrlAndKey => match self.url_and_key {
                Some(p) => Some(ImportPayload::UrlAndKey(p)),
                None => None,
            },
            PayloadKind::GenericCsv => match self.generic_csv {
                Some(p) => Some(ImportPayload::GenericCsv(p)),
                None => None,
            },
            PayloadKind::GenericJson => match self.generic_json {
                Some(p) => Some(ImportPayload::GenericJson(p)),
                None => None,
            },
            PayloadKind::Mal => match self.mal {
                Some(p) => Some(ImportPayload::Mal(p)),
                None => None,
            },
            PayloadKind::Igdb => match self.igdb {
                Some(p) => Some(ImportPayload::Igdb(p)),
                None => None,
            },
            PayloadKind::Trakt => match self.trakt {
                Some(p) => Some(ImportPayload::Trakt(p)),
                None => None,
            },
            PayloadKind::Movary => match self.movary {
                Some(p) => Some(ImportPayload::Movary(p)),
                None => None,
            },
            PayloadKind::StrongApp => match self.strong_app {
                Some(p) => Some(ImportPayload::StrongApp(p)),
                None => None,
            },
            PayloadKind::Jellyfin => match self.jellyfin {
                Some(p) => Some(ImportPayload::Jellyfin(p)),
                None => None,
            },
        }
    }

    /// Whether the slot for `kind` is filled.
    pub open spec fn populated(self, kind: PayloadKind) -> bool {
        self.payload(kind) is Some
    }

    /// Whether `kind` is filled although the source has no use for it.
    pub open spec fn stray(self, kind: PayloadKind) -> bool {
        self.populated(kind) && kind != required_payload(self.source)
    }

    /// The request carries the payload that its source needs, and no other.
    pub open spec fn well_shaped(self) -> bool {
        forall|kind: PayloadKind| #[trigger]
            self.populated(kind) <==> kind == required_payload(self.source)
    }

    /// What the adapter of a well shaped request is called with, where
    /// `user_id` submitted the request and `timezone` is the one configured.
    pub open spec fn dispatched(self, user_id: String, timezone: String) -> AdapterCall {
        AdapterCall {
            source: self.source,
            payload: self.payload(required_payload(self.source)).unwrap(),
            collaborators: required_collaborators(self.source),
            timezone: if takes_timezone(self.source) {
                Some(timezone)
            } else {
                None
            },
            user_id: if takes_user(self.source) {
                Some(user_id)
            } else {
                None
            },
        }
    }

    /// Whether `error` is the complaint that this request earns: the missing
    /// payload if the needed slot is empty, otherwise the first stray one in
    /// slot order.
    pub open spec fn rejected_with(self, error: RequestShapeError) -> bool {
        match error {
            RequestShapeError::MissingPayload { source, expected } => {
                &&& source == self.source
                &&& expected == required_payload(self.source)
                &&& !self.populated(expected)
            },
            RequestShapeError::UnexpectedPayload { source, found } => {
                &&& source == self.source
                &&& self.populated(required_payload(self.source))
                &&& self.stray(found)
                &&& forall|kind: PayloadKind| #[trigger] self.stray(kind) ==> found.rank() <= kind.rank()
            },
        }
    }

    /// Whether the slot for `kind` is filled.
    pub fn has_payload(&self, kind: PayloadKind) -> (filled: bool)
        ensures
            filled == self.populated(kind),
    {
        match kind {
            PayloadKind::UrlAndKey => self.url_and_key.is_some(),
            PayloadKind::GenericCsv => self.generic_csv.is_some(),
            PayloadKind::GenericJson => self.generic_json.is_some(),
            PayloadKind::Mal => self.mal.is_some(),
            PayloadKind::Igdb => self.igdb.is_some(),
            PayloadKind::Trakt => self.trakt.is_some(),
            PayloadKind::Movary => self.movary.is_some(),
            PayloadKind::StrongApp => self.strong_app.is_some(),
            PayloadKind::Jellyfin => self.jellyfin.is_some(),
        }
    }

    /// The first filled slot, in slot order, that the source has no use for.
    fn first_stray(&self) -> (found: Option<PayloadKind>)
        ensures
            match found {
                Some(kind) => self.stray(kind) && forall|other: PayloadKind| #[trigger]
                    self.stray(other) ==> kind.rank() <= other.rank(),
                None => forall|other: PayloadKind| !#[trigger] self.stray(other),
            },
    {
        let expected = self.source.payload_kind();
        let mut rank: u8 = 0;
        while rank < 9
            invariant
                rank <= 9,
                expected == required_payload(self.source),
                forall|other: PayloadKind| #[trigger] self.stray(other) ==> rank <= other.rank(),
            decreases 9 - rank,
        {
            let kind = PayloadKind::from_rank(rank);
            if kind != expected && self.has_payload(kind) {
                return Some(kind);
            }
            rank = rank + 1;
        }
        None
    }

    /// Takes the payload out of the slot for `kind`.
    fn take_payload(self, kind: PayloadKind) -> (payload: ImportPayload)
        requires
            self.populated(kind),
        ensures
            Some(payload) == self.payload(kind),
    {
        match kind {
            PayloadKind::UrlAndKey => ImportPayload::UrlAndKey(self.url_and_key.unwrap()),
            PayloadKind::GenericCsv => ImportPayload::GenericCsv(self.generic_csv.unwrap()),
            PayloadKind::GenericJson => ImportPayload::GenericJson(self.generic_json.unwrap()),
            PayloadKind::Mal => ImportPayload::Mal(self.mal.unwrap()),
            PayloadKind::Igdb => ImportPayload::Igdb(self.igdb.unwrap()),
            PayloadKind::Trakt => ImportPayload::Trakt(self.trakt.unwrap()),
            PayloadKind::Movary => ImportPayload::Movary(self.movary.unwrap()),
            PayloadKind::StrongApp => ImportPayload::StrongApp(self.strong_app.unwrap()),
            PayloadKind::Jellyfin => ImportPayload::Jellyfin(self.jellyfin.unwrap()),
        }
    }

    /// Checks the shape of the request without consuming it.
    pub fn check_shape(&self) -> (r: Result<(), RequestShapeError>)
        ensures
            r is Ok <==> self.well_shaped(),
            r matches Err(error) ==> self.rejected_with(error),
    {
        let expected = self.source.payload_kind();
        if !self.has_payload(expected) {
            return Err(RequestShapeError::MissingPayload { source: self.source, expected });
        }
        match self.first_stray() {
            Some(found) => {
                Err(RequestShapeError::UnexpectedPayload { source: self.source, found })
            },
            None => {
                assert forall|kind: PayloadKind| #[trigger]
                    self.populated(kind) <==> kind == required_payload(self.source) by {
                    assert(!self.stray(kind));
                }
                Ok(())
            },
        }
    }
}

/// Dispatches a request: picks, by the request's source, the adapter and what
/// it is to be called with, or turns the request away where its payload does
/// not fit the source.
pub fn select_adapter(input: DeployImportJobInput, user_id: &String, timezone: &String) -> (r:
    Result<AdapterCall, RequestShapeError>)
    ensures
        r is Ok <==> input.well_shaped(),
        r matches Ok(call) ==> call == input.dispatched(*user_id, *timezone),
        r matches Err(error) ==> input.rejected_with(error),
{
    match input.check_shape() {
        Err(error) => Err(error),
        Ok(()) => {
            let source = input.source;
            let kind = source.payload_kind();
            assert(input.populated(kind));
            let payload = input.take_payload(kind);
            let timezone = match source {
                ImportSource::OpenScale => Some(timezone.clone()),
                _ => None,
            };
            let user_id = match source {
                ImportSource::StrongApp => Some(user_id.clone()),
                _ => None,
            };
            Ok(
                AdapterCall {
                    source,
                    payload,
                    collaborators: source.collaborators(),
                    timezone,
                    user_id,
                },
            )
        },
    }
}

/// Every source has its adapter: a well shaped request, whatever its source,
/// is dispatched with the payload form and the collaborators that the registry
/// has for that source.
pub proof fn lemma_dispatch_is_total(input: DeployImportJobInput, user_id: String, timezone: String)
    requires
        input.well_shaped(),
    ensures
        input.dispatched(user_id, timezone).fits_registry(),
        input.dispatched(user_id, timezone).source == input.source,
{
    assert(input.populated(required_payload(input.source)));
}

/// A request is turned away with at most one complaint, and with none exactly
/// when it is well shaped.
pub proof fn lemma_rejection_is_unique(
    input: DeployImportJobInput,
    first: RequestShapeError,
    second: RequestShapeError,
)
    requires
        input.rejected_with(first),
        input.rejected_with(second),
    ensures
        first == second,
        !input.well_shaped(),
{
    match (first, second) {
        (
            RequestShapeError::UnexpectedPayload { found: a, .. },
            RequestShapeError::UnexpectedPayload { found: b, .. },
        ) => {
            assert(input.stray(a) && input.stray(b));
            assert(a.rank() == b.rank());
        },
        _ => {},
    }
    match first {
        RequestShapeError::MissingPayload { expected, .. } => {
            assert(!input.populated(expected));
        },
        RequestShapeError::UnexpectedPayload { found, .. } => {
            assert(input.populated(found));
        },
    }
}

} // verus!
