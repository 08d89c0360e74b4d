//! The report of an import job: what was counted, what failed, and how the
//! record of one job changes over the job's life.

use crate::media::{ImportSource, MediaLot};
use crate::time::UtcInstant;
use vstd::prelude::*;

verus! {

/// The step at which an item fell out of an import.
#[derive(Clone, Copy, Debug, PartialEq, Eq, Hash, Structural)]
pub enum ImportFailStep {
    /// The source itself gave no details for the item.
    ItemDetailsFromSource,
    /// The item could not be brought into the common form.
    InputTransformation,
    /// The catalog that the item belongs to gave no details for it.
    MediaDetailsFromProvider,
    /// The item could not be stored.
    DatabaseCommit,
}

/// One item that fell out of an import, while the rest of the batch went on.
#[derive(Clone, Debug, PartialEq, Eq)]
pub struct ImportFailedItem {
    pub lot: Option<MediaLot>,
    pub step: ImportFailStep,
    pub identifier: String,
    pub error: Option<String>,
}

/// How many items of each kind of media were imported.
#[derive(Clone, Copy, Debug, PartialEq, Eq, Structural)]
pub struct MediaCounts {
    pub audio_book: u64,
    pub anime: u64,
    pub book: u64,
    pub podcast: u64,
    pub manga: u64,
    pub movie: u64,
    pub show: u64,
    pub video_game: u64,
    pub visual_novel: u64,
}

impl MediaCounts {
    /// The count for one kind of media.
    pub open spec fn count(self, lot: MediaLot) -> nat {
        match lot {
            MediaLot::AudioBook => self.audio_book as nat,
            MediaLot::Anime => self.anime as nat,
            MediaLot::Book => self.book as nat,
            MediaLot::Podcast => self.podcast as nat,
            MediaLot::Manga => self.manga as nat,
            MediaLot::Movie => self.movie as nat,
            MediaLot::Show => self.show as nat,
            MediaLot::VideoGame => self.video_game as nat,
            MediaLot::VisualNovel => self.visual_novel as nat,
        }
    }

    /// The count over all kinds of media.
    pub open spec fn total(self) -> nat {
        (self.audio_book + self.anime + self.book + self.podcast + self.manga + self.movie
            + self.show + self.video_game + self.visual_novel) as nat
    }

    /// These counts with the one for `lot` replaced.
    pub open spec fn with_count(self, lot: MediaLot, n: u64) -> MediaCounts {
        match lot {
            MediaLot::AudioBook => MediaCounts { audio_book: n, ..self },
            MediaLot::Anime => MediaCounts { anime: n, ..self },
            MediaLot::Book => MediaCounts { book: n, ..self },
            MediaLot::Podcast => MediaCounts { podcast: n, ..self },
            MediaLot::Manga => MediaCounts { manga: n, ..self },
            MediaLot::Movie => MediaCounts { movie: n, ..self },
            MediaLot::Show => MediaCounts { show: n, ..self },
            MediaLot::VideoGame => MediaCounts { video_game: n, ..self },
            MediaLot::VisualNovel => MediaCounts { visual_novel: n, ..self },
        }
    }

    /// Counts of nothing.
    pub fn new() -> (counts: MediaCounts)
        ensures
            counts.total() == 0,
            forall|lot: MediaLot| #[trigger] counts.count(lot) == 0,
    {
        MediaCounts {
            audio_book: 0,
            anime: 0,
            book: 0,
            podcast: 0,
            manga: 0,
            movie: 0,
            show: 0,
            video_game: 0,
            visual_novel: 0,
        }
    }

    /// The count for one kind of media.
    pub fn get(&self, lot: MediaLot) -> (n: u64)
        ensures
            n == self.count(lot),
    {
        match lot {
            MediaLot::AudioBook => self.audio_book,
            MediaLot::Anime => self.anime,
            MediaLot::Book => self.book,
            MediaLot::Podcast => self.podcast,
            MediaLot::Manga => self.manga,
            MediaLot::Movie => self.movie,
            MediaLot::Show => self.show,
            MediaLot::VideoGame => self.video_game,
            MediaLot::VisualNovel => self.visual_novel,
        }
    }

    /// Counts one more item of `lot`. Where that counter is full nothing
    /// changes, and the answer is `false`.
    pub fn record(&mut self, lot: MediaLot) -> (recorded: bool)
        ensures
            recorded == (old(self).count(lot) < u64::MAX),
            recorded ==> *final(self) == old(self).with_count(
                lot,
                (old(self).count(lot) + 1) as u64,
            ),
            recorded ==> final(self).total() == old(self).total() + 1,
            !recorded ==> *final(self) == *old(self),
    {
        let n = self.get(lot);
        if n == u64::MAX {
            return false;
        }
        let n = n + 1;
        match lot {
            MediaLot::AudioBook => self.audio_book = n,
            MediaLot::Anime => self.anime = n,
            MediaLot::Book => self.book = n,
            MediaLot::Podcast => self.podcast = n,
            MediaLot::Manga => self.manga = n,
            MediaLot::Movie => self.movie = n,
            MediaLot::Show => self.show = n,
            MediaLot::VideoGame => self.video_game = n,
            MediaLot::VisualNovel => self.visual_novel = n,
        }
        true
    }

    /// The count over all kinds of media.
    pub fn sum(&self) -> (n: u128)
        ensures
            n == self.total(),
    {
        let mut n: u128 = self.audio_book as u128;
        n = n + self.anime as u128;
        n = n + self.book as u128;
        n = n + self.podcast as u128;
        n = n + self.manga as u128;
        n = n + self.movie as u128;
        n = n + self.show as u128;
        n = n + self.video_game as u128;
        n = n + self.visual_novel as u128;
        n
    }
}

/// What the body of a report holds, as a value.
pub struct ImportResultDetailsView {
    /// How many items went through.
    pub imported: nat,
    /// The items that fell out, in the order in which they were recorded.
    pub failed_items: Seq<ImportFailedItem>,
}

/// The body of a report: how many items went through, and each item that did
/// not. It only grows: a failure, once recorded, stays as it is and where it is.
#[derive(Clone, Debug, PartialEq, Eq)]
pub struct ImportResultDetails {
    imported: usize,
    failed_items: Vec<ImportFailedItem>,
}

impl View for ImportResultDetails {
    type V = ImportResultDetailsView;

    closed spec fn view(&self) -> ImportResultDetailsView {
        ImportResultDetailsView {
            imported: self.imported as nat,
            failed_items: self.failed_items@,
        }
    }
}

impl ImportResultDetails {
    /// A body with nothing in it.
    pub fn new() -> (details: ImportResultDetails)
        ensures
            details@.imported == 0,
            details@.failed_items == Seq::<ImportFailedItem>::empty(),
    {
        ImportResultDetails { imported: 0, failed_items: Vec::new() }
    }

    /// A body with the given contents.
    pub fn from_parts(imported: usize, failed_items: Vec<ImportFailedItem>) -> (details:
        ImportResultDetails)
        ensures
            details@.imported == imported,
            details@.failed_items == failed_items@,
    {
        ImportResultDetails { imported, failed_items }
    }

    /// How many items went through.
    pub fn imported(&self) -> (n: usize)
        ensures
            n == self@.imported,
    {
        self.imported
    }

    /// How many items fell out.
    pub fn failed(&self) -> (n: usize)
        ensures
            n == self@.failed_items.len(),
    {
        self.failed_items.len()
    }

    /// The items that fell out, in the order in which they were recorded.
    pub fn failed_items(&self) -> (items: &Vec<ImportFailedItem>)
        ensures
            items@ == self@.failed_items,
    {
        &self.failed_items
    }

    /// Counts one more item as having gone through. Where the counter is full
    /// nothing changes, and the answer is `false`.
    pub fn record_imported(&mut self) -> (recorded: bool)
        ensures
            recorded == (old(self)@.imported < usize::MAX),
            final(self)@.imported == old(self)@.imported + if recorded { 1nat } else { 0nat },
            final(self)@.failed_items == old(self)@.failed_items,
    {
        if self.imported == usize::MAX {
            return false;
        }
        self.imported = self.imported + 1;
        true
    }

    /// Records an item that fell out, after those recorded before.
    pub fn record_failure(&mut self, item: ImportFailedItem)
        ensures
            final(self)@.failed_items == old(self)@.failed_items.push(item),
            final(self)@.imported == old(self)@.imported,
    {
        self.failed_items.push(item);
    }
}

/// The record of one import job.
///
/// It is created when the job starts, with no outcome; its progress is
/// overwritten as the job advances; and it is finalised once, when the job
/// ends, by setting `finished_on` and `was_success` together.
#[derive(Clone, Debug, PartialEq, Eq)]
pub struct ImportReport {
    pub id: String,
    pub user_id: String,
    pub source: ImportSource,
    /// The last percentage that was reported.
    pub progress: Option<u8>,
    pub started_on: UtcInstant,
    /// Absent while the job runs.
    pub finished_on: Option<UtcInstant>,
    /// Absent while the job runs.
    pub was_success: Option<bool>,
    /// What was imported, by kind of media; present only after a success.
    pub source_result: Option<MediaCounts>,
    /// The body of the report; present only after a success.
    pub details: Option<ImportResultDetails>,
}

impl ImportReport {
    /// The job that this report belongs to has not ended.
    pub open spec fn is_running(self) -> bool {
        &&& self.finished_on is None
        &&& self.was_success is None
        &&& self.source_result is None
        &&& self.details is None
    }

    /// The job ended without a result.
    pub open spec fn is_failure(self) -> bool {
        &&& self.finished_on is Some
        &&& self.was_success == Some(false)
        &&& self.source_result is None
        &&& self.details is None
    }

    /// The job ended with a result, which may list items that fell out.
    pub open spec fn is_success(self) -> bool {
        &&& self.finished_on is Some
        &&& self.was_success == Some(true)
        &&& self.source_result is Some
        &&& self.details is Some
    }

    /// The report is in one of the three states that a report goes through.
    pub open spec fn wf(self) -> bool {
        self.is_running() || self.is_failure() || self.is_success()
    }

    /// The report of a job that has just started.
    pub open spec fn created(
        id: String,
        user_id: String,
        source: ImportSource,
        started_on: UtcInstant,
    ) -> ImportReport {
        ImportReport {
            id,
            user_id,
            source,
            progress: Some(0u8),
            started_on,
            finished_on: None,
            was_success: None,
            source_result: None,
            details: None,
        }
    }

    /// This report with its progress overwritten.
    pub open spec fn with_progress(self, progress: u8) -> ImportReport {
        ImportReport { progress: Some(progress), ..self }
    }

    /// This report finalised as a failure. A report that has been finalised
    /// stays as it is.
    pub open spec fn failed(self, now: UtcInstant) -> ImportReport {
        if self.finished_on is Some {
            self
        } else {
            ImportReport {
                finished_on: Some(now),
                was_success: Some(false),
                source_result: None,
                details: None,
                ..self
            }
        }
    }

    /// This report finalised as a success. A report that has been finalised
    /// stays as it is.
    pub open spec fn succeeded(
        self,
        counts: MediaCounts,
        details: ImportResultDetails,
        now: UtcInstant,
    ) -> ImportReport {
        if self.finished_on is Some {
            self
        } else {
            ImportReport {
                finished_on: Some(now),
                was_success: Some(true),
                source_result: Some(counts),
                details: Some(details),
                ..self
            }
        }
    }

    /// The report of a job that has just started: no outcome, progress zero.
    pub fn new(id: String, user_id: String, source: ImportSource, started_on: UtcInstant) -> (report:
        ImportReport)
        ensures
            report == ImportReport::created(id, user_id, source, started_on),
            report.is_running(),
    {
        ImportReport {
            id,
            user_id,
            source,
            progress: Some(0),
            started_on,
            finished_on: None,
            was_success: None,
            source_result: None,
            details: None,
        }
    }

    /// Overwrites the progress with whatever percentage is given.
    pub fn set_progress(&mut self, progress: u8)
        ensures
            *final(self) == old(self).with_progress(progress),
    {
        self.progress = Some(progress);
    }

    /// Finalises the report as a failure, unless it has been finalised before.
    pub fn finalize_failure(self, now: UtcInstant) -> (report: ImportReport)
        ensures
            report == self.failed(now),
            self.is_running() ==> report.is_failure() && report.finished_on == Some(now),
    {
        if self.finished_on.is_some() {
            return self;
        }
        ImportReport {
            finished_on: Some(now),
            was_success: Some(false),
            source_result: None,
            details: None,
            ..self
        }
    }

    /// Finalises the report as a success, unless it has been finalised before.
    pub fn finalize_success(
        self,
        counts: MediaCounts,
        details: ImportResultDetails,
        now: UtcInstant,
    ) -> (report: ImportReport)
        ensures
            report == self.succeeded(counts, details, now),
            self.is_running() ==> report.is_success() && report.finished_on == Some(now),
    {
        if self.finished_on.is_some() {
            return self;
        }
        ImportReport {
            finished_on: Some(now),
            was_success: Some(true),
            source_result: Some(counts),
            details: Some(details),
            ..self
        }
    }
}

/// The rows that belong to the user `user_id`, in the order in which they stand.
pub open spec fn reports_of(rows: Seq<ImportReport>, user_id: Seq<char>) -> Seq<ImportReport>
    decreases rows.len(),
{
    if rows.len() == 0 {
        Seq::empty()
    } else if rows.last().user_id@ == user_id {
        reports_of(rows.drop_last(), user_id).push(rows.last())
    } else {
        reports_of(rows.drop_last(), user_id)
    }
}

/// Where a report that started at `at` goes in `sorted`: behind every report
/// that started no earlier, and so before the first that started earlier.
pub open spec fn slot(sorted: Seq<ImportReport>, at: UtcInstant) -> int
    decreases sorted.len(),
{
    if sorted.len() == 0 || at.later_than(sorted[0].started_on) {
        0
    } else {
        1 + slot(sorted.drop_first(), at)
    }
}

/// The rows ordered by start, the latest first; rows that started at the same
/// instant keep the order in which they stand in `rows`.
pub open spec fn newest_first(rows: Seq<ImportReport>) -> Seq<ImportReport>
    decreases rows.len(),
{
    if rows.len() == 0 {
        Seq::empty()
    } else {
        let sorted = newest_first(rows.drop_last());
        sorted.insert(slot(sorted, rows.last().started_on), rows.last())
    }
}

/// No row started after a row that stands before it.
pub open spec fn descending(rows: Seq<ImportReport>) -> bool {
    forall|i: int, j: int|
        0 <= i < j < rows.len() ==> !(#[trigger] rows[j]).started_on.later_than(
            (#[trigger] rows[i]).started_on,
        )
}

proof fn lemma_slot(sorted: Seq<ImportReport>, at: UtcInstant)
    ensures
        0 <= slot(sorted, at) <= sorted.len(),
        forall|i: int| 0 <= i < slot(sorted, at) ==> !at.later_than((#[trigger] sorted[i]).started_on),
        slot(sorted, at) < sorted.len() ==> at.later_than(sorted[slot(sorted, at)].started_on),
    decreases sorted.len(),
{
    if sorted.len() == 0 || at.later_than(sorted[0].started_on) {
    } else {
        let rest = sorted.drop_first();
        lemma_slot(rest, at);
        assert forall|i: int| 0 <= i < slot(sorted, at) implies !at.later_than(
            (#[trigger] sorted[i]).started_on,
        ) by {
            if i > 0 {
                assert(sorted[i] == rest[i - 1]);
            }
        }
    }
}

proof fn lemma_insert_keeps_descending(sorted: Seq<ImportReport>, row: ImportReport)
    requires
        descending(sorted),
    ensures
        descending(sorted.insert(slot(sorted, row.started_on), row)),
{
    let at = row.started_on;
    let k = slot(sorted, at);
    lemma_slot(sorted, at);
    let out = sorted.insert(k, row);
    assert forall|i: int, j: int| 0 <= i < j < out.len() implies !(#[trigger] out[j]).started_on.later_than(
        (#[trigger] out[i]).started_on,
    ) by {
        if j == k {
            assert(out[i] == sorted[i]);
        } else if i == k {
            assert(out[j] == sorted[j - 1]);
            assert(at.later_than(sorted[k].started_on));
            if j - 1 > k {
                assert(!sorted[j - 1].started_on.later_than(sorted[k].started_on));
            }
        } else {
            let si = if i < k { i } else { i - 1 };
            let sj = if j < k { j } else { j - 1 };
            assert(out[i] == sorted[si]);
            assert(out[j] == sorted[sj]);
        }
    }
}

/// Ordering by start puts no row after one that started earlier, and neither
/// adds nor loses a row.
pub proof fn lemma_newest_first(rows: Seq<ImportReport>)
    ensures
        descending(newest_first(rows)),
        newest_first(rows).to_multiset() == rows.to_multiset(),
        newest_first(rows).len() == rows.len(),
    decreases rows.len(),
{
    broadcast use {vstd::seq_lib::to_multiset_insert, vstd::seq_lib::to_multiset_build};

    if rows.len() == 0 {
        assert(rows =~= Seq::<ImportReport>::empty());
    } else {
        let front = rows.drop_last();
        let sorted = newest_first(front);
        lemma_newest_first(front);
        lemma_slot(sorted, rows.last().started_on);
        lemma_insert_keeps_descending(sorted, rows.last());
        assert(rows =~= front.push(rows.last()));
    }
}

/// The rows of one user are exactly those given for that user, each as
/// often as it was given.
pub proof fn lemma_reports_of(rows: Seq<ImportReport>, user_id: Seq<char>, row: ImportReport)
    ensures
        reports_of(rows, user_id).to_multiset().count(row) == if row.user_id@ == user_id {
            rows.to_multiset().count(row)
        } else {
            0
        },
    decreases rows.len(),
{
    broadcast use vstd::seq_lib::to_multiset_build;

    if rows.len() == 0 {
        rows.to_multiset_ensures();
        reports_of(rows, user_id).to_multiset_ensures();
    } else {
        let front = rows.drop_last();
        lemma_reports_of(front, user_id, row);
        assert(rows =~= front.push(rows.last()));
    }
}

/// What `import_reports` answers holds exactly the rows of the user asked for,
/// each as often as it was given, and none of them stands behind a row that
/// started earlier.
pub proof fn lemma_reports_of_user_newest_first(rows: Seq<ImportReport>, user_id: Seq<char>)
    ensures
        descending(newest_first(reports_of(rows, user_id))),
        forall|row: ImportReport|
            #![trigger newest_first(reports_of(rows, user_id)).to_multiset().count(row)]
            newest_first(reports_of(rows, user_id)).to_multiset().count(row) == if row.user_id@
                == user_id {
                rows.to_multiset().count(row)
            } else {
                0
            },
{
    lemma_newest_first(reports_of(rows, user_id));
    assert forall|row: ImportReport|
        #![trigger reports_of(rows, user_id).to_multiset().count(row)]
        reports_of(rows, user_id).to_multiset().count(row) == if row.user_id@ == user_id {
            rows.to_multiset().count(row)
        } else {
            0
        } by {
        lemma_reports_of(rows, user_id, row);
    }
}

/// The index at which a report that started at `at` goes into `sorted`.
fn find_slot(sorted: &Vec<ImportReport>, at: UtcInstant) -> (i: usize)
    ensures
        i == slot(sorted@, at),
        i <= sorted.len(),
{
    let mut i: usize = 0;
    proof {
        assert(sorted@.subrange(0, sorted.len() as int) =~= sorted@);
    }
    while i < sorted.len() && !at.is_later_than(&sorted[i].started_on)
        invariant
            i <= sorted.len(),
            slot(sorted@, at) == i + slot(sorted@.subrange(i as int, sorted.len() as int), at),
        decreases sorted.len() - i,
    {
        proof {
            let rest = sorted@.subrange(i as int, sorted.len() as int);
            assert(rest.drop_first() =~= sorted@.subrange(i + 1, sorted.len() as int));
        }
        i = i + 1;
    }
    i
}

/// The reports of one user, the latest started first. Reports that started at
/// the same instant keep the order in which they were given.
pub fn reports_for_user(rows: Vec<ImportReport>, user_id: &String) -> (out: Vec<ImportReport>)
    ensures
        out@ == newest_first(reports_of(rows@, user_id@)),
{
    let ghost all = rows@;
    let mut rest = rows;
    let mut out: Vec<ImportReport> = Vec::new();
    proof {
        assert(all.subrange(0, 0) =~= Seq::<ImportReport>::empty());
    }
    while rest.len() > 0
        invariant
            rest@.len() <= all.len(),
            rest@ == all.subrange(all.len() - rest@.len(), all.len() as int),
            out@ == newest_first(reports_of(all.subrange(0, all.len() - rest@.len()), user_id@)),
        decreases rest.len(),
    {
        let ghost done = all.len() - rest@.len();
        let row = rest.remove(0);
        proof {
            let before = all.subrange(0, done);
            assert(row == all[done]);
            assert(all.subrange(0, done + 1).drop_last() =~= before);
            assert(all.subrange(0, done + 1).last() == row);
            assert(rest@ =~= all.subrange(done + 1, all.len() as int));
            if row.user_id@ == user_id@ {
                assert(reports_of(before, user_id@).push(row).drop_last() =~= reports_of(
                    before,
                    user_id@,
                ));
            }
        }
        if row.user_id == *user_id {
            let at = find_slot(&out, row.started_on);
            out.insert(at, row);
        }
    }
    proof {
        assert(all.subrange(0, all.len() as int) =~= all);
    }
    out
}

} // verus!
