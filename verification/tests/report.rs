use importer_service::media::{ImportSource, MediaLot};
use importer_service::report::{
    reports_for_user, ImportFailStep, ImportFailedItem, ImportReport, ImportResultDetails,
    MediaCounts,
};
use importer_service::time::UtcInstant;

const ALL_LOTS: [MediaLot; 9] = [
    MediaLot::AudioBook,
    MediaLot::Anime,
    MediaLot::Book,
    MediaLot::Podcast,
    MediaLot::Manga,
    MediaLot::Movie,
    MediaLot::Show,
    MediaLot::VideoGame,
    MediaLot::VisualNovel,
];

fn at(secs: i64) -> UtcInstant {
    UtcInstant { secs, nanos: 0 }
}

fn row(id: &str, user: &str, started: i64) -> ImportReport {
    ImportReport::new(id.to_string(), user.to_string(), ImportSource::Goodreads, at(started))
}

fn ids(rows: &[ImportReport]) -> Vec<String> {
    rows.iter().map(|r| r.id.clone()).collect()
}

fn failure(identifier: &str) -> ImportFailedItem {
    ImportFailedItem {
        lot: Some(MediaLot::Book),
        step: ImportFailStep::DatabaseCommit,
        identifier: identifier.to_string(),
        error: Some("row rejected".to_string()),
    }
}

#[test]
fn new_report_has_progress_zero_and_no_outcome() {
    let report = row("r1", "ana", 100);
    assert_eq!(
        report,
        ImportReport {
            id: "r1".to_string(),
            user_id: "ana".to_string(),
            source: ImportSource::Goodreads,
            progress: Some(0),
            started_on: at(100),
            finished_on: None,
            was_success: None,
            source_result: None,
            details: None,
        }
    );
}

#[test]
fn progress_is_overwritten_with_any_value() {
    let mut report = row("r1", "ana", 100);
    for value in [40u8, 90, 10, 255, 0] {
        report.set_progress(value);
        assert_eq!(report.progress, Some(value));
    }
    assert_eq!(report.finished_on, None);
    assert_eq!(report.id, "r1");
}

#[test]
fn failure_sets_end_and_outcome_and_no_result() {
    let mut running = row("r1", "ana", 100);
    running.set_progress(35);
    let report = running.clone().finalize_failure(at(160));
    assert_eq!(report.finished_on, Some(at(160)));
    assert_eq!(report.was_success, Some(false));
    assert_eq!(report.source_result, None);
    assert_eq!(report.details, None);
    assert_eq!(
        report,
        ImportReport { finished_on: Some(at(160)), was_success: Some(false), ..running }
    );
}

#[test]
fn success_sets_end_outcome_and_result() {
    let running = row("r1", "ana", 100);
    let mut counts = MediaCounts::new();
    assert!(counts.record(MediaLot::Book));
    let mut details = ImportResultDetails::new();
    assert!(details.record_imported());
    details.record_failure(failure("bad"));
    let report = running.clone().finalize_success(counts, details.clone(), at(200));
    assert_eq!(
        report,
        ImportReport {
            finished_on: Some(at(200)),
            was_success: Some(true),
            source_result: Some(counts),
            details: Some(details),
            ..running
        }
    );
}

#[test]
fn report_is_finalised_only_once() {
    let failed = row("r1", "ana", 100).finalize_failure(at(160));
    assert_eq!(failed.clone().finalize_failure(at(999)), failed);
    assert_eq!(
        failed.clone().finalize_success(MediaCounts::new(), ImportResultDetails::new(), at(999)),
        failed
    );
    let done = row("r2", "ana", 100).finalize_success(
        MediaCounts::new(),
        ImportResultDetails::new(),
        at(170),
    );
    assert_eq!(done.clone().finalize_failure(at(999)), done);
    assert_eq!(done.finished_on, Some(at(170)));
}

#[test]
fn counts_start_at_zero() {
    let counts = MediaCounts::new();
    for lot in ALL_LOTS {
        assert_eq!(counts.get(lot), 0);
    }
    assert_eq!(counts.sum(), 0);
}

#[test]
fn record_counts_one_kind_and_leaves_the_others() {
    for lot in ALL_LOTS {
        let mut counts = MediaCounts::new();
        assert!(counts.record(lot));
        assert!(counts.record(lot));
        for other in ALL_LOTS {
            assert_eq!(counts.get(other), if other == lot { 2 } else { 0 });
        }
        assert_eq!(counts.sum(), 2);
    }
}

#[test]
fn sum_adds_all_kinds() {
    let counts = MediaCounts {
        audio_book: 1,
        anime: 2,
        book: 3,
        podcast: 4,
        manga: 5,
        movie: 6,
        show: 7,
        video_game: 8,
        visual_novel: 9,
    };
    assert_eq!(counts.sum(), 45);
    assert_eq!(counts.get(MediaLot::Show), 7);
}

#[test]
fn full_counter_is_left_alone() {
    let mut counts = MediaCounts::new();
    counts.movie = u64::MAX;
    counts.book = u64::MAX;
    let before = counts;
    assert!(!counts.record(MediaLot::Movie));
    assert_eq!(counts, before);
    assert_eq!(counts.sum(), 2 * (u64::MAX as u128));
    assert!(counts.record(MediaLot::Show));
    assert_eq!(counts.sum(), 2 * (u64::MAX as u128) + 1);
}

#[test]
fn details_only_grow() {
    let mut details = ImportResultDetails::new();
    assert_eq!((details.imported(), details.failed()), (0, 0));
    assert!(details.record_imported());
    details.record_failure(failure("first"));
    assert!(details.record_imported());
    details.record_failure(failure("second"));
    assert_eq!((details.imported(), details.failed()), (2, 2));
    assert_eq!(details.failed_items(), &vec![failure("first"), failure("second")]);
    details.record_failure(failure("third"));
    assert_eq!(details.failed_items()[0], failure("first"));
    assert_eq!(details.failed_items()[1], failure("second"));
    assert_eq!(details.failed_items()[2], failure("third"));
}

#[test]
fn details_from_parts_keep_what_they_are_given() {
    let details = ImportResultDetails::from_parts(7, vec![failure("a")]);
    assert_eq!(details.imported(), 7);
    assert_eq!(details.failed(), 1);
    assert_eq!(details.failed_items(), &vec![failure("a")]);
}

#[test]
fn full_imported_counter_is_left_alone() {
    let mut details = ImportResultDetails::from_parts(usize::MAX, vec![]);
    assert!(!details.record_imported());
    assert_eq!(details.imported(), usize::MAX);
}

#[test]
fn reports_are_ordered_latest_first() {
    let rows = vec![row("a", "ana", 10), row("b", "ana", 30), row("c", "ana", 20)];
    let got = reports_for_user(rows, &"ana".to_string());
    assert_eq!(ids(&got), vec!["b", "c", "a"]);
}

#[test]
fn reports_of_other_users_are_left_out() {
    let rows = vec![
        row("a", "ana", 10),
        row("x", "ben", 50),
        row("b", "ana", 30),
        row("y", "an", 40),
        row("z", "anax", 45),
    ];
    let got = reports_for_user(rows, &"ana".to_string());
    assert_eq!(ids(&got), vec!["b", "a"]);
    assert!(got.iter().all(|r| r.user_id == "ana"));
}

#[test]
fn reports_that_started_together_keep_their_order() {
    let rows = vec![
        row("a", "ana", 20),
        row("b", "ana", 20),
        row("c", "ana", 30),
        row("d", "ana", 20),
        row("e", "ana", 10),
    ];
    let got = reports_for_user(rows, &"ana".to_string());
    assert_eq!(ids(&got), vec!["c", "a", "b", "d", "e"]);
}

#[test]
fn reports_are_ordered_by_nanoseconds_within_a_second() {
    let mut early = row("early", "ana", 20);
    early.started_on = UtcInstant { secs: 20, nanos: 1 };
    let mut late = row("late", "ana", 20);
    late.started_on = UtcInstant { secs: 20, nanos: 2 };
    let got = reports_for_user(vec![early, late], &"ana".to_string());
    assert_eq!(ids(&got), vec!["late", "early"]);
}

#[test]
fn reports_of_nobody_are_none() {
    assert_eq!(reports_for_user(vec![], &"ana".to_string()), vec![]);
    assert_eq!(reports_for_user(vec![row("x", "ben", 5)], &"ana".to_string()), vec![]);
}

#[test]
fn ordering_keeps_every_field_of_a_report() {
    let done = row("a", "ana", 10).finalize_failure(at(15));
    let mut running = row("b", "ana", 30);
    running.set_progress(60);
    let got = reports_for_user(vec![done.clone(), running.clone()], &"ana".to_string());
    assert_eq!(got, vec![running, done]);
}
