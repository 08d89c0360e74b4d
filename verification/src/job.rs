//! The life of one import job, as a state machine.
//!
//! The job decides; its driver acts. Each step takes what the driver's last
//! action led to and answers with the job's next state and the next action:
//! create the report, run the adapter, commit what it produced, write down a
//! percentage, submit the downstream recomputation, write the final report.
//! Every way through the machine, failed or not, passes through the one step
//! that writes the final report.

use crate::media::{ImportOrExportMetadataItem, ImportSource};
use crate::report::{ImportReport, ImportResultDetails, MediaCounts};
use crate::request::AdapterCall;
use crate::time::{utc_now, UtcInstant};
use vstd::prelude::*;

verus! {

/// An adapter could not produce the common form of its input.
#[derive(Clone, Debug, PartialEq, Eq)]
pub struct ImportError {
    pub message: String,
}

/// The commit processor gave up on the batch as a whole.
#[derive(Clone, Debug, PartialEq, Eq)]
pub struct CommitError {
    pub message: String,
}

/// Why a job as a whole failed.
#[derive(Clone, Debug, PartialEq, Eq)]
pub enum JobFailure {
    Adapter(ImportError),
    Commit(CommitError),
}

/// What the commit processor reports of a batch that it went through.
#[derive(Clone, Debug, PartialEq, Eq)]
pub struct CommitSummary {
    /// The items that were committed, by kind of media.
    pub counts: MediaCounts,
    /// The body of the report, with each item that was not committed.
    pub details: ImportResultDetails,
}

/// The work that is handed to the job facility once an import has succeeded.
#[derive(Clone, Copy, Debug, PartialEq, Eq, Structural)]
pub enum BackgroundJob {
    CalculateUserActivitiesAndSummary,
}

/// What the driver tells the job.
#[derive(Debug, PartialEq, Eq)]
pub enum JobEvent {
    /// The report has been created, under this identity and at this instant.
    ReportInserted { id: String, started_on: UtcInstant },
    /// The adapter has returned.
    AdapterFinished(Result<Vec<ImportOrExportMetadataItem>, ImportError>),
    /// The commit processor has called back with a percentage.
    Progress(u8),
    /// The commit processor has returned.
    CommitFinished(Result<CommitSummary, CommitError>),
    /// The downstream recomputation has been submitted, or could not be.
    RecomputeSubmitted(bool),
    /// The final report has been written, or could not be.
    ReportFinalized(bool),
}

/// What the job asks of its driver.
#[derive(Clone, Debug, PartialEq, Eq)]
pub enum JobAction {
    /// Create the report of this job.
    InsertReport { user_id: String, source: ImportSource, progress: u8 },
    /// Run the adapter.
    RunAdapter(AdapterCall),
    /// Hand the adapter's items to the commit processor.
    CommitItems { user_id: String, is_dry_run: bool, items: Vec<ImportOrExportMetadataItem> },
    /// Overwrite the progress of the report with this percentage.
    SetProgress { report_id: String, progress: u8 },
    /// Submit the downstream recomputation. Whether that works does not matter
    /// to the job.
    SubmitRecompute { user_id: String, job: BackgroundJob },
    /// Write the final state of the report.
    FinalizeReport(ImportReport),
    /// Nothing is left to do.
    Done,
    /// The event does not belong to the state that the job is in. The job has
    /// not changed.
    Ignore,
}

/// One import job.
#[derive(Clone, Debug, PartialEq, Eq)]
pub enum ImportJob {
    /// The request has been accepted and the report is being created.
    AwaitingReport { user_id: String, call: AdapterCall },
    /// The adapter is running.
    Adapting { user_id: String, report: ImportReport },
    /// The commit processor is running.
    Committing { user_id: String, report: ImportReport },
    /// The batch has been committed and the downstream recomputation is being
    /// submitted.
    Notifying { report: ImportReport, summary: CommitSummary },
    /// The final report is being written.
    Finalizing { failure: Option<JobFailure> },
    /// The job is over. `report_written` is false where the final write failed,
    /// which leaves a report that never ends.
    Finished { failure: Option<JobFailure>, report_written: bool },
}

impl ImportJob {
    /// The job's state after `event`, observed at `now`, and the action that
    /// the job asks for.
    pub open spec fn next(self, event: JobEvent, now: UtcInstant) -> (ImportJob, JobAction) {
        match (self, event) {
            (
                ImportJob::AwaitingReport { user_id, call },
                JobEvent::ReportInserted { id, started_on },
            ) => (
                ImportJob::Adapting {
                    user_id,
                    report: ImportReport::created(id, user_id, call.source, started_on),
                },
                JobAction::RunAdapter(call),
            ),
            (ImportJob::Adapting { user_id, report }, JobEvent::AdapterFinished(Ok(items))) => (
                ImportJob::Committing { user_id, report },
                JobAction::CommitItems { user_id, is_dry_run: false, items },
            ),
            (ImportJob::Adapting { user_id, report }, JobEvent::AdapterFinished(Err(error))) => (
                ImportJob::Finalizing { failure: Some(JobFailure::Adapter(error)) },
                JobAction::FinalizeReport(report.failed(now)),
            ),
            (ImportJob::Committing { user_id, report }, JobEvent::Progress(progress)) => (
                ImportJob::Committing { user_id, report: report.with_progress(progress) },
                JobAction::SetProgress { report_id: report.id, progress },
            ),
            (ImportJob::Committing { user_id, report }, JobEvent::CommitFinished(Ok(summary))) => (
                ImportJob::Notifying { report, summary },
                JobAction::SubmitRecompute {
                    user_id,
                    job: BackgroundJob::CalculateUserActivitiesAndSummary,
                },
            ),
            (ImportJob::Committing { user_id, report }, JobEvent::CommitFinished(Err(error))) => (
                ImportJob::Finalizing { failure: Some(JobFailure::Commit(error)) },
                JobAction::FinalizeReport(report.failed(now)),
            ),
            (ImportJob::Notifying { report, summary }, JobEvent::RecomputeSubmitted(_)) => (
                ImportJob::Finalizing { failure: None },
                JobAction::FinalizeReport(report.succeeded(summary.counts, summary.details, now)),
            ),
            (ImportJob::Finalizing { failure }, JobEvent::ReportFinalized(written)) => (
                ImportJob::Finished { failure, report_written: written },
                JobAction::Done,
            ),
            (job, _) => (job, JobAction::Ignore),
        }
    }

    /// Takes the job one step on: `event` is what the driver's last action led
    /// to, `now` the instant at which it is handed in.
    pub fn step(self, event: JobEvent, now: UtcInstant) -> (r: (ImportJob, JobAction))
        ensures
            r == self.next(event, now),
    {
        match (self, event) {
            (
                ImportJob::AwaitingReport { user_id, call },
                JobEvent::ReportInserted { id, started_on },
            ) => {
                let report = ImportReport::new(id, user_id.clone(), call.source, started_on);
                (ImportJob::Adapting { user_id, report }, JobAction::RunAdapter(call))
            },
            (ImportJob::Adapting { user_id, report }, JobEvent::AdapterFinished(Ok(items))) => {
                let action = JobAction::CommitItems {
                    user_id: user_id.clone(),
                    is_dry_run: false,
                    items,
                };
                (ImportJob::Committing { user_id, report }, action)
            },
            (ImportJob::Adapting { user_id: _, report }, JobEvent::AdapterFinished(Err(error))) => (
                ImportJob::Finalizing { failure: Some(JobFailure::Adapter(error)) },
                JobAction::FinalizeReport(report.finalize_failure(now)),
            ),
            (ImportJob::Committing { user_id, report }, JobEvent::Progress(progress)) => {
                let mut report = report;
                let report_id = report.id.clone();
                report.set_progress(progress);
                (
                    ImportJob::Committing { user_id, report },
                    JobAction::SetProgress { report_id, progress },
                )
            },
            (ImportJob::Committing { user_id, report }, JobEvent::CommitFinished(Ok(summary))) => (
                ImportJob::Notifying { report, summary },
                JobAction::SubmitRecompute {
                    user_id,
                    job: BackgroundJob::CalculateUserActivitiesAndSummary,
                },
            ),
            (
                ImportJob::Committing { user_id: _, report },
                JobEvent::CommitFinished(Err(error)),
            ) => (
                ImportJob::Finalizing { failure: Some(JobFailure::Commit(error)) },
                JobAction::FinalizeReport(report.finalize_failure(now)),
            ),
            (ImportJob::Notifying { report, summary }, JobEvent::RecomputeSubmitted(_)) => (
                ImportJob::Finalizing { failure: None },
                JobAction::FinalizeReport(
                    report.finalize_success(summary.counts, summary.details, now),
                ),
            ),
            (ImportJob::Finalizing { failure }, JobEvent::ReportFinalized(written)) => (
                ImportJob::Finished { failure, report_written: written },
                JobAction::Done,
            ),
            (job, _) => (job, JobAction::Ignore),
        }
    }

    /// Takes the job one step on, at the instant that the clock shows.
    pub fn advance(self, event: JobEvent) -> (r: (ImportJob, JobAction))
        ensures
            exists|now: UtcInstant| r == #[trigger] self.next(event, now),
    {
        let now = utc_now();
        let r = self.step(event, now);
        assert(r == self.next(event, now));
        r
    }
}

impl ImportJob {
    /// The job holds what its state calls for: a call that fits the registry
    /// while the report is awaited, and a report without outcome for as long
    /// as the job has not come to its end.
    pub open spec fn wf(self) -> bool {
        match self {
            ImportJob::AwaitingReport { user_id, call } => {
                &&& call.fits_registry()
                &&& call.user_id matches Some(user) ==> user == user_id
            },
            ImportJob::Adapting { user_id, report } => {
                &&& report.is_running()
                &&& report.user_id == user_id
                &&& report.progress == Some(0u8)
            },
            ImportJob::Committing { user_id, report } => {
                &&& report.is_running()
                &&& report.user_id == user_id
            },
            ImportJob::Notifying { report, summary } => report.is_running(),
            ImportJob::Finalizing { failure } => true,
            ImportJob::Finished { failure, report_written } => true,
        }
    }

    /// The final report has been handed out for writing.
    pub open spec fn settled(self) -> bool {
        self is Finalizing || self is Finished
    }

    /// The job after a series of events, each with the instant at which it was
    /// handed in, and the actions that the job asked for on the way.
    pub open spec fn run(self, events: Seq<(JobEvent, UtcInstant)>) -> (ImportJob, Seq<JobAction>)
        decreases events.len(),
    {
        if events.len() == 0 {
            (self, Seq::empty())
        } else {
            let (job, actions) = self.run(events.drop_last());
            let (end, action) = job.next(events.last().0, events.last().1);
            (end, actions.push(action))
        }
    }
}

/// How many of the actions create a report.
pub open spec fn insertions(actions: Seq<JobAction>) -> nat
    decreases actions.len(),
{
    if actions.len() == 0 {
        0
    } else {
        insertions(actions.drop_last()) + if actions.last() is InsertReport {
            1nat
        } else {
            0nat
        }
    }
}

/// How many of the actions write a final report.
pub open spec fn finalizations(actions: Seq<JobAction>) -> nat
    decreases actions.len(),
{
    if actions.len() == 0 {
        0
    } else {
        finalizations(actions.drop_last()) + if actions.last() is FinalizeReport {
            1nat
        } else {
            0nat
        }
    }
}

/// The events of a commit processor that calls back with `values`, one after
/// the other, at `times`.
pub open spec fn progress_feed(values: Seq<u8>, times: Seq<UtcInstant>) -> Seq<
    (JobEvent, UtcInstant),
> {
    Seq::new(values.len(), |i: int| (JobEvent::Progress(values[i]), times[i]))
}

/// A step keeps a job well formed.
pub proof fn lemma_step_keeps_wf(job: ImportJob, event: JobEvent, now: UtcInstant)
    requires
        job.wf(),
    ensures
        job.next(event, now).0.wf(),
{
}

/// A final report is written at the step that settles the job, and at no
/// other. It has an outcome, it is stamped with the instant of that step, and
/// it tells of a failure exactly where the job keeps the reason for one.
pub proof fn lemma_final_report(job: ImportJob, event: JobEvent, now: UtcInstant)
    requires
        job.wf(),
    ensures
        job.next(event, now).1 is FinalizeReport <==> !job.settled() && job.next(
            event,
            now,
        ).0.settled(),
        job.next(event, now).1 matches JobAction::FinalizeReport(report) ==> {
            &&& job.next(event, now).0 matches ImportJob::Finalizing { failure }
            &&& report.finished_on == Some(now)
            &&& report.is_failure() || report.is_success()
            &&& report.is_failure() <==> failure is Some
        },
{
}

/// No step creates a report: the one that a job has is the one that starting
/// the job asked for.
pub proof fn lemma_step_creates_no_report(job: ImportJob, event: JobEvent, now: UtcInstant)
    ensures
        !(job.next(event, now).1 is InsertReport),
{
}

/// Whatever events a job is fed, it asks for no further report, and it writes
/// a final report once if it comes to its end and not at all if it does not.
pub proof fn lemma_one_report_one_final_write(job: ImportJob, events: Seq<(JobEvent, UtcInstant)>)
    requires
        job.wf(),
    ensures
        job.run(events).0.wf(),
        job.run(events).1.len() == events.len(),
        insertions(job.run(events).1) == 0,
        job.settled() ==> job.run(events).0.settled() && finalizations(job.run(events).1) == 0,
        !job.settled() ==> finalizations(job.run(events).1) == if job.run(events).0.settled() {
            1nat
        } else {
            0nat
        },
    decreases events.len(),
{
    if events.len() > 0 {
        let (mid, actions) = job.run(events.drop_last());
        let (end, action) = mid.next(events.last().0, events.last().1);
        lemma_one_report_one_final_write(job, events.drop_last());
        lemma_step_keeps_wf(mid, events.last().0, events.last().1);
        lemma_final_report(mid, events.last().0, events.last().1);
        assert(actions.push(action).drop_last() =~= actions);
    }
}

/// A percentage that the commit processor calls back with is written down as
/// it is given, whatever it is and whatever came before it.
pub proof fn lemma_progress_is_never_rejected(
    user_id: String,
    report: ImportReport,
    progress: u8,
    now: UtcInstant,
)
    ensures
        (ImportJob::Committing { user_id, report }).next(JobEvent::Progress(progress), now) == (
            ImportJob::Committing { user_id, report: report.with_progress(progress) },
            JobAction::SetProgress { report_id: report.id, progress },
        ),
{
}

/// Over a whole run of the commit processor, the percentages are written in
/// the order and with the values in which they are given, and the report
/// holds the last of them. So what is written never goes down where what is
/// given never does.
pub proof fn lemma_progress_is_written_as_given(
    user_id: String,
    report: ImportReport,
    values: Seq<u8>,
    times: Seq<UtcInstant>,
)
    requires
        values.len() == times.len(),
    ensures
        ({
            let job = ImportJob::Committing { user_id, report };
            let (end, actions) = job.run(progress_feed(values, times));
            &&& actions.len() == values.len()
            &&& forall|i: int|
                0 <= i < values.len() ==> #[trigger] actions[i] == (JobAction::SetProgress {
                    report_id: report.id,
                    progress: values[i],
                })
            &&& end == ImportJob::Committing {
                user_id,
                report: if values.len() == 0 {
                    report
                } else {
                    report.with_progress(values.last())
                },
            }
            &&& (forall|i: int, j: int| 0 <= i <= j < values.len() ==> values[i] <= values[j])
                ==> forall|i: int, j: int|
                0 <= i <= j < actions.len() ==> (#[trigger] actions[i])->SetProgress_progress
                    <= (#[trigger] actions[j])->SetProgress_progress
        }),
    decreases values.len(),
{
    let job = ImportJob::Committing { user_id, report };
    let feed = progress_feed(values, times);
    if values.len() > 0 {
        let front = values.drop_last();
        lemma_progress_is_written_as_given(user_id, report, front, times.drop_last());
        assert(feed.drop_last() =~= progress_feed(front, times.drop_last()));
        assert(feed.last() == (JobEvent::Progress(values.last()), times.last()));
        let (mid, before) = job.run(feed.drop_last());
        let (end, actions) = job.run(feed);
        assert(actions == before.push(mid.next(feed.last().0, feed.last().1).1));
        assert forall|i: int| 0 <= i < values.len() implies #[trigger] actions[i] == (
        JobAction::SetProgress { report_id: report.id, progress: values[i] }) by {
            if i < values.len() - 1 {
                assert(actions[i] == before[i]);
                assert(front[i] == values[i]);
            }
        }
    }
}

/// Where the adapter fails, the job goes straight to its final report, which
/// tells of a failure and has no result; nothing is committed.
pub proof fn lemma_adapter_failure(
    user_id: String,
    report: ImportReport,
    error: ImportError,
    now: UtcInstant,
)
    requires
        report.is_running(),
    ensures
        ({
            let job = ImportJob::Adapting { user_id, report };
            let (end, action) = job.next(JobEvent::AdapterFinished(Err(error)), now);
            &&& end == ImportJob::Finalizing { failure: Some(JobFailure::Adapter(error)) }
            &&& action matches JobAction::FinalizeReport(last)
            &&& last.was_success == Some(false)
            &&& last.source_result is None
            &&& last.details is None
            &&& last.finished_on == Some(now)
            &&& last == ImportReport { finished_on: Some(now), was_success: Some(false), ..report }
        }),
{
}

/// Where the commit processor fails as a whole, the final report tells of a
/// failure and has no result either.
pub proof fn lemma_commit_failure(
    user_id: String,
    report: ImportReport,
    error: CommitError,
    now: UtcInstant,
)
    requires
        report.is_running(),
    ensures
        ({
            let job = ImportJob::Committing { user_id, report };
            let (end, action) = job.next(JobEvent::CommitFinished(Err(error)), now);
            &&& end == ImportJob::Finalizing { failure: Some(JobFailure::Commit(error)) }
            &&& action matches JobAction::FinalizeReport(last)
            &&& last.was_success == Some(false)
            &&& last.source_result is None
            &&& last.details is None
            &&& last.finished_on == Some(now)
        }),
{
}

/// Where the commit processor went through a batch of `total` items and
/// reports `failed` of them as fallen out and the others as counted, the final
/// report tells of a success, lists exactly those `failed` items, and counts
/// the `total - failed` others. Whether the downstream recomputation could be
/// submitted makes no difference.
pub proof fn lemma_partial_success(
    user_id: String,
    report: ImportReport,
    summary: CommitSummary,
    total: nat,
    failed: nat,
    submitted: bool,
    committed_at: UtcInstant,
    now: UtcInstant,
)
    requires
        report.is_running(),
        failed <= total,
        summary.details@.failed_items.len() == failed,
        summary.counts.total() == total - failed,
    ensures
        ({
            let job = ImportJob::Committing { user_id, report };
            let (notifying, first) = job.next(JobEvent::CommitFinished(Ok(summary)), committed_at);
            let (end, second) = notifying.next(JobEvent::RecomputeSubmitted(submitted), now);
            &&& first == JobAction::SubmitRecompute {
                user_id,
                job: BackgroundJob::CalculateUserActivitiesAndSummary,
            }
            &&& end == ImportJob::Finalizing { failure: None }
            &&& second matches JobAction::FinalizeReport(last)
            &&& last.was_success == Some(true)
            &&& last.finished_on == Some(now)
            &&& last.details == Some(summary.details)
            &&& last.details->0@.failed_items.len() == failed
            &&& last.source_result == Some(summary.counts)
            &&& last.source_result->0.total() == total - failed
        }),
{
}

/// The two effects that are made on a best effort cannot hold the job up or
/// turn it: it goes the same way whether the downstream recomputation could be
/// submitted or not, and it ends whether the final report could be written or
/// not.
pub proof fn lemma_best_effort(job: ImportJob, now: UtcInstant)
    ensures
        job.next(JobEvent::RecomputeSubmitted(true), now) == job.next(
            JobEvent::RecomputeSubmitted(false),
            now,
        ),
        job is Finalizing ==> forall|written: bool|
            {
                &&& (#[trigger] job.next(JobEvent::ReportFinalized(written), now)).0 is Finished
                &&& job.next(JobEvent::ReportFinalized(written), now).1 == JobAction::Done
            },
{
}

} // verus!
