//! The import service: what a caller submits, starts and asks for.

use crate::job::{finalizations, insertions, lemma_one_report_one_final_write, ImportJob, JobAction, JobEvent};
use crate::report::{newest_first, reports_for_user, reports_of, ImportReport};
use crate::request::{
    lemma_dispatch_is_total, select_adapter, DeployImportJobInput, RequestShapeError,
};
use crate::time::UtcInstant;
use vstd::prelude::*;

verus! {

/// The work that the job facility runs on behalf of the service.
#[derive(Clone, Debug, PartialEq, Eq)]
pub enum ApplicationJob {
    /// Import what the request describes, for the user named first.
    ImportFromExternalSource(String, DeployImportJobInput),
}

/// The import service. It holds what is configured once for all jobs.
#[derive(Clone, Debug, PartialEq, Eq)]
pub struct ImporterService {
    /// The IANA name of the timezone in which exports that carry wall-clock
    /// readings were taken.
    pub timezone: String,
}

impl ImporterService {
    /// A service for exports taken in `timezone`.
    pub fn new(timezone: String) -> (service: ImporterService)
        ensures
            service.timezone == timezone,
    {
        ImporterService { timezone }
    }

    /// Accepts a request for later execution: answers with the work to hand to
    /// the job facility. A request whose payload does not fit its source is
    /// turned away here, before anything has been queued or recorded.
    pub fn deploy_import_job(&self, user_id: String, input: DeployImportJobInput) -> (r: Result<
        ApplicationJob,
        RequestShapeError,
    >)
        ensures
            r is Ok <==> input.well_shaped(),
            r matches Ok(job) ==> job == ApplicationJob::ImportFromExternalSource(user_id, input),
            r matches Err(error) ==> input.rejected_with(error),
    {
        match input.check_shape() {
            Ok(()) => Ok(ApplicationJob::ImportFromExternalSource(user_id, input)),
            Err(error) => Err(error),
        }
    }

    /// The reports of one user out of `rows`, the latest started first.
    pub fn import_reports(&self, user_id: String, rows: Vec<ImportReport>) -> (reports: Vec<
        ImportReport,
    >)
        ensures
            reports@ == newest_first(reports_of(rows@, user_id@)),
    {
        reports_for_user(rows, &user_id)
    }

    /// Starts an import: answers with the job and its first action, which is
    /// to create the job's report. A request whose payload does not fit its
    /// source is turned away, and then there is no job and nothing to create.
    pub fn start_importing(&self, user_id: String, input: DeployImportJobInput) -> (r: Result<
        (ImportJob, JobAction),
        RequestShapeError,
    >)
        ensures
            r is Ok <==> input.well_shaped(),
            r matches Ok(started) ==> started == self.started(user_id, input),
            r matches Err(error) ==> input.rejected_with(error),
    {
        let source = input.source;
        match select_adapter(input, &user_id, &self.timezone) {
            Ok(call) => {
                let action = JobAction::InsertReport { user_id: user_id.clone(), source, progress: 0 };
                Ok((ImportJob::AwaitingReport { user_id, call }, action))
            },
            Err(error) => Err(error),
        }
    }

    /// The job that a well shaped request starts, and its first action.
    pub open spec fn started(self, user_id: String, input: DeployImportJobInput) -> (
        ImportJob,
        JobAction,
    ) {
        (
            ImportJob::AwaitingReport {
                user_id,
                call: input.dispatched(user_id, self.timezone),
            },
            JobAction::InsertReport { user_id, source: input.source, progress: 0u8 },
        )
    }
}

proof fn lemma_counts_add(front: Seq<JobAction>, back: Seq<JobAction>)
    ensures
        insertions(front + back) == insertions(front) + insertions(back),
        finalizations(front + back) == finalizations(front) + finalizations(back),
    decreases back.len(),
{
    if back.len() == 0 {
        assert(front + back =~= front);
    } else {
        lemma_counts_add(front, back.drop_last());
        assert((front + back).drop_last() =~= front + back.drop_last());
    }
}

/// One request, one report: over the whole life of the job that an accepted
/// request starts, whatever its driver feeds it, exactly one action creates a
/// report, and at most one writes the final report - exactly one if the job
/// comes to its end.
pub proof fn lemma_one_report_per_request(
    service: ImporterService,
    user_id: String,
    input: DeployImportJobInput,
    events: Seq<(JobEvent, UtcInstant)>,
)
    requires
        input.well_shaped(),
    ensures
        ({
            let (job, first) = service.started(user_id, input);
            let (end, actions) = job.run(events);
            &&& job.wf()
            &&& insertions(seq![first] + actions) == 1
            &&& finalizations(seq![first] + actions) == if end.settled() {
                1nat
            } else {
                0nat
            }
        }),
{
    let (job, first) = service.started(user_id, input);
    lemma_dispatch_is_total(input, user_id, service.timezone);
    lemma_one_report_one_final_write(job, events);
    lemma_counts_add(seq![first], job.run(events).1);
    assert(seq![first].drop_last() =~= Seq::<JobAction>::empty());
    assert(insertions(seq![first]) == 1) by {
        assert(insertions(seq![first].drop_last()) == 0);
    }
    assert(finalizations(seq![first]) == 0) by {
        assert(finalizations(seq![first].drop_last()) == 0);
    }
}

} // verus!
