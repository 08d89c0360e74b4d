use importer_service::job::{ImportJob, JobAction};
use importer_service::media::ImportSource;
use importer_service::report::ImportReport;
use importer_service::request::{
    DeployGenericCsvImportInput, DeployImportJobInput, DeployStrongAppImportInput,
    DeployUrlAndKeyImportInput, PayloadKind, RequestShapeError,
};
use importer_service::service::{ApplicationJob, ImporterService};
use importer_service::time::UtcInstant;

fn request(source: ImportSource) -> DeployImportJobInput {
    DeployImportJobInput {
        source,
        url_and_key: None,
        generic_csv: None,
        generic_json: None,
        mal: None,
        igdb: None,
        trakt: None,
        movary: None,
        strong_app: None,
        jellyfin: None,
    }
}

fn csv_request(source: ImportSource) -> DeployImportJobInput {
    let mut input = request(source);
    input.generic_csv = Some(DeployGenericCsvImportInput { csv_path: "/tmp/in.csv".to_string() });
    input
}

fn report(id: &str, user: &str, started: i64) -> ImportReport {
    ImportReport::new(
        id.to_string(),
        user.to_string(),
        ImportSource::Imdb,
        UtcInstant { secs: started, nanos: 0 },
    )
}

#[test]
fn deploy_answers_with_the_job_to_queue() {
    let service = ImporterService::new("UTC".to_string());
    let input = csv_request(ImportSource::Imdb);
    assert_eq!(
        service.deploy_import_job("ana".to_string(), input.clone()),
        Ok(ApplicationJob::ImportFromExternalSource("ana".to_string(), input))
    );
}

#[test]
fn deploy_turns_a_mismatched_request_away() {
    let service = ImporterService::new("UTC".to_string());
    assert_eq!(
        service.deploy_import_job("ana".to_string(), csv_request(ImportSource::Trakt)),
        Err(RequestShapeError::MissingPayload {
            source: ImportSource::Trakt,
            expected: PayloadKind::Trakt
        })
    );
    let mut crowded = csv_request(ImportSource::Imdb);
    crowded.url_and_key = Some(DeployUrlAndKeyImportInput {
        api_url: "https://x.example.org".to_string(),
        api_key: "k".to_string(),
    });
    assert_eq!(
        service.deploy_import_job("ana".to_string(), crowded),
        Err(RequestShapeError::UnexpectedPayload {
            source: ImportSource::Imdb,
            found: PayloadKind::UrlAndKey
        })
    );
}

#[test]
fn import_reports_answers_one_users_reports_latest_first() {
    let service = ImporterService::new("UTC".to_string());
    let rows = vec![
        report("a", "ana", 100),
        report("b", "ben", 400),
        report("c", "ana", 300),
        report("d", "ana", 200),
    ];
    let got = service.import_reports("ana".to_string(), rows);
    assert_eq!(got, vec![report("c", "ana", 300), report("d", "ana", 200), report("a", "ana", 100)]);
}

#[test]
fn open_scale_adapter_is_given_the_configured_timezone() {
    let service = ImporterService::new("Asia/Tokyo".to_string());
    let (job, action) =
        service.start_importing("ana".to_string(), csv_request(ImportSource::OpenScale)).unwrap();
    assert_eq!(
        action,
        JobAction::InsertReport {
            user_id: "ana".to_string(),
            source: ImportSource::OpenScale,
            progress: 0
        }
    );
    match job {
        ImportJob::AwaitingReport { user_id, call } => {
            assert_eq!(user_id, "ana");
            assert_eq!(call.timezone, Some("Asia/Tokyo".to_string()));
            assert_eq!(call.user_id, None);
        }
        other => panic!("expected a job that awaits its report, got {:?}", other),
    }
}

#[test]
fn strong_app_adapter_is_given_the_user() {
    let service = ImporterService::new("Asia/Tokyo".to_string());
    let mut input = request(ImportSource::StrongApp);
    input.strong_app =
        Some(DeployStrongAppImportInput { export_path: "/tmp/strong.csv".to_string() });
    let (job, _) = service.start_importing("ben".to_string(), input).unwrap();
    match job {
        ImportJob::AwaitingReport { call, .. } => {
            assert_eq!(call.user_id, Some("ben".to_string()));
            assert_eq!(call.timezone, None);
        }
        other => panic!("expected a job that awaits its report, got {:?}", other),
    }
}
