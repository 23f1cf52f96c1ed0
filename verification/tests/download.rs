use inference::download::{
    is_report_due, percent, Download, DownloadPhase, DownloadProgress, DownloadStep, FailureCause,
    REPORT_INTERVAL,
};
use inference::InferenceError;

const MB: u64 = 1024 * 1024;

fn report(step: DownloadStep) -> DownloadProgress {
    assert!(step.error.is_none());
    step.report.expect("a record is due")
}

fn silent(step: DownloadStep) {
    assert!(step.error.is_none());
    assert!(step.report.is_none());
}

fn failure(step: DownloadStep) -> (DownloadProgress, String) {
    let record = step.report.expect("a failure is reported");
    match step.error {
        Some(InferenceError::ModelLoad(message)) => (record, message),
        other => panic!("unexpected {:?}", other),
    }
}

#[test]
fn a_download_starts_by_connecting() {
    let (download, record) = Download::start("https://example.org/m.bin");
    assert_eq!(download.phase(), DownloadPhase::Connecting);
    assert_eq!(download.total_bytes(), None);
    assert_eq!(download.downloaded_bytes(), 0);
    assert_eq!(record.phase, DownloadPhase::Connecting);
    assert_eq!(record.total_bytes, None);
    assert_eq!(record.downloaded_bytes, 0);
    assert_eq!(record.percentage, 0);
    assert_eq!(record.message.as_deref(), Some("Connecting to server..."));
    assert!(!download.phase().terminal());
}

#[test]
fn a_known_size_download_runs_through_the_phases() {
    let total = 3 * MB;
    let (mut download, first) = Download::start("u");
    let mut records = vec![first];
    records.push(report(download.on_response(200, Some(total))));
    assert_eq!(records[1].phase, DownloadPhase::Downloading);
    assert_eq!(records[1].total_bytes, Some(total));
    assert_eq!(records[1].message.as_deref(), Some("Downloading model (3145728 bytes)"));
    let chunk = 64 * 1024;
    let mut sent = 0;
    while sent < total {
        let step = download.on_chunk(chunk);
        assert!(step.error.is_none());
        sent += chunk;
        if let Some(record) = step.report {
            assert_eq!(record.downloaded_bytes, sent);
            records.push(record);
        }
    }
    assert_eq!(download.downloaded_bytes(), total);
    records.push(report(download.on_body_finished()));
    assert_eq!(download.phase(), DownloadPhase::Processing);
    records.push(report(download.on_cache_started()));
    assert_eq!(download.phase(), DownloadPhase::Caching);
    records.push(report(download.on_finished()));
    assert_eq!(download.phase(), DownloadPhase::Completed);
    assert!(download.phase().terminal());

    // Counts never fall, percentages never pass one hundred, phases keep their order.
    let order = |p: DownloadPhase| match p {
        DownloadPhase::Connecting => 0,
        DownloadPhase::Downloading => 1,
        DownloadPhase::Processing => 2,
        DownloadPhase::Caching => 3,
        DownloadPhase::Completed => 4,
        DownloadPhase::Failed => 5,
    };
    for pair in records.windows(2) {
        assert!(pair[0].downloaded_bytes <= pair[1].downloaded_bytes);
        assert!(order(pair[0].phase) <= order(pair[1].phase));
    }
    for record in &records {
        assert!(record.percentage <= 100);
        assert!(record.message.is_some());
    }
    let last = records.last().unwrap();
    assert_eq!(last.phase, DownloadPhase::Completed);
    assert_eq!(last.downloaded_bytes, total);
    assert_eq!(last.total_bytes, Some(total));
    assert_eq!(last.percentage, 100);
    assert_eq!(last.message.as_deref(), Some("Download completed successfully!"));
    // A record at least for every megabyte and every tenth.
    let during: Vec<&DownloadProgress> =
        records.iter().filter(|r| r.phase == DownloadPhase::Downloading).collect();
    assert!(during.len() >= 10);
    for mb in 1..=3 {
        assert!(during.iter().any(|r| r.downloaded_bytes == mb * MB));
    }
    let processing = records.iter().find(|r| r.phase == DownloadPhase::Processing).unwrap();
    assert_eq!(processing.percentage, 100);
    assert_eq!(processing.message.as_deref(), Some("Processing downloaded model..."));
    let caching = records.iter().find(|r| r.phase == DownloadPhase::Caching).unwrap();
    assert_eq!(caching.message.as_deref(), Some("Saving model to cache..."));
}

#[test]
fn an_unknown_size_download_reports_every_megabyte() {
    let (mut download, _) = Download::start("u");
    let opened = report(download.on_response(204, None));
    assert_eq!(opened.message.as_deref(), Some("Downloading model..."));
    silent(download.on_chunk(MB - 1));
    let record = report(download.on_chunk(1));
    assert_eq!(record.downloaded_bytes, MB);
    assert_eq!(record.percentage, 0);
    assert_eq!(record.total_bytes, None);
    assert_eq!(record.message.as_deref(), Some("Downloaded 1048576 bytes"));
    silent(download.on_chunk(0));
    silent(download.on_chunk(10));
    let record = report(download.on_chunk(5 * MB));
    assert_eq!(record.downloaded_bytes, 6 * MB + 10);
    let processing = report(download.on_body_finished());
    assert_eq!(processing.percentage, 0);
    // Without a cache the download completes straight away.
    let done = report(download.on_finished());
    assert_eq!(done.total_bytes, Some(6 * MB + 10));
    assert_eq!(done.downloaded_bytes, 6 * MB + 10);
    assert_eq!(done.percentage, 100);
}

#[test]
fn percentages_are_whole_and_capped() {
    assert_eq!(percent(None, 500), 0);
    assert_eq!(percent(Some(0), 500), 0);
    assert_eq!(percent(Some(200), 0), 0);
    assert_eq!(percent(Some(200), 1), 0);
    assert_eq!(percent(Some(200), 2), 1);
    assert_eq!(percent(Some(200), 199), 99);
    assert_eq!(percent(Some(200), 200), 100);
    assert_eq!(percent(Some(200), 5000), 100);
    assert_eq!(percent(Some(3), 1), 33);
    assert_eq!(percent(Some(3), 2), 66);
    assert_eq!(percent(Some(u64::MAX), u64::MAX - 1), 99);
    assert_eq!(percent(Some(u64::MAX), u64::MAX / 2), 49);
    let (mut download, _) = Download::start("u");
    report(download.on_response(200, Some(100)));
    let record = report(download.on_chunk(250));
    assert_eq!(record.percentage, 100);
    assert_eq!(record.downloaded_bytes, 250);
    assert_eq!(record.message.as_deref(), Some("Downloaded 250 of 100 bytes"));
}

#[test]
fn records_are_due_at_megabytes_and_tenths() {
    assert_eq!(REPORT_INTERVAL, MB);
    assert!(!is_report_due(None, 0, MB - 1));
    assert!(is_report_due(None, MB - 1, MB));
    assert!(is_report_due(None, MB - 1, 3 * MB));
    assert!(!is_report_due(None, MB, 2 * MB - 1));
    assert!(!is_report_due(Some(1000), 0, 99));
    assert!(is_report_due(Some(1000), 99, 100));
    assert!(!is_report_due(Some(1000), 100, 199));
    assert!(is_report_due(Some(1000), 100, 1000));
    assert!(!is_report_due(Some(1000), 1000, 2000));
    assert!(!is_report_due(Some(0), 0, 10));
    assert!(!is_report_due(None, 5, 5));
}

#[test]
fn connection_failures_name_their_cause() {
    let cases = [
        (
            FailureCause::Connect,
            "Failed to connect to HuggingFace: refused. Please check your internet connection.",
        ),
        (FailureCause::Timeout, "Download timeout: refused. The model file might be very large."),
        (
            FailureCause::Request,
            "Request error: refused. Please verify the repository and filename.",
        ),
        (FailureCause::Other, "Network error: refused"),
    ];
    for (cause, text) in cases {
        let (mut download, _) = Download::start("u");
        let (record, message) = failure(download.on_connect_failed(cause, "refused"));
        assert_eq!(message, text);
        assert_eq!(record.phase, DownloadPhase::Failed);
        assert_eq!(record.message.as_deref(), Some("Connection failed: refused"));
        assert_eq!(record.percentage, 0);
        assert_eq!(record.downloaded_bytes, 0);
        assert_eq!(download.phase(), DownloadPhase::Failed);
        assert!(download.phase().terminal());
    }
}

#[test]
fn answers_that_are_no_success_fail_the_download() {
    let cases = [
        (
            404,
            "Model not found (404): https://h/m. Please check the repository name and filename.",
        ),
        (
            403,
            "Access denied (403): https://h/m. The model might be private or require authentication.",
        ),
        (500, "HTTP error 500: Failed to download model from https://h/m"),
        (199, "HTTP error 199: Failed to download model from https://h/m"),
        (300, "HTTP error 300: Failed to download model from https://h/m"),
        (0, "HTTP error 0: Failed to download model from https://h/m"),
    ];
    for (status, text) in cases {
        let (mut download, _) = Download::start("https://h/m");
        let (record, message) = failure(download.on_response(status, Some(5)));
        assert_eq!(message, text);
        assert_eq!(record.message.as_deref(), Some(text));
        assert_eq!(record.phase, DownloadPhase::Failed);
        assert_eq!(record.total_bytes, None);
        assert_eq!(download.phase(), DownloadPhase::Failed);
    }
    for status in [200, 201, 299] {
        let (mut download, _) = Download::start("u");
        assert_eq!(report(download.on_response(status, None)).phase, DownloadPhase::Downloading);
    }
}

#[test]
fn a_failing_body_keeps_the_count() {
    let (mut download, _) = Download::start("u");
    report(download.on_response(200, Some(10 * MB)));
    report(download.on_chunk(MB));
    let (record, message) = failure(download.on_chunk_failed("reset by peer"));
    assert_eq!(message, "Failed to read response bytes: reset by peer");
    assert_eq!(record.message.as_deref(), Some("Download failed: reset by peer"));
    assert_eq!(record.downloaded_bytes, MB);
    assert_eq!(record.total_bytes, Some(10 * MB));
    assert_eq!(record.percentage, 0);
    assert_eq!(download.downloaded_bytes(), MB);
}

#[test]
fn a_body_beyond_the_counter_fails_the_download() {
    let (mut download, _) = Download::start("u");
    report(download.on_response(200, None));
    report(download.on_chunk(u64::MAX - 1));
    silent(download.on_chunk(1));
    let (record, message) = failure(download.on_chunk(1));
    assert_eq!(record.downloaded_bytes, u64::MAX);
    assert_eq!(message, "Failed to read response bytes: the body is too large");
    assert_eq!(download.phase(), DownloadPhase::Failed);
}

#[test]
fn events_out_of_turn_change_nothing() {
    let (mut download, _) = Download::start("u");
    silent(download.on_chunk(5));
    silent(download.on_chunk_failed("x"));
    silent(download.on_body_finished());
    silent(download.on_cache_started());
    silent(download.on_finished());
    assert_eq!(download.phase(), DownloadPhase::Connecting);
    assert_eq!(download.downloaded_bytes(), 0);
    report(download.on_response(200, None));
    silent(download.on_response(200, Some(4)));
    silent(download.on_connect_failed(FailureCause::Other, "x"));
    silent(download.on_cache_started());
    silent(download.on_finished());
    assert_eq!(download.total_bytes(), None);
    report(download.on_body_finished());
    silent(download.on_chunk(5));
    silent(download.on_body_finished());
    report(download.on_finished());
    // Nothing moves a download that has ended.
    silent(download.on_chunk(5));
    silent(download.on_cache_started());
    silent(download.on_finished());
    silent(download.abort("late"));
    silent(download.on_connect_failed(FailureCause::Connect, "late"));
    assert_eq!(download.phase(), DownloadPhase::Completed);
}

#[test]
fn a_download_can_be_given_up_until_it_has_ended() {
    let (mut download, _) = Download::start("u");
    report(download.on_response(200, Some(8)));
    silent(download.on_chunk(0));
    report(download.on_chunk(8));
    report(download.on_body_finished());
    let (record, message) = failure(download.abort("not a model"));
    assert_eq!(message, "not a model");
    assert_eq!(record.message.as_deref(), Some("Download failed: not a model"));
    assert_eq!(record.phase, DownloadPhase::Failed);
    assert_eq!(record.downloaded_bytes, 8);
    silent(download.abort("again"));
    let (mut fresh, _) = Download::start("u");
    let (record, _) = failure(fresh.abort("changed my mind"));
    assert_eq!(record.downloaded_bytes, 0);
}
