//! The bookkeeping of one model download: a state machine over the phases
//! Connecting, Downloading, Processing, Caching, Completed and Failed, which
//! turns the events of a transfer into progress records and errors. The
//! transfer itself is done by the caller, who reports what happened.
use vstd::prelude::*;
use vstd::string::StringExecFns;
use crate::error::InferenceError;
use crate::text::{decimal_text, push_decimal};

verus! {

/// The phases of a download, in their order.
#[derive(Debug, Clone, Copy, PartialEq, Eq, Structural)]
pub enum DownloadPhase {
    Connecting,
    Downloading,
    Processing,
    Caching,
    Completed,
    Failed,
}

impl DownloadPhase {
    /// The place of a phase in the order of phases.
    pub open spec fn rank(self) -> nat {
        match self {
            DownloadPhase::Connecting => 0,
            DownloadPhase::Downloading => 1,
            DownloadPhase::Processing => 2,
            DownloadPhase::Caching => 3,
            DownloadPhase::Completed => 4,
            DownloadPhase::Failed => 5,
        }
    }

    /// Whether a download in this phase has ended.
    pub open spec fn is_terminal(self) -> bool {
        self == DownloadPhase::Completed || self == DownloadPhase::Failed
    }

    /// Tests whether a download in this phase has ended.
    pub fn terminal(&self) -> (r: bool)
        ensures
            r == self.is_terminal(),
    {
        match self {
            DownloadPhase::Completed => true,
            DownloadPhase::Failed => true,
            _ => false,
        }
    }
}

/// Why a connection could not be made.
#[derive(Debug, Clone, Copy, PartialEq, Eq, Structural)]
pub enum FailureCause {
    /// The server could not be reached.
    Connect,
    /// The request timed out.
    Timeout,
    /// The request itself was malformed.
    Request,
    /// Any other failure of the transport.
    Other,
}

/// A snapshot of a download: the total size if the server gave it, the bytes
/// received so far, the share received in whole percent, the phase, and a
/// message for the user.
#[derive(Debug, Clone)]
pub struct DownloadProgress {
    pub total_bytes: Option<u64>,
    pub downloaded_bytes: u64,
    pub percentage: u8,
    pub phase: DownloadPhase,
    pub message: Option<String>,
}

/// What a progress record says.
pub struct ProgressView {
    pub total_bytes: Option<u64>,
    pub downloaded_bytes: u64,
    pub percentage: u8,
    pub phase: DownloadPhase,
    pub message: Option<Seq<char>>,
}

impl View for DownloadProgress {
    type V = ProgressView;

    open spec fn view(&self) -> ProgressView {
        ProgressView {
            total_bytes: self.total_bytes,
            downloaded_bytes: self.downloaded_bytes,
            percentage: self.percentage,
            phase: self.phase,
            message: match self.message {
                Some(m) => Some(m@),
                None => None,
            },
        }
    }
}

/// The number of bytes after which a progress record is due again.
pub const REPORT_INTERVAL: u64 = 1048576;

/// The share of a download that was received, in whole percent and at most
/// one hundred; zero while the total size is unknown or zero.
pub open spec fn percent_of(total: Option<u64>, downloaded: u64) -> u8 {
    match total {
        Some(t) => if t == 0 {
            0
        } else if downloaded >= t {
            100
        } else {
            ((downloaded * 100) / (t as int)) as u8
        },
        None => 0,
    }
}

/// The percentage shown once the transfer has ended: one hundred where the
/// total size is known, else zero.
pub open spec fn settled_percent(total: Option<u64>) -> u8 {
    if total is Some {
        100
    } else {
        0
    }
}

/// Whether a chunk that raised the count of received bytes from `before` to
/// `after` makes a progress record due: it completed a further megabyte, or,
/// where the total size is known, it reached a further tenth of it.
pub open spec fn report_due(total: Option<u64>, before: u64, after: u64) -> bool {
    ||| after / REPORT_INTERVAL > before / REPORT_INTERVAL
    ||| percent_of(total, after) / 10 > percent_of(total, before) / 10
}

/// What a download is: where it loads from, its phase, the total size that
/// the server announced, and the bytes received.
pub struct DownloadView {
    pub source: Seq<char>,
    pub phase: DownloadPhase,
    pub total_bytes: Option<u64>,
    pub downloaded_bytes: u64,
}

/// What can happen to a download.
pub enum DownloadEvent {
    /// No connection could be made.
    ConnectFailed { cause: FailureCause, detail: Seq<char> },
    /// The server answered with a status and, possibly, the size of the body.
    Response { status: u16, content_length: Option<u64> },
    /// A chunk of the body arrived.
    Chunk { len: u64 },
    /// Reading the body failed.
    ChunkFailed { detail: Seq<char> },
    /// The body is complete.
    BodyFinished,
    /// The bytes are being written to the cache.
    CacheStarted,
    /// The bytes were handed on.
    Finished,
    /// The caller gave the download up.
    Aborted { detail: Seq<char> },
}

/// What an event leads to: the download after it, the progress record to
/// publish if one is due, and the message of the error if the download failed.
pub struct Outcome {
    pub state: DownloadView,
    pub report: Option<ProgressView>,
    pub failure: Option<Seq<char>>,
}

/// The message of the error for a connection that could not be made.
pub open spec fn connect_failure_text(cause: FailureCause, detail: Seq<char>) -> Seq<char> {
    match cause {
        FailureCause::Connect => "Failed to connect to HuggingFace: "@ + detail
            + ". Please check your internet connection."@,
        FailureCause::Timeout => "Download timeout: "@ + detail
            + ". The model file might be very large."@,
        FailureCause::Request => "Request error: "@ + detail
            + ". Please verify the repository and filename."@,
        FailureCause::Other => "Network error: "@ + detail,
    }
}

/// The message of the error for an answer that is no success.
pub open spec fn status_failure_text(status: u16, source: Seq<char>) -> Seq<char> {
    if status == 404 {
        "Model not found (404): "@ + source + ". Please check the repository name and filename."@
    } else if status == 403 {
        "Access denied (403): "@ + source
            + ". The model might be private or require authentication."@
    } else {
        "HTTP error "@ + decimal_text(status as nat) + ": Failed to download model from "@ + source
    }
}

/// The message of the record that opens the transfer.
pub open spec fn transfer_start_text(total: Option<u64>) -> Seq<char> {
    match total {
        Some(t) => "Downloading model ("@ + decimal_text(t as nat) + " bytes)"@,
        None => "Downloading model..."@,
    }
}

/// The message of a record during the transfer.
pub open spec fn transfer_text(total: Option<u64>, downloaded: u64) -> Seq<char> {
    match total {
        Some(t) => "Downloaded "@ + decimal_text(downloaded as nat) + " of "@ + decimal_text(
            t as nat,
        ) + " bytes"@,
        None => "Downloaded "@ + decimal_text(downloaded as nat) + " bytes"@,
    }
}

/// Whether an answer's status is a success.
pub open spec fn is_success(status: u16) -> bool {
    200 <= status <= 299
}

/// The record of a failed download.
pub open spec fn failed_record(s: DownloadView, message: Seq<char>) -> ProgressView {
    ProgressView {
        total_bytes: s.total_bytes,
        downloaded_bytes: s.downloaded_bytes,
        percentage: 0,
        phase: DownloadPhase::Failed,
        message: Some(message),
    }
}

/// The outcome of a failure: the download is in phase Failed, a record says
/// so, and an error carries `error`.
pub open spec fn failure(s: DownloadView, message: Seq<char>, error: Seq<char>) -> Outcome {
    Outcome {
        state: DownloadView { phase: DownloadPhase::Failed, ..s },
        report: Some(failed_record(s, message)),
        failure: Some(error),
    }
}

/// The outcome of an event that does not belong to the phase: nothing changes.
pub open spec fn ignored(s: DownloadView) -> Outcome {
    Outcome { state: s, report: None, failure: None }
}

/// The transition function of a download.
pub open spec fn step(s: DownloadView, event: DownloadEvent) -> Outcome {
    match event {
        DownloadEvent::ConnectFailed { cause, detail } => if s.phase == DownloadPhase::Connecting {
            failure(s, "Connection failed: "@ + detail, connect_failure_text(cause, detail))
        } else {
            ignored(s)
        },
        DownloadEvent::Response { status, content_length } => if s.phase
            != DownloadPhase::Connecting {
            ignored(s)
        } else if is_success(status) {
            Outcome {
                state: DownloadView {
                    phase: DownloadPhase::Downloading,
                    total_bytes: content_length,
                    ..s
                },
                report: Some(
                    ProgressView {
                        total_bytes: content_length,
                        downloaded_bytes: s.downloaded_bytes,
                        percentage: 0,
                        phase: DownloadPhase::Downloading,
                        message: Some(transfer_start_text(content_length)),
                    },
                ),
                failure: None,
            }
        } else {
            failure(
                s,
                status_failure_text(status, s.source),
                status_failure_text(status, s.source),
            )
        },
        DownloadEvent::Chunk { len } => if s.phase != DownloadPhase::Downloading {
            ignored(s)
        } else if s.downloaded_bytes + len > u64::MAX {
            failure(
                s,
                "Download failed: the body is too large"@,
                "Failed to read response bytes: the body is too large"@,
            )
        } else {
            let after = (s.downloaded_bytes + len) as u64;
            Outcome {
                state: DownloadView { downloaded_bytes: after, ..s },
                report: if report_due(s.total_bytes, s.downloaded_bytes, after) {
                    Some(
                        ProgressView {
                            total_bytes: s.total_bytes,
                            downloaded_bytes: after,
                            percentage: percent_of(s.total_bytes, after),
                            phase: DownloadPhase::Downloading,
                            message: Some(transfer_text(s.total_bytes, after)),
                        },
                    )
                } else {
                    None
                },
                failure: None,
            }
        },
        DownloadEvent::ChunkFailed { detail } => if s.phase == DownloadPhase::Downloading {
            failure(s, "Download failed: "@ + detail, "Failed to read response bytes: "@ + detail)
        } else {
            ignored(s)
        },
        DownloadEvent::BodyFinished => if s.phase == DownloadPhase::Downloading {
            Outcome {
                state: DownloadView { phase: DownloadPhase::Processing, ..s },
                report: Some(
                    ProgressView {
                        total_bytes: s.total_bytes,
                        downloaded_bytes: s.downloaded_bytes,
                        percentage: settled_percent(s.total_bytes),
                        phase: DownloadPhase::Processing,
                        message: Some("Processing downloaded model..."@),
                    },
                ),
                failure: None,
            }
        } else {
            ignored(s)
        },
        DownloadEvent::CacheStarted => if s.phase == DownloadPhase::Processing {
            Outcome {
                state: DownloadView { phase: DownloadPhase::Caching, ..s },
                report: Some(
                    ProgressView {
                        total_bytes: s.total_bytes,
                        downloaded_bytes: s.downloaded_bytes,
                        percentage: settled_percent(s.total_bytes),
                        phase: DownloadPhase::Caching,
                        message: Some("Saving model to cache..."@),
                    },
                ),
                failure: None,
            }
        } else {
            ignored(s)
        },
        DownloadEvent::Finished => if s.phase == DownloadPhase::Processing || s.phase
            == DownloadPhase::Caching {
            Outcome {
                state: DownloadView {
                    phase: DownloadPhase::Completed,
                    total_bytes: Some(s.downloaded_bytes),
                    ..s
                },
                report: Some(
                    ProgressView {
                        total_bytes: Some(s.downloaded_bytes),
                        downloaded_bytes: s.downloaded_bytes,
                        percentage: 100,
                        phase: DownloadPhase::Completed,
                        message: Some("Download completed successfully!"@),
                    },
                ),
                failure: None,
            }
        } else {
            ignored(s)
        },
        DownloadEvent::Aborted { detail } => if s.phase.is_terminal() {
            ignored(s)
        } else {
            failure(s, "Download failed: "@ + detail, detail)
        },
    }
}

/// What the caller gets back for an event: the progress record to publish, if
/// one is due, and the error with which the download failed, if it did. The
/// error is always of the kind `ModelLoad`.
#[derive(Debug)]
pub struct DownloadStep {
    pub report: Option<DownloadProgress>,
    pub error: Option<InferenceError>,
}

impl DownloadStep {
    /// Whether this answer is the one that `outcome` describes.
    pub open spec fn reflects(&self, outcome: Outcome) -> bool {
        &&& match self.report {
            Some(r) => outcome.report == Some(r@),
            None => outcome.report is None,
        }
        &&& match self.error {
            Some(e) => e matches InferenceError::ModelLoad(m) && outcome.failure == Some(m@),
            None => outcome.failure is None,
        }
    }
}

/// The share of a download that was received, in whole percent.
pub fn percent(total: Option<u64>, downloaded: u64) -> (r: u8)
    ensures
        r == percent_of(total, downloaded),
        r <= 100,
{
    match total {
        Some(t) => {
            if t == 0 {
                0
            } else if downloaded >= t {
                100
            } else {
                let scaled: u128 = (downloaded as u128) * 100;
                let share: u128 = scaled / (t as u128);
                assert(share < 100) by (nonlinear_arith)
                    requires
                        share == (downloaded * 100) / (t as int),
                        0 <= downloaded < t,
                ;
                share as u8
            }
        },
        None => 0,
    }
}

/// Tests whether a chunk makes a progress record due.
pub fn is_report_due(total: Option<u64>, before: u64, after: u64) -> (r: bool)
    ensures
        r == report_due(total, before, after),
{
    after / REPORT_INTERVAL > before / REPORT_INTERVAL || percent(total, after) / 10 > percent(
        total,
        before,
    ) / 10
}

/// One download: where it loads from, its phase and its byte counts.
#[derive(Debug)]
pub struct Download {
    source: String,
    phase: DownloadPhase,
    total_bytes: Option<u64>,
    downloaded_bytes: u64,
}

impl View for Download {
    type V = DownloadView;

    closed spec fn view(&self) -> DownloadView {
        DownloadView {
            source: self.source@,
            phase: self.phase,
            total_bytes: self.total_bytes,
            downloaded_bytes: self.downloaded_bytes,
        }
    }
}

/// The download that has not yet connected.
pub open spec fn initial(source: Seq<char>) -> DownloadView {
    DownloadView {
        source,
        phase: DownloadPhase::Connecting,
        total_bytes: None,
        downloaded_bytes: 0,
    }
}

/// The first record of every download.
pub open spec fn initial_record() -> ProgressView {
    ProgressView {
        total_bytes: None,
        downloaded_bytes: 0,
        percentage: 0,
        phase: DownloadPhase::Connecting,
        message: Some("Connecting to server..."@),
    }
}

impl Download {
    /// Begins a download from `source`: it is in phase Connecting, and the
    /// first record says so.
    pub fn start(source: &str) -> (r: (Download, DownloadProgress))
        ensures
            r.0@ == initial(source@),
            r.1@ == initial_record(),
    {
        let download = Download {
            source: source.to_owned(),
            phase: DownloadPhase::Connecting,
            total_bytes: None,
            downloaded_bytes: 0,
        };
        let record = DownloadProgress {
            total_bytes: None,
            downloaded_bytes: 0,
            percentage: 0,
            phase: DownloadPhase::Connecting,
            message: Some("Connecting to server...".to_owned()),
        };
        (download, record)
    }

    /// The phase of the download.
    pub fn phase(&self) -> (r: DownloadPhase)
        ensures
            r == self@.phase,
    {
        self.phase
    }

    /// The total size, once the server has announced it.
    pub fn total_bytes(&self) -> (r: Option<u64>)
        ensures
            r == self@.total_bytes,
    {
        self.total_bytes
    }

    /// The number of bytes received.
    pub fn downloaded_bytes(&self) -> (r: u64)
        ensures
            r == self@.downloaded_bytes,
    {
        self.downloaded_bytes
    }

    /// Moves to phase Failed, with a record that holds `message` and an error
    /// that holds `error`.
    fn fail(&mut self, message: String, error: String) -> (r: DownloadStep)
        ensures
            r.reflects(failure(old(self)@, message@, error@)),
            final(self)@ == failure(old(self)@, message@, error@).state,
    {
        let record = DownloadProgress {
            total_bytes: self.total_bytes,
            downloaded_bytes: self.downloaded_bytes,
            percentage: 0,
            phase: DownloadPhase::Failed,
            message: Some(message),
        };
        self.phase = DownloadPhase::Failed;
        DownloadStep { report: Some(record), error: Some(InferenceError::ModelLoad(error)) }
    }

    /// No connection could be made: `cause` says why, `detail` is the text of
    /// the transport's error.
    #[verifier::rlimit(50)]
    pub fn on_connect_failed(&mut self, cause: FailureCause, detail: &str) -> (r: DownloadStep)
        ensures
            r.reflects(
                step(old(self)@, DownloadEvent::ConnectFailed { cause, detail: detail@ }),
            ),
            final(self)@ == step(
                old(self)@,
                DownloadEvent::ConnectFailed { cause, detail: detail@ },
            ).state,
    {
        if self.phase != DownloadPhase::Connecting {
            return DownloadStep { report: None, error: None };
        }
        let mut message = String::new();
        message.append("Connection failed: ");
        message.append(detail);
        let mut error = String::new();
        match cause {
            FailureCause::Connect => {
                error.append("Failed to connect to HuggingFace: ");
                error.append(detail);
                error.append(". Please check your internet connection.");
            },
            FailureCause::Timeout => {
                error.append("Download timeout: ");
                error.append(detail);
                error.append(". The model file might be very large.");
            },
            FailureCause::Request => {
                error.append("Request error: ");
                error.append(detail);
                error.append(". Please verify the repository and filename.");
            },
            FailureCause::Other => {
                error.append("Network error: ");
                error.append(detail);
            },
        }
        assert(message@ =~= "Connection failed: "@ + detail@);
        assert(error@ =~= connect_failure_text(cause, detail@));
        self.fail(message, error)
    }

    /// The text of the error for an answer that is no success.
    fn status_failure(&self, status: u16) -> (r: String)
        ensures
            r@ == status_failure_text(status, self@.source),
    {
        let mut error = String::new();
        if status == 404 {
            error.append("Model not found (404): ");
            error.append(self.source.as_str());
            error.append(". Please check the repository name and filename.");
        } else if status == 403 {
            error.append("Access denied (403): ");
            error.append(self.source.as_str());
            error.append(". The model might be private or require authentication.");
        } else {
            error.append("HTTP error ");
            push_decimal(&mut error, status as u64);
            error.append(": Failed to download model from ");
            error.append(self.source.as_str());
        }
        assert(error@ =~= status_failure_text(status, self@.source));
        error
    }

    /// The server answered with `status` and, if it gave one, the length of
    /// the body.
    #[verifier::rlimit(50)]
    pub fn on_response(&mut self, status: u16, content_length: Option<u64>) -> (r: DownloadStep)
        ensures
            r.reflects(step(old(self)@, DownloadEvent::Response { status, content_length })),
            final(self)@ == step(
                old(self)@,
                DownloadEvent::Response { status, content_length },
            ).state,
    {
        if self.phase != DownloadPhase::Connecting {
            return DownloadStep { report: None, error: None };
        }
        if status < 200 || status > 299 {
            let message = self.status_failure(status);
            let error = self.status_failure(status);
            return self.fail(message, error);
        }
        let mut message = String::new();
        match content_length {
            Some(t) => {
                message.append("Downloading model (");
                push_decimal(&mut message, t);
                message.append(" bytes)");
            },
            None => {
                message.append("Downloading model...");
            },
        }
        assert(message@ =~= transfer_start_text(content_length));
        self.phase = DownloadPhase::Downloading;
        self.total_bytes = content_length;
        let record = DownloadProgress {
            total_bytes: content_length,
            downloaded_bytes: self.downloaded_bytes,
            percentage: 0,
            phase: DownloadPhase::Downloading,
            message: Some(message),
        };
        DownloadStep { report: Some(record), error: None }
    }

    /// A chunk of `len` bytes arrived.
    #[verifier::rlimit(50)]
    pub fn on_chunk(&mut self, len: u64) -> (r: DownloadStep)
        ensures
            r.reflects(step(old(self)@, DownloadEvent::Chunk { len })),
            final(self)@ == step(old(self)@, DownloadEvent::Chunk { len }).state,
    {
        if self.phase != DownloadPhase::Downloading {
            return DownloadStep { report: None, error: None };
        }
        let before = self.downloaded_bytes;
        match before.checked_add(len) {
            None => self.fail(
                "Download failed: the body is too large".to_owned(),
                "Failed to read response bytes: the body is too large".to_owned(),
            ),
            Some(after) => {
                self.downloaded_bytes = after;
                if is_report_due(self.total_bytes, before, after) {
                    let mut message = String::new();
                    message.append("Downloaded ");
                    push_decimal(&mut message, after);
                    match self.total_bytes {
                        Some(t) => {
                            message.append(" of ");
                            push_decimal(&mut message, t);
                        },
                        None => {},
                    }
                    message.append(" bytes");
                    assert(message@ =~= transfer_text(self.total_bytes, after));
                    let record = DownloadProgress {
                        total_bytes: self.total_bytes,
                        downloaded_bytes: after,
                        percentage: percent(self.total_bytes, after),
                        phase: DownloadPhase::Downloading,
                        message: Some(message),
                    };
                    DownloadStep { report: Some(record), error: None }
                } else {
                    DownloadStep { report: None, error: None }
                }
            },
        }
    }

    /// Reading the body failed; `detail` is the text of the transport's error.
    pub fn on_chunk_failed(&mut self, detail: &str) -> (r: DownloadStep)
        ensures
            r.reflects(step(old(self)@, DownloadEvent::ChunkFailed { detail: detail@ })),
            final(self)@ == step(old(self)@, DownloadEvent::ChunkFailed { detail: detail@ }).state,
    {
        if self.phase != DownloadPhase::Downloading {
            return DownloadStep { report: None, error: None };
        }
        let mut message = String::new();
        message.append("Download failed: ");
        message.append(detail);
        let mut error = String::new();
        error.append("Failed to read response bytes: ");
        error.append(detail);
        assert(message@ =~= "Download failed: "@ + detail@);
        assert(error@ =~= "Failed to read response bytes: "@ + detail@);
        self.fail(message, error)
    }

    /// The percentage shown once the transfer has ended.
    fn settled(&self) -> (r: u8)
        ensures
            r == settled_percent(self@.total_bytes),
    {
        if self.total_bytes.is_some() {
            100
        } else {
            0
        }
    }

    /// The body is complete.
    pub fn on_body_finished(&mut self) -> (r: DownloadStep)
        ensures
            r.reflects(step(old(self)@, DownloadEvent::BodyFinished)),
            final(self)@ == step(old(self)@, DownloadEvent::BodyFinished).state,
    {
        if self.phase != DownloadPhase::Downloading {
            return DownloadStep { report: None, error: None };
        }
        self.phase = DownloadPhase::Processing;
        let record = DownloadProgress {
            total_bytes: self.total_bytes,
            downloaded_bytes: self.downloaded_bytes,
            percentage: self.settled(),
            phase: DownloadPhase::Processing,
            message: Some("Processing downloaded model...".to_owned()),
        };
        DownloadStep { report: Some(record), error: None }
    }

    /// The bytes are being written to the cache.
    pub fn on_cache_started(&mut self) -> (r: DownloadStep)
        ensures
            r.reflects(step(old(self)@, DownloadEvent::CacheStarted)),
            final(self)@ == step(old(self)@, DownloadEvent::CacheStarted).state,
    {
        if self.phase != DownloadPhase::Processing {
            return DownloadStep { report: None, error: None };
        }
        self.phase = DownloadPhase::Caching;
        let record = DownloadProgress {
            total_bytes: self.total_bytes,
            downloaded_bytes: self.downloaded_bytes,
            percentage: self.settled(),
            phase: DownloadPhase::Caching,
            message: Some("Saving model to cache...".to_owned()),
        };
        DownloadStep { report: Some(record), error: None }
    }

    /// The bytes were handed on: the download is complete.
    pub fn on_finished(&mut self) -> (r: DownloadStep)
        ensures
            r.reflects(step(old(self)@, DownloadEvent::Finished)),
            final(self)@ == step(old(self)@, DownloadEvent::Finished).state,
    {
        if self.phase != DownloadPhase::Processing && self.phase != DownloadPhase::Caching {
            return DownloadStep { report: None, error: None };
        }
        self.phase = DownloadPhase::Completed;
        self.total_bytes = Some(self.downloaded_bytes);
        let record = DownloadProgress {
            total_bytes: Some(self.downloaded_bytes),
            downloaded_bytes: self.downloaded_bytes,
            percentage: 100,
            phase: DownloadPhase::Completed,
            message: Some("Download completed successfully!".to_owned()),
        };
        DownloadStep { report: Some(record), error: None }
    }

    /// The caller gives the download up; `detail` becomes the message of the
    /// error.
    pub fn abort(&mut self, detail: &str) -> (r: DownloadStep)
        ensures
            r.reflects(step(old(self)@, DownloadEvent::Aborted { detail: detail@ })),
            final(self)@ == step(old(self)@, DownloadEvent::Aborted { detail: detail@ }).state,
    {
        if self.phase.terminal() {
            return DownloadStep { report: None, error: None };
        }
        let mut message = String::new();
        message.append("Download failed: ");
        message.append(detail);
        assert(message@ =~= "Download failed: "@ + detail@);
        self.fail(message, detail.to_owned())
    }
}

/// The download after a run of events.
pub open spec fn run_state(s: DownloadView, events: Seq<DownloadEvent>) -> DownloadView
    decreases events.len(),
{
    if events.len() == 0 {
        s
    } else {
        step(run_state(s, events.drop_last()), events.last()).state
    }
}

/// The progress records that a run of events publishes, in their order.
pub open spec fn run_reports(s: DownloadView, events: Seq<DownloadEvent>) -> Seq<ProgressView>
    decreases events.len(),
{
    if events.len() == 0 {
        Seq::empty()
    } else {
        let earlier = run_reports(s, events.drop_last());
        match step(run_state(s, events.drop_last()), events.last()).report {
            Some(r) => earlier.push(r),
            None => earlier,
        }
    }
}

/// One event never lowers the count of received bytes, never moves a download
/// back to an earlier phase and never moves it out of a phase in which it has
/// ended; a record that it publishes shows the download as it is after the
/// event, with a percentage of at most one hundred.
#[verifier::rlimit(50)]
pub proof fn lemma_step_advances(s: DownloadView, event: DownloadEvent)
    ensures
        step(s, event).state.source == s.source,
        step(s, event).state.downloaded_bytes >= s.downloaded_bytes,
        step(s, event).state.phase.rank() >= s.phase.rank(),
        s.phase.is_terminal() ==> step(s, event) == ignored(s),
        step(s, event).failure is Some <==> step(s, event).state.phase == DownloadPhase::Failed
            && s.phase != DownloadPhase::Failed,
        step(s, event).report matches Some(r) ==> {
            &&& r.percentage <= 100
            &&& r.downloaded_bytes == step(s, event).state.downloaded_bytes
            &&& r.phase == step(s, event).state.phase
            &&& r.phase == DownloadPhase::Completed ==> r.total_bytes == Some(r.downloaded_bytes)
                && r.percentage == 100
        },
        step(s, event).state.phase != s.phase ==> step(s, event).report is Some,
{
    match event {
        DownloadEvent::Chunk { len } => {
            if s.phase == DownloadPhase::Downloading && s.downloaded_bytes + len <= u64::MAX {
                let after = (s.downloaded_bytes + len) as u64;
                lemma_percent_bound(s.total_bytes, after);
            }
        },
        _ => {},
    }
}

/// A percentage is at most one hundred.
pub proof fn lemma_percent_bound(total: Option<u64>, downloaded: u64)
    ensures
        percent_of(total, downloaded) <= 100,
{
    match total {
        Some(t) => {
            if t != 0 && downloaded < t {
                let share = (downloaded * 100) / (t as int);
                assert(share < 100) by (nonlinear_arith)
                    requires
                        share == (downloaded * 100) / (t as int),
                        0 <= downloaded < t,
                ;
            }
        },
        None => {},
    }
}

/// Along any run of events, from any state: every record shows a count of
/// received bytes between the count at the start and the count at the end,
/// and a percentage of at most one hundred; and the counts of the records
/// never decrease from one record to a later one.
pub proof fn lemma_run_is_monotone(s: DownloadView, events: Seq<DownloadEvent>)
    ensures
        run_state(s, events).downloaded_bytes >= s.downloaded_bytes,
        run_state(s, events).phase.rank() >= s.phase.rank(),
        forall|i: int|
            0 <= i < run_reports(s, events).len() ==> {
                &&& (#[trigger] run_reports(s, events)[i]).percentage <= 100
                &&& s.downloaded_bytes <= run_reports(s, events)[i].downloaded_bytes
                &&& run_reports(s, events)[i].downloaded_bytes <= run_state(
                    s,
                    events,
                ).downloaded_bytes
            },
        forall|i: int, j: int|
            0 <= i <= j < run_reports(s, events).len() ==> (#[trigger] run_reports(
                s,
                events,
            )[i]).downloaded_bytes <= (#[trigger] run_reports(s, events)[j]).downloaded_bytes,
    decreases events.len(),
{
    if events.len() > 0 {
        let earlier = events.drop_last();
        lemma_run_is_monotone(s, earlier);
        lemma_step_advances(run_state(s, earlier), events.last());
    }
}

/// A run that began with a new download and ended in phase Completed, having
/// received `n` bytes, published a last record, and that record is in phase
/// Completed, shows `n` bytes received of `n` in total, and one hundred
/// percent.
pub proof fn lemma_completed_run(source: Seq<char>, events: Seq<DownloadEvent>, n: u64)
    requires
        run_state(initial(source), events).phase == DownloadPhase::Completed,
        run_state(initial(source), events).downloaded_bytes == n,
    ensures
        run_reports(initial(source), events).len() > 0,
        run_reports(initial(source), events).last().phase == DownloadPhase::Completed,
        run_reports(initial(source), events).last().downloaded_bytes == n,
        run_reports(initial(source), events).last().total_bytes == Some(n),
        run_reports(initial(source), events).last().percentage == 100,
    decreases events.len(),
{
    let s = initial(source);
    if events.len() > 0 {
        let earlier = events.drop_last();
        let before = run_state(s, earlier);
        lemma_step_advances(before, events.last());
        if before.phase == DownloadPhase::Completed {
            lemma_completed_run(source, earlier, n);
        }
    }
}

} // verus!
