use vstd::prelude::*;

use crate::error::CliError;
use crate::location::RemotePath;

verus! {

/// The path is neither the root `/` nor the current directory `.`.
pub open spec fn scoped(path: Seq<char>) -> bool {
    path != "/"@ && path != "."@
}

/// Whether an upload to `path` names a directory of its own.
pub fn is_scoped_path(path: &str) -> (r: bool)
    ensures
        r == scoped(path@),
{
    proof {
        reveal_strlit("/");
        reveal_strlit(".");
    }
    let p = String::from_str(path);
    !(p == String::from_str("/")) && !(p == String::from_str("."))
}

/// The directory an upload to `loc` is scoped to: its path, unless that is
/// `/` or `.`, where no directory is sent.
pub fn upload_directory(loc: &RemotePath) -> (r: Option<String>)
    ensures
        r is Some <==> scoped(loc.path@),
        r matches Some(d) ==> d@ == loc.path@,
{
    if is_scoped_path(loc.path.as_str()) {
        Some(loc.path.clone())
    } else {
        None
    }
}

/// An HTTP status of the 2xx class.
pub open spec fn is_success(status: u16) -> bool {
    200 <= status < 300
}

/// Where a transfer stands.
#[derive(PartialEq, Eq, Structural, Clone, Copy, Debug)]
pub enum TransferPhase {
    /// A signed URL has been asked of the panel.
    AwaitingUrl,
    /// The request against the signed URL has been made.
    Transferring,
    /// The body of a download is being written to the local file.
    Writing,
    Finished,
    Failed,
}

/// What came back from the last action.
pub enum TransferEvent {
    /// The panel handed out a signed URL.
    UrlGranted(String),
    /// The panel refused the URL or could not be reached.
    UrlRefused(String),
    /// The transfer request was answered with this status.
    Response(u16),
    /// The transfer request got no answer.
    TransportFailed(String),
    /// The local file is written in full.
    Saved,
    /// A local file could not be read, created or written.
    LocalIoFailed(String),
}

/// What the driver of a transfer is to do next.
pub enum TransferAction {
    /// Post the local file as the multipart field `files` to the URL, with
    /// the query parameter `directory` when one is given.
    PostFile { url: String, directory: Option<String> },
    /// Get the URL.
    Fetch(String),
    /// Create the local file and write the response body to it.
    CreateFile,
    /// Delete the partly written local file, then report the error.
    RemovePartial(CliError),
    /// Report the error; nothing local was touched.
    Fail(CliError),
    /// The transfer is complete.
    Finish,
}

/// The events a phase waits for.
pub open spec fn expects(phase: TransferPhase, event: TransferEvent) -> bool {
    match phase {
        TransferPhase::AwaitingUrl => event is UrlGranted || event is UrlRefused,
        TransferPhase::Transferring => event is Response || event is TransportFailed
            || event is LocalIoFailed,
        TransferPhase::Writing => event is Saved || event is LocalIoFailed,
        _ => false,
    }
}

/// The error that a refused URL or a lost request is reported as.
pub open spec fn remote_error(event: TransferEvent, e: CliError) -> bool {
    match event {
        TransferEvent::UrlRefused(m) => e matches CliError::RemoteApiError(n) && n@ == m@,
        TransferEvent::TransportFailed(m) => e matches CliError::RemoteApiError(n) && n@ == m@,
        _ => false,
    }
}

/// The action reports the error of `event` as a failed remote call.
pub open spec fn fails_remote(a: TransferAction, event: TransferEvent) -> bool {
    a matches TransferAction::Fail(e) && remote_error(event, e)
}

/// The action reports a transfer answered with status `s`.
pub open spec fn fails_http(a: TransferAction, s: u16) -> bool {
    a matches TransferAction::Fail(CliError::TransferHttpError(c)) && c == s
}

/// The action reports the local failure `m`, deleting a partial file first
/// when `partial` holds.
pub open spec fn fails_local(a: TransferAction, m: Seq<char>, partial: bool) -> bool {
    if partial {
        a matches TransferAction::RemovePartial(CliError::LocalIoError(n)) && n@ == m
    } else {
        a matches TransferAction::Fail(CliError::LocalIoError(n)) && n@ == m
    }
}

/// The action gets the URL `u`.
pub open spec fn fetches(a: TransferAction, u: Seq<char>) -> bool {
    a matches TransferAction::Fetch(v) && v@ == u
}

/// The action posts the file to `u`, scoped to the path of `loc` unless that
/// is `/` or `.`.
pub open spec fn posts(a: TransferAction, u: Seq<char>, loc: RemotePath) -> bool {
    match a {
        TransferAction::PostFile { url, directory } => url@ == u && (directory is Some <==> scoped(
            loc.path@,
        )) && (directory matches Some(d) ==> d@ == loc.path@),
        _ => false,
    }
}

/// One step of an upload to `loc`: ask for a signed URL, post the file to it,
/// and finish on a 2xx answer.
pub fn upload_step(phase: TransferPhase, loc: &RemotePath, event: TransferEvent) -> (r: (
    TransferPhase,
    TransferAction,
))
    requires
        expects(phase, event),
        phase != TransferPhase::Writing,
    ensures
        match event {
            TransferEvent::UrlGranted(u) => r.0 == TransferPhase::Transferring && posts(r.1, u@, *loc),
            TransferEvent::Response(s) => if is_success(s) {
                r.0 == TransferPhase::Finished && r.1 is Finish
            } else {
                r.0 == TransferPhase::Failed && fails_http(r.1, s)
            },
            TransferEvent::LocalIoFailed(m) => r.0 == TransferPhase::Failed && fails_local(r.1, m@, false),
            _ => r.0 == TransferPhase::Failed && fails_remote(r.1, event),
        },
{
    match event {
        TransferEvent::UrlGranted(u) => {
            let directory = upload_directory(loc);
            (TransferPhase::Transferring, TransferAction::PostFile { url: u, directory })
        },
        TransferEvent::UrlRefused(m) => (
            TransferPhase::Failed,
            TransferAction::Fail(CliError::RemoteApiError(m)),
        ),
        TransferEvent::Response(s) => {
            if 200 <= s && s < 300 {
                (TransferPhase::Finished, TransferAction::Finish)
            } else {
                (TransferPhase::Failed, TransferAction::Fail(CliError::TransferHttpError(s)))
            }
        },
        TransferEvent::TransportFailed(m) => (
            TransferPhase::Failed,
            TransferAction::Fail(CliError::RemoteApiError(m)),
        ),
        TransferEvent::LocalIoFailed(m) => (
            TransferPhase::Failed,
            TransferAction::Fail(CliError::LocalIoError(m)),
        ),
        TransferEvent::Saved => (TransferPhase::Finished, TransferAction::Finish),
    }
}

/// One step of a download: ask for a signed URL for the remote path, get
/// it, and only on a 2xx answer create the local file and write the body to
/// it. A failed write has the partial file deleted.
pub fn download_step(phase: TransferPhase, event: TransferEvent) -> (r: (
    TransferPhase,
    TransferAction,
))
    requires
        expects(phase, event),
    ensures
        r.1 is CreateFile <==> (phase == TransferPhase::Transferring && (event matches TransferEvent::Response(
            s,
        ) && is_success(s))),
        match event {
            TransferEvent::UrlGranted(u) => r.0 == TransferPhase::Transferring && fetches(r.1, u@),
            TransferEvent::Response(s) => if is_success(s) {
                r.0 == TransferPhase::Writing
            } else {
                r.0 == TransferPhase::Failed && fails_http(r.1, s)
            },
            TransferEvent::Saved => r.0 == TransferPhase::Finished && r.1 is Finish,
            TransferEvent::LocalIoFailed(m) => r.0 == TransferPhase::Failed && fails_local(
                r.1,
                m@,
                phase == TransferPhase::Writing,
            ),
            _ => r.0 == TransferPhase::Failed && fails_remote(r.1, event),
        },
{
    match event {
        TransferEvent::UrlGranted(u) => (TransferPhase::Transferring, TransferAction::Fetch(u)),
        TransferEvent::UrlRefused(m) => (
            TransferPhase::Failed,
            TransferAction::Fail(CliError::RemoteApiError(m)),
        ),
        TransferEvent::Response(s) => {
            if 200 <= s && s < 300 {
                (TransferPhase::Writing, TransferAction::CreateFile)
            } else {
                (TransferPhase::Failed, TransferAction::Fail(CliError::TransferHttpError(s)))
            }
        },
        TransferEvent::TransportFailed(m) => (
            TransferPhase::Failed,
            TransferAction::Fail(CliError::RemoteApiError(m)),
        ),
        TransferEvent::Saved => (TransferPhase::Finished, TransferAction::Finish),
        TransferEvent::LocalIoFailed(m) => {
            if phase == TransferPhase::Writing {
                (TransferPhase::Failed, TransferAction::RemovePartial(CliError::LocalIoError(m)))
            } else {
                (TransferPhase::Failed, TransferAction::Fail(CliError::LocalIoError(m)))
            }
        },
    }
}

} // verus!
