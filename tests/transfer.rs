use pterocli::error::CliError;
use pterocli::location::RemotePath;
use pterocli::transfer::{
    download_step, is_scoped_path, upload_directory, upload_step, TransferAction, TransferEvent,
    TransferPhase,
};

fn loc(path: &str) -> RemotePath {
    RemotePath { uid: "srv1".to_string(), path: path.to_string() }
}

#[test]
fn root_and_dot_are_not_scoped() {
    assert!(!is_scoped_path("/"));
    assert!(!is_scoped_path("."));
    assert!(is_scoped_path("/data"));
    assert!(is_scoped_path(""));
    assert!(is_scoped_path("./"));
}

#[test]
fn upload_to_root_sends_no_directory() {
    assert_eq!(upload_directory(&loc("/")), None);
    assert_eq!(upload_directory(&loc(".")), None);
    assert_eq!(upload_directory(&loc("/plugins")), Some("/plugins".to_string()));
}

#[test]
fn upload_root_posts_without_directory() {
    let (phase, action) = upload_step(
        TransferPhase::AwaitingUrl,
        &loc("/"),
        TransferEvent::UrlGranted("https://panel/upload?token=x".to_string()),
    );
    assert_eq!(phase, TransferPhase::Transferring);
    match action {
        TransferAction::PostFile { url, directory } => {
            assert_eq!(url, "https://panel/upload?token=x");
            assert_eq!(directory, None);
        }
        _ => panic!("expected a post"),
    }
}

#[test]
fn upload_scoped_posts_with_directory() {
    let (_, action) = upload_step(
        TransferPhase::AwaitingUrl,
        &loc("/world"),
        TransferEvent::UrlGranted("u".to_string()),
    );
    match action {
        TransferAction::PostFile { directory, .. } => assert_eq!(directory.as_deref(), Some("/world")),
        _ => panic!("expected a post"),
    }
}

#[test]
fn upload_answers() {
    let (p, a) = upload_step(TransferPhase::Transferring, &loc("/"), TransferEvent::Response(200));
    assert_eq!(p, TransferPhase::Finished);
    assert!(matches!(a, TransferAction::Finish));
    let (p, a) = upload_step(TransferPhase::Transferring, &loc("/"), TransferEvent::Response(413));
    assert_eq!(p, TransferPhase::Failed);
    assert!(matches!(a, TransferAction::Fail(CliError::TransferHttpError(413))));
    let (p, a) = upload_step(
        TransferPhase::AwaitingUrl,
        &loc("/"),
        TransferEvent::UrlRefused("forbidden".to_string()),
    );
    assert_eq!(p, TransferPhase::Failed);
    assert!(matches!(a, TransferAction::Fail(CliError::RemoteApiError(m)) if m == "forbidden"));
    let (_, a) = upload_step(
        TransferPhase::Transferring,
        &loc("/"),
        TransferEvent::LocalIoFailed("no such file".to_string()),
    );
    assert!(matches!(a, TransferAction::Fail(CliError::LocalIoError(m)) if m == "no such file"));
}

#[test]
fn download_refused_url_touches_no_file() {
    let (p, a) = download_step(
        TransferPhase::AwaitingUrl,
        TransferEvent::UrlRefused("file not found".to_string()),
    );
    assert_eq!(p, TransferPhase::Failed);
    assert!(matches!(a, TransferAction::Fail(CliError::RemoteApiError(m)) if m == "file not found"));
}

#[test]
fn download_happy_path() {
    let (p, a) = download_step(TransferPhase::AwaitingUrl, TransferEvent::UrlGranted("u".to_string()));
    assert_eq!(p, TransferPhase::Transferring);
    assert!(matches!(a, TransferAction::Fetch(u) if u == "u"));
    let (p, a) = download_step(p, TransferEvent::Response(204));
    assert_eq!(p, TransferPhase::Writing);
    assert!(matches!(a, TransferAction::CreateFile));
    let (p, a) = download_step(p, TransferEvent::Saved);
    assert_eq!(p, TransferPhase::Finished);
    assert!(matches!(a, TransferAction::Finish));
}

#[test]
fn download_status_edges() {
    let (_, a) = download_step(TransferPhase::Transferring, TransferEvent::Response(299));
    assert!(matches!(a, TransferAction::CreateFile));
    let (_, a) = download_step(TransferPhase::Transferring, TransferEvent::Response(300));
    assert!(matches!(a, TransferAction::Fail(CliError::TransferHttpError(300))));
    let (_, a) = download_step(TransferPhase::Transferring, TransferEvent::Response(199));
    assert!(matches!(a, TransferAction::Fail(CliError::TransferHttpError(199))));
    let (_, a) = download_step(TransferPhase::Transferring, TransferEvent::Response(404));
    assert!(matches!(a, TransferAction::Fail(CliError::TransferHttpError(404))));
}

#[test]
fn download_write_failure_removes_partial() {
    let (p, a) = download_step(TransferPhase::Writing, TransferEvent::LocalIoFailed("disk full".to_string()));
    assert_eq!(p, TransferPhase::Failed);
    assert!(matches!(a, TransferAction::RemovePartial(CliError::LocalIoError(m)) if m == "disk full"));
    let (_, a) = download_step(
        TransferPhase::Transferring,
        TransferEvent::TransportFailed("reset".to_string()),
    );
    assert!(matches!(a, TransferAction::Fail(CliError::RemoteApiError(m)) if m == "reset"));
}
