use vstd::prelude::*;

verus! {

/// Every failure the client can report to its operator.
#[derive(Debug)]
pub enum CliError {
    /// A remote location that is not of the form `<server-id>:<path>`.
    MalformedRemoteLocation,
    /// A backup identifier that is not a UUID.
    MalformedBackupId,
    /// The panel API refused a call or could not be reached; holds its message.
    RemoteApiError(String),
    /// A direct file-transfer request answered with a status outside 2xx.
    TransferHttpError(u16),
    /// A local file could not be created, read or written; holds the message.
    LocalIoError(String),
}

} // verus!
