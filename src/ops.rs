use vstd::prelude::*;

use crate::dispatch::BatchPolicy;
use crate::error::CliError;

verus! {

/// A power signal that a server can be sent.
#[derive(PartialEq, Eq, Structural, Clone, Copy, Debug)]
pub enum PowerSignal {
    Kill,
    Start,
    Stop,
    Restart,
}

/// The signal that `s` names, if any.
pub open spec fn signal_of(s: Seq<char>) -> Option<PowerSignal> {
    if s == "kill"@ {
        Some(PowerSignal::Kill)
    } else if s == "start"@ {
        Some(PowerSignal::Start)
    } else if s == "stop"@ {
        Some(PowerSignal::Stop)
    } else if s == "restart"@ {
        Some(PowerSignal::Restart)
    } else {
        None
    }
}

/// Reads one of `kill`, `start`, `stop`, `restart`.
pub fn parse_power_signal(s: &str) -> (r: Option<PowerSignal>)
    ensures
        r == signal_of(s@),
{
    proof {
        reveal_strlit("kill");
        reveal_strlit("start");
        reveal_strlit("stop");
        reveal_strlit("restart");
    }
    let t = String::from_str(s);
    if t == String::from_str("kill") {
        Some(PowerSignal::Kill)
    } else if t == String::from_str("start") {
        Some(PowerSignal::Start)
    } else if t == String::from_str("stop") {
        Some(PowerSignal::Stop)
    } else if t == String::from_str("restart") {
        Some(PowerSignal::Restart)
    } else {
        None
    }
}

/// The options of a backup to be created.
#[derive(Debug)]
pub struct BackupRequest {
    pub name: Option<String>,
    pub locked: bool,
}

/// The options of a backup: named only when a name is given, locked on request.
pub fn backup_request(name: Option<String>, lock: bool) -> (r: BackupRequest)
    ensures
        r.name == name,
        r.locked == lock,
{
    BackupRequest { name, locked: lock }
}

/// The 128-bit value of the identifier that a text spells, as
/// `uuid::Uuid::try_parse` reads it, or nothing.
pub uninterp spec fn uuid_parse_of(s: Seq<char>) -> Option<u128>;

/// Relies on `uuid::Uuid::try_parse` (read through `as_u128`): the identifier
/// that the text spells, hyphenated or not, as its 128-bit value.
#[verifier::external_body]
fn try_parse_uuid(s: &str) -> (r: Option<u128>)
    ensures
        r == uuid_parse_of(s@),
{
    uuid::Uuid::try_parse(s).ok().map(|u| u.as_u128())
}

/// Reads the identifier of a backup.
pub fn parse_backup_id(s: &str) -> (r: Result<u128, CliError>)
    ensures
        match r {
            Ok(id) => uuid_parse_of(s@) == Some(id),
            Err(e) => uuid_parse_of(s@) is None && e is MalformedBackupId,
        },
{
    match try_parse_uuid(s) {
        Some(id) => Ok(id),
        None => Err(CliError::MalformedBackupId),
    }
}

/// One operation that a fan-out performs on each server.
#[derive(Debug)]
pub enum Operation {
    PowerSignal(PowerSignal),
    SendCommand(String),
    DeleteFiles(Vec<String>),
    CreateBackup(BackupRequest),
    ListBackups,
    DeleteBackup(u128),
}

/// Listing is read-only and goes on past a failed server; every operation
/// that changes a server stops at the first failure.
pub open spec fn policy_of(op: &Operation) -> BatchPolicy {
    match op {
        Operation::ListBackups => BatchPolicy::ContinueAndCollect,
        _ => BatchPolicy::AbortOnFirstFailure,
    }
}

/// The policy under which `op` is fanned out.
pub fn policy_for(op: &Operation) -> (r: BatchPolicy)
    ensures
        r == policy_of(op),
{
    match op {
        Operation::ListBackups => BatchPolicy::ContinueAndCollect,
        _ => BatchPolicy::AbortOnFirstFailure,
    }
}

} // verus!
