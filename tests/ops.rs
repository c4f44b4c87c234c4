use pterocli::dispatch::BatchPolicy;
use pterocli::error::CliError;
use pterocli::ops::{
    backup_request, parse_backup_id, parse_power_signal, policy_for, BackupRequest, Operation,
    PowerSignal,
};

#[test]
fn power_signals_are_read() {
    assert_eq!(parse_power_signal("kill"), Some(PowerSignal::Kill));
    assert_eq!(parse_power_signal("start"), Some(PowerSignal::Start));
    assert_eq!(parse_power_signal("stop"), Some(PowerSignal::Stop));
    assert_eq!(parse_power_signal("restart"), Some(PowerSignal::Restart));
}

#[test]
fn unknown_power_signal_is_refused() {
    assert_eq!(parse_power_signal("Kill"), None);
    assert_eq!(parse_power_signal(""), None);
    assert_eq!(parse_power_signal("restart "), None);
}

#[test]
fn backup_id_hyphenated() {
    let id = parse_backup_id("550e8400-e29b-41d4-a716-446655440000").unwrap();
    assert_eq!(id, 0x550e8400_e29b_41d4_a716_446655440000u128);
}

#[test]
fn backup_id_simple() {
    let id = parse_backup_id("550e8400e29b41d4a716446655440000").unwrap();
    assert_eq!(id, 0x550e8400_e29b_41d4_a716_446655440000u128);
}

#[test]
fn malformed_backup_id() {
    assert!(matches!(parse_backup_id("not-a-uuid"), Err(CliError::MalformedBackupId)));
    assert!(matches!(parse_backup_id(""), Err(CliError::MalformedBackupId)));
}

#[test]
fn backup_request_options() {
    let r = backup_request(Some("nightly".to_string()), true);
    assert_eq!(r.name.as_deref(), Some("nightly"));
    assert!(r.locked);
    let r = backup_request(None, false);
    assert!(r.name.is_none());
    assert!(!r.locked);
}

#[test]
fn listing_continues_and_changes_abort() {
    assert_eq!(policy_for(&Operation::ListBackups), BatchPolicy::ContinueAndCollect);
    let changing = [
        Operation::PowerSignal(PowerSignal::Stop),
        Operation::SendCommand("say hi".to_string()),
        Operation::DeleteFiles(vec!["/a".to_string()]),
        Operation::CreateBackup(BackupRequest { name: None, locked: false }),
        Operation::DeleteBackup(7),
    ];
    for op in changing.iter() {
        assert_eq!(policy_for(op), BatchPolicy::AbortOnFirstFailure);
    }
}
