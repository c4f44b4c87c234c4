use pterocli::backup::{backup_rows, render_backup_table, BackupRecord};

fn record(name: &str, locked: bool) -> BackupRecord {
    BackupRecord {
        name: name.to_string(),
        uuid: 0x550e8400_e29b_41d4_a716_446655440000u128,
        created_at: "2024-01-02 3:04:05.0 +00:00:00".to_string(),
        is_locked: locked,
    }
}

#[test]
fn rows_hold_titles_then_backups() {
    let rows = backup_rows("srv1", &vec![record("nightly", true), record("weekly", false)]);
    assert_eq!(rows.len(), 3);
    assert_eq!(rows[0], vec!["Backup name", "Server UID", "Backup UUID", "Created at", "Is locked?"]);
    assert_eq!(
        rows[1],
        vec![
            "nightly",
            "srv1",
            "550e8400-e29b-41d4-a716-446655440000",
            "2024-01-02 3:04:05.0 +00:00:00",
            "true"
        ]
    );
    assert_eq!(rows[2][0], "weekly");
    assert_eq!(rows[2][1], "srv1");
    assert_eq!(rows[2][4], "false");
}

#[test]
fn rows_of_no_backup() {
    let rows = backup_rows("srv1", &Vec::new());
    assert_eq!(rows.len(), 1);
}

#[test]
fn table_is_drawn() {
    let text = render_backup_table("srv1", &vec![record("nightly", false)]);
    assert!(text.contains("Backup name"));
    assert!(text.contains("550e8400-e29b-41d4-a716-446655440000"));
    assert!(text.contains("nightly"));
    assert!(text.starts_with('.'));
    assert!(text.ends_with('\''));
    assert!(text.lines().count() >= 4);
}
