use vstd::prelude::*;

use crate::servers::views;

verus! {

/// A backup as listed by the panel.
#[derive(Debug)]
pub struct BackupRecord {
    pub name: String,
    /// The backup's UUID as its 128-bit value.
    pub uuid: u128,
    /// When the backup was made, as the panel's timestamp text.
    pub created_at: String,
    pub is_locked: bool,
}

/// The hyphenated lower-case text of a UUID, as `uuid::Uuid`'s `Display` writes it.
pub uninterp spec fn uuid_text_of(id: u128) -> Seq<char>;

/// Relies on `uuid::Uuid::from_u128` and `Uuid`'s `Display`: the text of the
/// identifier depends on its value alone.
#[verifier::external_body]
fn uuid_text(id: u128) -> (r: String)
    ensures
        r@ == uuid_text_of(id),
{
    uuid::Uuid::from_u128(id).to_string()
}

/// The text that `tabled` draws for these rows in its rounded ASCII style.
pub uninterp spec fn table_text_of(rows: Seq<Seq<Seq<char>>>) -> Seq<char>;

/// Relies on `tabled::builder::Builder` (collected from the rows), `build`,
/// `Style::ascii_rounded` and `Table`'s `Display`: the drawing depends on the
/// rows alone.
#[verifier::external_body]
fn draw_table(rows: &Vec<Vec<String>>) -> (r: String)
    ensures
        r@ == table_text_of(rows_view(rows@)),
{
    let mut table = rows.iter().cloned().collect::<tabled::builder::Builder>().build();
    table.with(tabled::settings::Style::ascii_rounded());
    table.to_string()
}

/// What each row of `v` holds.
pub open spec fn rows_view(v: Seq<Vec<String>>) -> Seq<Seq<Seq<char>>> {
    v.map_values(|r: Vec<String>| views(r@))
}

pub open spec fn bool_text(b: bool) -> Seq<char> {
    if b {
        "true"@
    } else {
        "false"@
    }
}

/// The column titles of a backup listing.
pub open spec fn header_row() -> Seq<Seq<char>> {
    seq!["Backup name"@, "Server UID"@, "Backup UUID"@, "Created at"@, "Is locked?"@]
}

/// The row of backup `b` of server `server`.
pub open spec fn row_of(server: Seq<char>, b: BackupRecord) -> Seq<Seq<char>> {
    seq![b.name@, server, uuid_text_of(b.uuid), b.created_at@, bool_text(b.is_locked)]
}

/// The titles, then one row per backup in the order given.
pub open spec fn table_rows(server: Seq<char>, backups: Seq<BackupRecord>) -> Seq<Seq<Seq<char>>> {
    seq![header_row()] + backups.map_values(|b: BackupRecord| row_of(server, b))
}

fn text(s: &str) -> (r: String)
    ensures
        r@ == s@,
{
    String::from_str(s)
}

/// The cells of the listing of `server`'s backups: a row of titles, then one
/// row per backup, each naming `server`.
pub fn backup_rows(server: &str, backups: &Vec<BackupRecord>) -> (r: Vec<Vec<String>>)
    ensures
        rows_view(r@) == table_rows(server@, backups@),
{
    proof {
        reveal_strlit("Backup name");
        reveal_strlit("Server UID");
        reveal_strlit("Backup UUID");
        reveal_strlit("Created at");
        reveal_strlit("Is locked?");
        reveal_strlit("true");
        reveal_strlit("false");
    }
    let mut r: Vec<Vec<String>> = Vec::new();
    let header = vec![
        text("Backup name"),
        text("Server UID"),
        text("Backup UUID"),
        text("Created at"),
        text("Is locked?"),
    ];
    assert(views(header@) =~= header_row());
    r.push(header);
    let mut i: usize = 0;
    while i < backups.len()
        invariant
            i <= backups@.len(),
            rows_view(r@) == table_rows(server@, backups@.take(i as int)),
        decreases backups@.len() - i,
    {
        let b = &backups[i];
        let locked = if b.is_locked {
            text("true")
        } else {
            text("false")
        };
        let row = vec![
            b.name.clone(),
            String::from_str(server),
            uuid_text(b.uuid),
            b.created_at.clone(),
            locked,
        ];
        assert(views(row@) =~= row_of(server@, backups@[i as int]));
        let ghost before = r@;
        r.push(row);
        assert(rows_view(r@) =~= rows_view(before).push(views(row@)));
        assert(backups@.take(i + 1).map_values(|b: BackupRecord| row_of(server@, b))
            =~= backups@.take(i as int).map_values(|b: BackupRecord| row_of(server@, b)).push(
            row_of(server@, backups@[i as int]),
        ));
        assert(rows_view(r@) =~= table_rows(server@, backups@.take(i + 1)));
        i = i + 1;
    }
    assert(backups@.take(backups@.len() as int) =~= backups@);
    r
}

/// The listing of `server`'s backups, drawn as a table.
pub fn render_backup_table(server: &str, backups: &Vec<BackupRecord>) -> (r: String)
    ensures
        r@ == table_text_of(table_rows(server@, backups@)),
{
    let rows = backup_rows(server, backups);
    draw_table(&rows)
}

} // verus!
