//! The trusted boundary to the embedded SQLite engine (the `rusqlite`
//! crate). Everything the store knows of a connection's contents is stated
//! here, over two uninterpreted names: `table_of`, the committed rows, and
//! `schema_ok`, that the record table stands exactly as declared. Each
//! wrapper's contract records what the called `rusqlite` operation does to
//! those.
//!
//! The row wrappers take the `Database` itself: its type invariant
//! guarantees `schema_ok` of the connection inside, and every contract
//! below is claimed only under that schema (on a deviant table an `INSERT`
//! could succeed twice for one id). Construction is the only place a
//! connection enters a `Database`, and it goes through the schema check.

use vstd::prelude::*;

use crate::database::{Database, Service};
use crate::error::StoreError;
use crate::model::TableView;

verus! {

#[verifier::external_type_specification]
#[verifier::external_body]
pub struct ExConnection(rusqlite::Connection);

/// The committed contents of the `services` table behind a connection: a
/// map from record id to the record stored under it, the price read as the
/// 64-bit pattern of its 8-byte little-endian blob.
pub uninterp spec fn table_of(conn: rusqlite::Connection) -> TableView;

/// The `services` table behind the connection stands exactly as this
/// library declares it — five columns with `id` the primary key — and no
/// trigger acts on it. Only under this do the row statements behave as the
/// wrappers below state; `schema_accepted` of a `sqlite_master` listing
/// establishes it, and data statements never change it.
pub uninterp spec fn schema_ok(conn: rusqlite::Connection) -> bool;

/// The text the engine records for the declared record table: the issued
/// `CREATE TABLE` statement with the `IF NOT EXISTS` clause dropped, the
/// rest verbatim.
pub open spec fn canonical_schema_sql() -> Seq<char> {
    "CREATE TABLE services (id TEXT PRIMARY KEY, name TEXT NOT NULL, price REAL NOT NULL, duration INTEGER NOT NULL, is_active BOOLEAN NOT NULL)"@
}

/// A schema row (type, sql) declaring the record table exactly as this
/// library does.
pub open spec fn canonical_table_row(r: (String, Option<String>)) -> bool {
    r.0@ == "table"@ && (r.1 matches Some(s) && s@ == canonical_schema_sql())
}

/// A schema row declaring a trigger.
pub open spec fn trigger_row(r: (String, Option<String>)) -> bool {
    r.0@ == "trigger"@
}

/// A schema listing of the record table that this library accepts: the
/// table is declared exactly as this library declares it, and nothing in
/// the listing is a trigger.
pub open spec fn schema_accepted(rows: Seq<(String, Option<String>)>) -> bool {
    &&& exists|i: int| 0 <= i < rows.len() && canonical_table_row(#[trigger] rows[i])
    &&& forall|i: int| 0 <= i < rows.len() ==> !trigger_row(#[trigger] rows[i])
}

/// Relies on `rusqlite::Connection::open`: opens or creates the database
/// file at `path`. What the file already holds decides the table's
/// contents, so nothing is promised of them.
#[verifier::external_body]
pub(crate) fn open_file(path: &str) -> (r: Result<rusqlite::Connection, StoreError>)
    ensures
        r matches Err(e) ==> e == StoreError::Initialization,
{
    rusqlite::Connection::open(path).map_err(|_| StoreError::Initialization)
}

/// Relies on `rusqlite::Connection::open_in_memory`: a freshly created
/// in-memory database holds no rows.
#[verifier::external_body]
pub(crate) fn open_memory() -> (r: Result<rusqlite::Connection, StoreError>)
    ensures
        r matches Ok(c) ==> table_of(c) == TableView::empty(),
        r matches Err(e) ==> e == StoreError::Initialization,
{
    rusqlite::Connection::open_in_memory().map_err(|_| StoreError::Initialization)
}

/// Relies on `rusqlite::Connection::execute` running `CREATE TABLE IF NOT
/// EXISTS`: it creates the table when absent and never adds, drops or
/// alters a row. Whether the table it leaves behind is the declared one is
/// settled afterwards by `schema_listing`.
#[verifier::external_body]
pub(crate) fn create_table_if_absent(conn: &mut rusqlite::Connection) -> (r: Result<
    (),
    StoreError,
>)
    ensures
        table_of(*final(conn)) == table_of(*old(conn)),
        r matches Err(e) ==> e == StoreError::Initialization,
{
    let sql: &str =
        "CREATE TABLE IF NOT EXISTS services (id TEXT PRIMARY KEY, name TEXT NOT NULL, price REAL NOT NULL, duration INTEGER NOT NULL, is_active BOOLEAN NOT NULL)";
    conn.execute(sql, ()).map(|_| ()).map_err(|_| StoreError::Initialization)
}

/// Relies on `rusqlite::Statement::query_map` over `SELECT` from
/// `sqlite_master`: the rows whose `tbl_name` is the record table's name,
/// as (type, sql) pairs. The engine records a table's `CREATE` statement
/// text verbatim, with `IF NOT EXISTS` dropped, so a listing that
/// `schema_accepted` holds of shows the table standing exactly as declared
/// with no trigger on it: `schema_ok`.
#[verifier::external_body]
pub(crate) fn schema_listing(conn: &rusqlite::Connection) -> (r: Result<
    Vec<(String, Option<String>)>,
    StoreError,
>)
    ensures
        r matches Ok(rows) ==> (schema_accepted(rows@) ==> schema_ok(*conn)),
        r matches Err(e) ==> e == StoreError::Initialization,
{
    let stmt = conn.prepare("SELECT type, sql FROM sqlite_master WHERE tbl_name = 'services'");
    let mut stmt = match stmt {
        Ok(s) => s,
        Err(_) => return Err(StoreError::Initialization),
    };
    let rows = stmt.query_map((), |row| Ok((row.get(0)?, row.get(1)?)));
    match rows {
        Ok(it) => it.collect::<Result<Vec<(String, Option<String>)>, _>>().map_err(
            |_| StoreError::Initialization,
        ),
        Err(_) => Err(StoreError::Initialization),
    }
}

/// Relies on `rusqlite::Connection::transaction`, `INSERT` and `commit`,
/// on the declared schema (the store's invariant): on success the
/// committed table gains the row under its id; the only constraint these
/// bound values can violate is the primary key, so a primary-key failure
/// means the id was already stored; on any failure the transaction rolls
/// back when dropped and the table is unchanged. Data statements never
/// touch the schema.
#[verifier::external_body]
pub(crate) fn insert_row(db: &mut Database, s: &Service) -> (r: Result<(), StoreError>)
    ensures
        r matches Ok(_) ==> !old(db)@.contains_key(s@.id) && final(db)@ == old(db)@.insert(
            s@.id,
            s@,
        ),
        r matches Err(e) ==> final(db)@ == old(db)@ && (e == StoreError::DuplicateKey || e
            == StoreError::Storage),
        r == Err::<(), StoreError>(StoreError::DuplicateKey) ==> old(db)@.contains_key(s@.id),
{
    let tx = match db.conn.transaction() {
        Ok(t) => t,
        Err(_) => return Err(StoreError::Storage),
    };
    let res = tx.execute(
        "INSERT INTO services (id, name, price, duration, is_active) VALUES (?1, ?2, ?3, ?4, ?5)",
        (&s.id, &s.name, s.price_bits.to_le_bytes(), s.duration, s.is_active),
    );
    match res {
        Ok(_) => tx.commit().map_err(|_| StoreError::Storage),
        Err(rusqlite::Error::SqliteFailure(e, _)) if e.extended_code
            == rusqlite::ffi::SQLITE_CONSTRAINT_PRIMARYKEY => Err(StoreError::DuplicateKey),
        Err(_) => Err(StoreError::Storage),
    }
}

/// Relies on `rusqlite::Statement::query_map` over `SELECT`, on the
/// declared schema: every committed row comes back exactly once, each
/// under its own id; the order rows come back in is not promised.
#[verifier::external_body]
pub(crate) fn select_rows(db: &Database) -> (r: Result<Vec<Service>, StoreError>)
    ensures
        r matches Ok(v) ==> crate::model::lists_table(
            crate::database::views_of_services(v@),
            db@,
        ),
        r matches Err(e) ==> e == StoreError::Storage,
{
    let stmt = db.conn.prepare("SELECT id, name, price, duration, is_active FROM services");
    let mut stmt = match stmt {
        Ok(s) => s,
        Err(_) => return Err(StoreError::Storage),
    };
    let rows = stmt.query_map(
        (),
        |row| Ok(Service { id: row.get(0)?, name: row.get(1)?, price_bits: u64::from_le_bytes(row.get(2)?), duration: row.get(3)?, is_active: row.get(4)? }),
    );
    match rows {
        Ok(it) => it.collect::<Result<Vec<Service>, _>>().map_err(|_| StoreError::Storage),
        Err(_) => Err(StoreError::Storage),
    }
}

/// Relies on `rusqlite::Connection::transaction`, `UPDATE ... WHERE id = ?`
/// and `commit`, on the declared schema: the statement replaces every field
/// of the row whose id matches and reports how many rows matched — under
/// the primary key, one or none; on any failure the transaction rolls back
/// when dropped and the table is unchanged. Data statements never touch
/// the schema.
#[verifier::external_body]
pub(crate) fn update_row(db: &mut Database, s: &Service) -> (r: Result<usize, StoreError>)
    ensures
        r matches Ok(n) ==> (if old(db)@.contains_key(s@.id) {
            n == 1 && final(db)@ == old(db)@.insert(s@.id, s@)
        } else {
            n == 0 && final(db)@ == old(db)@
        }),
        r matches Err(e) ==> e == StoreError::Storage && final(db)@ == old(db)@,
{
    let tx = match db.conn.transaction() {
        Ok(t) => t,
        Err(_) => return Err(StoreError::Storage),
    };
    let n = match tx.execute(
        "UPDATE services SET name = ?2, price = ?3, duration = ?4, is_active = ?5 WHERE id = ?1",
        (&s.id, &s.name, s.price_bits.to_le_bytes(), s.duration, s.is_active),
    ) {
        Ok(n) => n,
        Err(_) => return Err(StoreError::Storage),
    };
    tx.commit().map(|_| n).map_err(|_| StoreError::Storage)
}

/// Relies on `rusqlite::Connection::transaction`, `DELETE ... WHERE id = ?`
/// and `commit`, on the declared schema: on success the row with that id,
/// if any, is gone and no other row is touched; on any failure the
/// transaction rolls back when dropped and the table is unchanged. Data
/// statements never touch the schema.
#[verifier::external_body]
pub(crate) fn delete_row(db: &mut Database, id: &str) -> (r: Result<(), StoreError>)
    ensures
        r matches Ok(_) ==> final(db)@ == old(db)@.remove(id@),
        r matches Err(e) ==> e == StoreError::Storage && final(db)@ == old(db)@,
{
    let tx = match db.conn.transaction() {
        Ok(t) => t,
        Err(_) => return Err(StoreError::Storage),
    };
    if tx.execute("DELETE FROM services WHERE id = ?1", (id,)).is_err() {
        return Err(StoreError::Storage);
    }
    tx.commit().map_err(|_| StoreError::Storage)
}

/// Relies on `rusqlite::backup::Backup::new` and one `step` with a
/// negative page count, which copies every remaining page in that single
/// call and always returns — done, busy, locked or failed; there is no
/// retry, so the call cannot spin when the destination cannot be locked
/// (as when a store is backed up onto its own file). On success the
/// destination database is a complete copy of the source as of one
/// instant, schema included; otherwise the unfinished backup is rolled
/// back on the destination when the handle drops, leaving it as it was.
#[verifier::external_body]
pub(crate) fn copy_between(src: &Database, dst: &mut Database) -> (r: Result<(), StoreError>)
    ensures
        r matches Ok(_) ==> final(dst)@ == src@,
        r matches Err(e) ==> e == StoreError::Storage && final(dst)@ == old(dst)@,
{
    let b = match rusqlite::backup::Backup::new(&src.conn, &mut dst.conn) {
        Ok(b) => b,
        Err(_) => return Err(StoreError::Storage),
    };
    match b.step(-1) {
        Ok(rusqlite::backup::StepResult::Done) => Ok(()),
        _ => Err(StoreError::Storage),
    }
}

} // verus!
