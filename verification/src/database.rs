//! The durable record store: a uniqueness-enforcing, atomic-per-operation
//! store of service records in an embedded SQLite file, with a
//! consistent-snapshot backup.
//!
//! Every operation is one committed transaction against the backing file,
//! so a failed operation leaves no partial state behind. Construction
//! ensures the record table stands exactly as declared — a pre-existing
//! file whose `services` table has any other shape (say, no primary key)
//! is refused — and that fact is the store's invariant; every contract of
//! the trusted boundary leans on it. The store owns its connection
//! exclusively; a caller that shares one store across execution contexts
//! serializes the calls behind its own exclusive section.

use vstd::prelude::*;

use crate::error::StoreError;
use crate::model::{lists_table, ServiceView, TableView};
use crate::sqlite;
use crate::sqlite::{canonical_schema_sql, canonical_table_row, schema_accepted, trigger_row};

verus! {

/// One service catalog entry.
pub struct Service {
    /// The primary key; assigned by the caller, globally unique in a store.
    pub id: String,
    /// The display name; stored verbatim, not validated here.
    pub name: String,
    /// The price, carried as the caller's 64-bit pattern and stored
    /// verbatim; the store performs no arithmetic on it. On disk it is held
    /// as an 8-byte little-endian blob in the `REAL`-declared column, so
    /// every pattern survives exactly (a NaN bound as a number would
    /// become NULL); the one cost is that a file whose price column holds
    /// plain numbers instead is reported as a storage failure on read.
    pub price_bits: u64,
    /// A duration in a caller-defined unit; any value is accepted.
    pub duration: i32,
    /// Whether the record is considered in effect.
    pub is_active: bool,
}

impl View for Service {
    type V = ServiceView;

    open spec fn view(&self) -> ServiceView {
        ServiceView {
            id: self.id@,
            name: self.name@,
            price_bits: self.price_bits,
            duration: self.duration,
            is_active: self.is_active,
        }
    }
}

/// The record values of a sequence of services.
pub open spec fn views_of_services(s: Seq<Service>) -> Seq<ServiceView> {
    s.map_values(|x: Service| x@)
}

/// The durable record store. Its mathematical value is the committed table
/// behind its connection: a map from id to the record stored under it. Its
/// invariant — the table stands exactly as declared — is established at
/// construction and never given up.
pub struct Database {
    pub(crate) conn: rusqlite::Connection,
}

impl View for Database {
    type V = TableView;

    closed spec fn view(&self) -> TableView {
        sqlite::table_of(self.conn)
    }
}

/// Accepts exactly the schema listings `schema_accepted` accepts: the
/// record table declared as this library declares it, and no trigger on
/// it.
fn schema_rows_accepted(rows: &Vec<(String, Option<String>)>) -> (r: bool)
    ensures
        r == schema_accepted(rows@),
{
    let table_kind: String = "table".to_owned();
    let trigger_kind: String = "trigger".to_owned();
    let canon: String =
        "CREATE TABLE services (id TEXT PRIMARY KEY, name TEXT NOT NULL, price REAL NOT NULL, duration INTEGER NOT NULL, is_active BOOLEAN NOT NULL)".to_owned();
    let n = rows.len();
    let mut found: bool = false;
    let mut i: usize = 0;
    while i < n
        invariant
            i <= n,
            n == rows.len(),
            table_kind@ == "table"@,
            trigger_kind@ == "trigger"@,
            canon@ == canonical_schema_sql(),
            found == exists|j: int| 0 <= j < i && canonical_table_row(#[trigger] rows@[j]),
            forall|j: int| 0 <= j < i ==> !trigger_row(#[trigger] rows@[j]),
        decreases n - i,
    {
        if rows[i].0 == trigger_kind {
            proof {
                assert(trigger_row(rows@[i as int]));
            }
            return false;
        }
        let is_table = rows[i].0 == table_kind;
        let sql_matches = match &rows[i].1 {
            Some(s) => *s == canon,
            None => false,
        };
        proof {
            assert((is_table && sql_matches) == canonical_table_row(rows@[i as int]));
        }
        if is_table && sql_matches {
            found = true;
        }
        i = i + 1;
    }
    found
}

impl Database {
    #[verifier::type_invariant]
    spec fn wf(self) -> bool {
        sqlite::schema_ok(self.conn)
    }

    /// Ensures the record table exists and stands exactly as declared,
    /// touching no stored record; a pre-existing `services` table of any
    /// other shape, or one with a trigger on it, is refused.
    fn init(conn: &mut rusqlite::Connection) -> (r: Result<(), StoreError>)
        ensures
            sqlite::table_of(*final(conn)) == sqlite::table_of(*old(conn)),
            r matches Ok(_) ==> sqlite::schema_ok(*final(conn)),
            r matches Err(e) ==> e == StoreError::Initialization,
    {
        match sqlite::create_table_if_absent(conn) {
            Ok(_) => {},
            Err(e) => {
                return Err(e);
            },
        }
        let rows = match sqlite::schema_listing(conn) {
            Ok(r) => r,
            Err(e) => {
                return Err(e);
            },
        };
        if schema_rows_accepted(&rows) {
            Ok(())
        } else {
            Err(StoreError::Initialization)
        }
    }

    /// Opens (or creates) the backing file at `db_path` and ensures the
    /// record table exists as declared. What the file already held decides
    /// the store's initial contents; a file whose record table deviates
    /// from the declared schema is refused.
    pub fn new(db_path: &str) -> (r: Result<Database, StoreError>)
        ensures
            r matches Err(e) ==> e == StoreError::Initialization,
    {
        let mut conn = match sqlite::open_file(db_path) {
            Ok(c) => c,
            Err(e) => return Err(e),
        };
        match Self::init(&mut conn) {
            Ok(_) => Ok(Database { conn }),
            Err(e) => Err(e),
        }
    }

    /// Opens a fresh, empty store kept in memory; nothing of it touches
    /// disk.
    pub fn new_in_memory() -> (r: Result<Database, StoreError>)
        ensures
            r matches Ok(db) ==> db@ == TableView::empty(),
            r matches Err(e) ==> e == StoreError::Initialization,
    {
        let mut conn = match sqlite::open_memory() {
            Ok(c) => c,
            Err(e) => return Err(e),
        };
        match Self::init(&mut conn) {
            Ok(_) => Ok(Database { conn }),
            Err(e) => Err(e),
        }
    }

    /// Stores `service` under its id. Succeeds only if the id was absent;
    /// on success the record is durably visible to subsequent reads. On any
    /// failure the store is unchanged: the operation is all-or-nothing.
    pub fn add_service(&mut self, service: &Service) -> (r: Result<(), StoreError>)
        ensures
            r matches Ok(_) ==> !old(self)@.contains_key(service@.id) && final(self)@ == old(
                self,
            )@.insert(service@.id, service@),
            r matches Err(e) ==> final(self)@ == old(self)@ && (e == StoreError::DuplicateKey || e
                == StoreError::Storage),
            r == Err::<(), StoreError>(StoreError::DuplicateKey) ==> old(self)@.contains_key(
                service@.id,
            ),
            old(self)@.contains_key(service@.id) ==> !(r matches Ok(_)),
    {
        sqlite::insert_row(self, service)
    }

    /// Returns every stored record, each exactly once, in no promised
    /// order. The read is a snapshot of the committed table; no
    /// partially-written record can come back.
    pub fn get_services(&self) -> (r: Result<Vec<Service>, StoreError>)
        ensures
            r matches Ok(v) ==> lists_table(views_of_services(v@), self@),
            r matches Err(e) ==> e == StoreError::Storage,
    {
        sqlite::select_rows(self)
    }

    /// Replaces the whole record stored under `service`'s id: every field
    /// takes the new value, none is retained. Reports `NotFound` when no
    /// record with that id is stored, leaving the store unchanged.
    pub fn update_service(&mut self, service: &Service) -> (r: Result<(), StoreError>)
        ensures
            r matches Ok(_) ==> old(self)@.contains_key(service@.id) && final(self)@ == old(
                self,
            )@.insert(service@.id, service@),
            r == Err::<(), StoreError>(StoreError::NotFound) ==> !old(self)@.contains_key(
                service@.id,
            ),
            r matches Err(e) ==> final(self)@ == old(self)@ && (e == StoreError::NotFound || e
                == StoreError::Storage),
    {
        match sqlite::update_row(self, service) {
            Ok(n) => if n == 0 {
                Err(StoreError::NotFound)
            } else {
                Ok(())
            },
            Err(e) => Err(e),
        }
    }

    /// Removes the record stored under `id`, if any; an absent id is not an
    /// error, and the removal of a present one is physical.
    pub fn delete_service(&mut self, id: &str) -> (r: Result<(), StoreError>)
        ensures
            r matches Ok(_) ==> final(self)@ == old(self)@.remove(id@),
            r matches Err(e) ==> e == StoreError::Storage && final(self)@ == old(self)@,
    {
        sqlite::delete_row(self, id)
    }

    /// Copies this store's entire contents into `dest`, replacing whatever
    /// `dest` held. The copy is internally consistent: it is this store's
    /// committed table as of one instant of the call. On failure `dest` is
    /// as it was, never a torn copy.
    pub fn backup_into(&self, dest: &mut Database) -> (r: Result<(), StoreError>)
        ensures
            r matches Ok(_) ==> final(dest)@ == self@,
            r matches Err(e) ==> e == StoreError::Storage && final(dest)@ == old(dest)@,
    {
        sqlite::copy_between(self, dest)
    }

    /// Produces a complete, internally consistent copy of this store at
    /// `backup_path`, usable as an independent store immediately after the
    /// call returns. The destination is first opened as a store of its own
    /// — created empty where no file was, refused where an unrelated
    /// record table sits — and then replaced wholesale by the copy; on
    /// failure the copy rolls back and the destination's table is as it
    /// was, never a torn copy.
    pub fn backup(&self, backup_path: &str) -> (r: Result<(), StoreError>)
        ensures
            r matches Err(e) ==> e == StoreError::Storage,
    {
        let mut dest = match Database::new(backup_path) {
            Ok(d) => d,
            Err(_) => return Err(StoreError::Storage),
        };
        self.backup_into(&mut dest)
    }
}

} // verus!
