//! The storage facade: one backend handle per logical database, chosen once
//! at construction with graceful degradation (relational, then optionally the
//! flat-file fallback, then unavailable), and the typed read interface the
//! request pipeline uses.

use crate::database::sqlite::Sqlite;
use crate::database::textfile::TextFile;
use crate::tools::config::{spec_auto_reset, Config, DType};
use vstd::prelude::*;

verus! {

/// Schema description for the relational backend: the logical source name
/// (used to derive the storage locations), the user-table columns with their
/// types, and a statement to run on load (currently unused).
pub struct DatabaseStruct {
    pub src: String,
    pub items: Vec<(String, DType)>,
    pub onload: String,
}

/// The capability interface a storage backend is expected to offer. No
/// backend implements it yet; it documents the intended surface.
pub trait DatabaseConnection {
    fn open() -> bool;

    fn add(query: AQuery) -> bool;

    fn remove() -> bool;

    fn get(query: GQuery) -> Option<String>;

    fn wipe() -> bool;
}

/// A typed write request. Each variant compiles 1:1 to a fixed parameterized
/// statement.
pub enum AQuery {
    User {
        username: String,
        password: String,
        name: Option<String>,
        email: Option<String>,
        site: Option<String>,
    },
    UserIDAdd { username: String, password: String, id: String },
    UserPing { username: String, site: String },
}

/// A typed read request. Each variant compiles 1:1 to a fixed parameterized
/// statement.
pub enum GQuery {
    Password { username: String },  // username -> [password]
    UserData { username: String },  // username -> [name, email]
}

/// A positional statement parameter: a text value or SQL `NULL`.
#[derive(Debug, Clone)]
pub enum SqlParam {
    Text(String),
    Null,
}

/// Why a storage operation failed: the active backend has no query
/// semantics, the backend reported a failure, or the store could not be
/// reached at all.
#[derive(Debug, Clone, Copy, PartialEq, Eq, Structural)]
pub enum StoreError {
    NotImplemented,
    QueryFailed,
    NotAvailable,
}

/// The backend handle held by a facade: a live relational connection, the
/// path of the flat-file fallback, or nothing.
#[derive(Debug)]
pub enum DatabaseType {
    Sqlite(rusqlite::Connection),
    Textfile(String),
    Unavailable,
}

/// The storage facade. Exactly one is constructed per logical database name;
/// its backend is chosen once and never swapped.
#[derive(Debug)]
pub struct Database {
    pub conn: DatabaseType,
}

/// An explicit marker for raw statement text handed to the escape hatch
/// `Database::get_data`: the statement bypasses the query compiler, so the
/// caller vouches that it is trusted text, never external input.
pub struct TrustedStatement {
    pub sql: String,
}

impl DatabaseStruct {
    /// The fixed user table: a keyed username column followed by password,
    /// name, email and site, all text.
    pub fn users_table(src: &str) -> (r: DatabaseStruct)
        ensures
            r.src@ == src@,
            r.items@.len() == 5,
            r.items@[0].0@ == "username"@ && r.items@[0].1 == DType::String,
            r.items@[1].0@ == "password"@ && r.items@[1].1 == DType::String,
            r.items@[2].0@ == "name"@ && r.items@[2].1 == DType::String,
            r.items@[3].0@ == "email"@ && r.items@[3].1 == DType::String,
            r.items@[4].0@ == "site"@ && r.items@[4].1 == DType::String,
            r.onload@ == Seq::<char>::empty(),
    {
        let items: Vec<(String, DType)> = vec![
            ("username".to_owned(), DType::String),
            ("password".to_owned(), DType::String),
            ("name".to_owned(), DType::String),
            ("email".to_owned(), DType::String),
            ("site".to_owned(), DType::String),
        ];
        DatabaseStruct { src: src.to_owned(), items, onload: String::new() }
    }
}

/// The relational store's location for a logical source name: `db/<src>.db`.
pub fn db_location(src: &str) -> (r: String)
    ensures
        r@ == "db/"@ + src@ + ".db"@,
{
    let mut path = "db/".to_owned();
    path.append(src);
    path.append(".db");
    proof {
        assert(path@ =~= "db/"@ + src@ + ".db"@);
    }
    path
}

/// The flat-file fallback's location for a logical source name:
/// `db/<src>.txt`.
pub fn fallback_location(src: &str) -> (r: String)
    ensures
        r@ == "db/"@ + src@ + ".txt"@,
{
    let mut path = "db/".to_owned();
    path.append(src);
    path.append(".txt");
    proof {
        assert(path@ =~= "db/"@ + src@ + ".txt"@);
    }
    path
}

/// The fallback decision once the relational store is unreachable: the
/// flat-file backend exactly when fail-safe is on and its target exists,
/// otherwise unavailable.
pub fn fallback_backend(this_db: &DatabaseStruct, fail_safe: bool, fallback_available: bool) -> (r:
    DatabaseType)
    ensures
        fail_safe && fallback_available ==> (r matches DatabaseType::Textfile(p) && p@ == "db/"@
            + this_db.src@ + ".txt"@),
        !(fail_safe && fallback_available) ==> r is Unavailable,
{
    if fail_safe {
        let txt_path = fallback_location(this_db.src.as_str());
        match TextFile::open(txt_path.as_str(), fallback_available) {
            Ok(path) => DatabaseType::Textfile(path),
            Err(_) => DatabaseType::Unavailable,
        }
    } else {
        DatabaseType::Unavailable
    }
}

/// The decision once the relational store opened: the schema lifecycle
/// decides whether the fresh connection is kept. A successful open never
/// degrades to the flat file, and with auto-reset off the lifecycle is a
/// successful no-op, so the connection is always kept then.
pub fn relational_backend(connection: rusqlite::Connection, this_db: &DatabaseStruct,
    config: &Config) -> (r: DatabaseType)
    ensures
        r is Sqlite || r is Unavailable,
        !spec_auto_reset(config.entries@) ==> r is Sqlite,
{
    if Sqlite::init(&connection, this_db, config.auto_reset()) {
        DatabaseType::Sqlite(connection)
    } else {
        DatabaseType::Unavailable
    }
}

impl Database {
    /// Builds the facade for one logical database. The relational backend is
    /// tried first at `db/<src>.db`; once it opens, `relational_backend`
    /// decides whether the connection is kept (the schema lifecycle must
    /// succeed; with auto-reset off it always does). When the relational
    /// store is unreachable the fallback decision applies
    /// (`fallback_backend`). Never fails: the result is a usable, possibly
    /// degraded, facade, and its backend tag is chosen here once — no later
    /// operation swaps it. `fallback_available` is the filesystem
    /// collaborator's word on whether `db/<src>.txt` exists.
    pub fn connect(this_db: DatabaseStruct, fail_safe: bool, config: &Config,
        fallback_available: bool) -> (r: Database)
        ensures
            !fail_safe ==> !(r.conn is Textfile),
            !fallback_available ==> !(r.conn is Textfile),
            r.conn matches DatabaseType::Textfile(p) ==> p@ == "db/"@ + this_db.src@ + ".txt"@,
    {
        let db_path = db_location(this_db.src.as_str());
        match Sqlite::open(db_path.as_str()) {
            Ok(connection) => Database {
                conn: relational_backend(connection, &this_db, config),
            },
            Err(_) => Database { conn: fallback_backend(&this_db, fail_safe, fallback_available) },
        }
    }

    /// Runs a typed read query. Only the relational backend has query
    /// semantics: on any other backend the result is exactly
    /// `NotImplemented`; on the relational backend the rows come back as the
    /// store returns them, and a backend failure is reported as
    /// `QueryFailed`.
    pub fn get(&self, query: &GQuery) -> (r: Result<Vec<Vec<String>>, StoreError>)
        ensures
            match self.conn {
                DatabaseType::Sqlite(_) => r is Ok || r == Err::<Vec<Vec<String>>, StoreError>(
                    StoreError::QueryFailed,
                ),
                _ => r == Err::<Vec<Vec<String>>, StoreError>(StoreError::NotImplemented),
            },
    {
        match &self.conn {
            DatabaseType::Sqlite(conn) => match Sqlite::get(conn, query) {
                Ok(values) => Ok(values),
                Err(_) => Err(StoreError::QueryFailed),
            },
            _ => Err(StoreError::NotImplemented),
        }
    }

    /// The escape hatch: runs raw statement text, bypassing the query
    /// compiler. The statement must be vouched for (see
    /// [`TrustedStatement`]); the error behaviour matches [`Database::get`].
    pub fn get_data(&self, statement: &TrustedStatement) -> (r: Result<
        Vec<Vec<String>>,
        StoreError,
    >)
        ensures
            match self.conn {
                DatabaseType::Sqlite(_) => r is Ok || r == Err::<Vec<Vec<String>>, StoreError>(
                    StoreError::QueryFailed,
                ),
                _ => r == Err::<Vec<Vec<String>>, StoreError>(StoreError::NotImplemented),
            },
    {
        match &self.conn {
            DatabaseType::Sqlite(conn) => match Sqlite::retrieve(conn, statement.sql.as_str(), None) {
                Ok(values) => Ok(values),
                Err(_) => Err(StoreError::QueryFailed),
            },
            _ => Err(StoreError::NotImplemented),
        }
    }
}

} // verus!
