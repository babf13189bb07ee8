//! The relational backend: opening the store, the schema lifecycle (reset,
//! create, seed — run inside one transaction so a failure leaves the
//! pre-reset schema intact), the deterministic query compiler from typed
//! requests to parameterized statements, and the generic row reader.
//!
//! The calls into the database driver stand behind trusted wrappers; every
//! statement they are handed is built and specified here.

use crate::database::db::{AQuery, DatabaseStruct, GQuery, SqlParam};
use crate::tools::config::{dtype_sql, DType};
use crate::tools::text::{count_char, count_from, str_eq};
use vstd::prelude::*;

verus! {

#[verifier::external_type_specification]
#[verifier::external_body]
pub struct ExConnection(rusqlite::Connection);

#[verifier::external_type_specification]
#[verifier::external_body]
pub struct ExSqliteError(rusqlite::Error);

/// The relational backend's operations, as associated functions over a
/// borrowed connection.
pub struct Sqlite;

/// The statement text a write request compiles to.
pub open spec fn a_query_sql(q: AQuery) -> Seq<char> {
    match q {
        AQuery::User { .. } => "INSERT INTO users (username, password, name, email, site) VALUES (?1, ?2, ?3, ?4, ?5)"@,
        AQuery::UserIDAdd { .. } => "UPDATE users SET id=?1 WHERE username=?2 AND password=?3"@,
        AQuery::UserPing { .. } => "UPDATE users SET site=?1 WHERE username=?2"@,
    }
}

/// An optional text value as a statement parameter: `NULL` when absent.
pub open spec fn opt_param(v: Option<String>) -> SqlParam {
    match v {
        Some(s) => SqlParam::Text(s),
        None => SqlParam::Null,
    }
}

/// The ordered parameter list a write request compiles to.
pub open spec fn a_query_params(q: AQuery) -> Seq<SqlParam> {
    match q {
        AQuery::User { username, password, name, email, site } => seq![
            SqlParam::Text(username),
            SqlParam::Text(password),
            opt_param(name),
            opt_param(email),
            opt_param(site),
        ],
        AQuery::UserIDAdd { username, password, id } => seq![
            SqlParam::Text(id),
            SqlParam::Text(username),
            SqlParam::Text(password),
        ],
        AQuery::UserPing { username, site } => seq![
            SqlParam::Text(site),
            SqlParam::Text(username),
        ],
    }
}

/// The statement text a read request compiles to.
pub open spec fn g_query_sql(q: GQuery) -> Seq<char> {
    match q {
        GQuery::Password { .. } => "Select password From users WHERE username = ?1"@,
        GQuery::UserData { .. } => "Select name,email From users WHERE username = ?1"@,
    }
}

/// The ordered parameter list a read request compiles to.
pub open spec fn g_query_params(q: GQuery) -> Seq<SqlParam> {
    match q {
        GQuery::Password { username } => seq![SqlParam::Text(username)],
        GQuery::UserData { username } => seq![SqlParam::Text(username)],
    }
}

/// The statement dropping one table.
pub open spec fn drop_table_sql(name: Seq<char>) -> Seq<char> {
    "DROP TABLE IF EXISTS "@ + name
}

/// One column definition: name and SQL type.
pub open spec fn col_sql(it: (String, DType)) -> Seq<char> {
    it.0@ + " "@ + dtype_sql(it.1)
}

/// The column definitions after the first, each preceded by a separator.
pub open spec fn cols_tail_sql(items: Seq<(String, DType)>) -> Seq<char>
    decreases items.len(),
{
    if items.len() == 0 {
        Seq::empty()
    } else {
        cols_tail_sql(items.drop_last()) + ", "@ + col_sql(items.last())
    }
}

/// The full column list: the first column is the table's key.
pub open spec fn cols_sql(items: Seq<(String, DType)>) -> Seq<char> {
    if items.len() == 0 {
        Seq::empty()
    } else {
        col_sql(items[0]) + " PRIMARY KEY"@ + cols_tail_sql(items.drop_first())
    }
}

/// The statement recreating the fixed user table from its schema
/// description.
pub open spec fn create_table_sql(items: Seq<(String, DType)>) -> Seq<char> {
    "CREATE TABLE IF NOT EXISTS users ("@ + cols_sql(items) + ")"@
}

/// The tables a reset drops: every listed table except the internal
/// autoincrement-sequence table, in order.
pub open spec fn kept_tables(names: Seq<String>) -> Seq<Seq<char>>
    decreases names.len(),
{
    if names.len() == 0 {
        Seq::empty()
    } else {
        let pre = kept_tables(names.drop_last());
        if names.last()@ == "sqlite_sequence"@ {
            pre
        } else {
            pre.push(names.last()@)
        }
    }
}

/// A reset's drop plan never touches the internal autoincrement-sequence
/// table, whatever tables the store lists.
pub proof fn lemma_kept_tables_spare_sequence(names: Seq<String>)
    ensures
        forall|i: int|
            0 <= i < kept_tables(names).len() ==> #[trigger] kept_tables(names)[i]
                != "sqlite_sequence"@,
    decreases names.len(),
{
    if names.len() > 0 {
        lemma_kept_tables_spare_sequence(names.drop_last());
        let pre = kept_tables(names.drop_last());
        if names.last()@ != "sqlite_sequence"@ {
            assert forall|i: int| 0 <= i < kept_tables(names).len() implies #[trigger] kept_tables(
                names,
            )[i] != "sqlite_sequence"@ by {
                if i < pre.len() {
                    assert(kept_tables(names)[i] == pre[i]);
                } else {
                    assert(kept_tables(names)[i] == names.last()@);
                }
            }
        }
    }
}

/// The first cell of every non-empty row, in row order.
pub open spec fn first_cells_of(rows: Seq<Vec<String>>) -> Seq<String>
    decreases rows.len(),
{
    if rows.len() == 0 {
        Seq::empty()
    } else {
        let pre = first_cells_of(rows.drop_last());
        if rows.last()@.len() >= 1 {
            pre.push(rows.last()@[0])
        } else {
            pre
        }
    }
}

/// The first cell of every non-empty row, in row order.
pub fn first_cells(rows: &Vec<Vec<String>>) -> (r: Vec<String>)
    ensures
        r@ == first_cells_of(rows@),
{
    let n = rows.len();
    let mut out: Vec<String> = Vec::new();
    let mut i: usize = 0;
    proof {
        assert(rows@.subrange(0, 0) =~= Seq::<Vec<String>>::empty());
    }
    while i < n
        invariant
            n == rows@.len(),
            0 <= i <= n,
            out@ == first_cells_of(rows@.subrange(0, i as int)),
        decreases n - i,
    {
        proof {
            assert(rows@.subrange(0, i + 1).drop_last() =~= rows@.subrange(0, i as int));
            assert(rows@.subrange(0, i + 1).last() == rows@[i as int]);
        }
        if rows[i].len() >= 1 {
            out.push(rows[i][0].clone());
        }
        i = i + 1;
    }
    proof {
        assert(rows@.subrange(0, n as int) =~= rows@);
    }
    out
}

/// The drop statements for a reset, one per kept table, in order.
pub fn drop_statements(names: &Vec<String>) -> (r: Vec<String>)
    ensures
        r@.len() == kept_tables(names@).len(),
        forall|i: int|
            0 <= i < r@.len() ==> (#[trigger] r@[i])@ == drop_table_sql(kept_tables(names@)[i]),
{
    let n = names.len();
    let mut out: Vec<String> = Vec::new();
    let mut i: usize = 0;
    proof {
        assert(names@.subrange(0, 0) =~= Seq::<String>::empty());
    }
    while i < n
        invariant
            n == names@.len(),
            0 <= i <= n,
            out@.len() == kept_tables(names@.subrange(0, i as int)).len(),
            forall|k: int|
                0 <= k < out@.len() ==> (#[trigger] out@[k])@ == drop_table_sql(
                    kept_tables(names@.subrange(0, i as int))[k],
                ),
        decreases n - i,
    {
        proof {
            assert(names@.subrange(0, i + 1).drop_last() =~= names@.subrange(0, i as int));
            assert(names@.subrange(0, i + 1).last() == names@[i as int]);
        }
        if !str_eq(names[i].as_str(), "sqlite_sequence") {
            let mut stmt = "DROP TABLE IF EXISTS ".to_owned();
            stmt.append(names[i].as_str());
            out.push(stmt);
        }
        i = i + 1;
    }
    proof {
        assert(names@.subrange(0, n as int) =~= names@);
    }
    out
}

/// The create statement for the fixed user table.
pub fn create_table_stmt(items: &Vec<(String, DType)>) -> (r: String)
    ensures
        r@ == create_table_sql(items@),
{
    let mut out = "CREATE TABLE IF NOT EXISTS users (".to_owned();
    let n = items.len();
    if n > 0 {
        out.append(items[0].0.as_str());
        out.append(" ");
        out.append(items[0].1.as_sql());
        out.append(" PRIMARY KEY");
        let ghost head: Seq<char> = "CREATE TABLE IF NOT EXISTS users ("@ + col_sql(items@[0])
            + " PRIMARY KEY"@;
        proof {
            assert(out@ =~= head + cols_tail_sql(items@.subrange(1, 1)));
        }
        let mut i: usize = 1;
        while i < n
            invariant
                n == items@.len(),
                1 <= i <= n,
                head == "CREATE TABLE IF NOT EXISTS users ("@ + col_sql(items@[0])
                    + " PRIMARY KEY"@,
                out@ == head + cols_tail_sql(items@.subrange(1, i as int)),
            decreases n - i,
        {
            out.append(", ");
            out.append(items[i].0.as_str());
            out.append(" ");
            out.append(items[i].1.as_sql());
            proof {
                assert(items@.subrange(1, i + 1).drop_last() =~= items@.subrange(1, i as int));
                assert(items@.subrange(1, i + 1).last() == items@[i as int]);
                assert(out@ =~= head + cols_tail_sql(items@.subrange(1, i + 1)));
            }
            i = i + 1;
        }
        proof {
            assert(items@.subrange(1, n as int) =~= items@.drop_first());
        }
    }
    out.append(")");
    proof {
        assert(out@ =~= create_table_sql(items@));
    }
    out
}

/// The statement text seeding the freshly created user table.
pub open spec fn seed_insert_sql() -> Seq<char> {
    "INSERT INTO users (username, password, name) VALUES (?1, ?2, ?3)"@
}

/// The seed insert a reset ends with: exactly one row holding the default
/// admin credential (`admin` / `admin123`, named `Admin`).
pub fn seed_statement() -> (r: (String, Vec<SqlParam>))
    ensures
        r.0@ == seed_insert_sql(),
        r.1@.len() == 3,
        (r.1@[0] matches SqlParam::Text(u) && u@ == "admin"@),
        (r.1@[1] matches SqlParam::Text(p) && p@ == "admin123"@),
        (r.1@[2] matches SqlParam::Text(n) && n@ == "Admin"@),
{
    let sql = "INSERT INTO users (username, password, name) VALUES (?1, ?2, ?3)".to_owned();
    let params: Vec<SqlParam> = vec![
        SqlParam::Text("admin".to_owned()),
        SqlParam::Text("admin123".to_owned()),
        SqlParam::Text("Admin".to_owned()),
    ];
    (sql, params)
}

/// The seed insert's placeholder count equals its parameter count.
pub proof fn lemma_seed_placeholders()
    ensures
        count_char(seed_insert_sql(), '?') == 3,
{
    reveal_with_fuel(count_from, 40);
    reveal_strlit("INSERT INTO users (username, password, name) VALUES (?1, ?2, ?3)");
    assert(count_from(seed_insert_sql(), '?', 30) == 3);
    assert(count_char(seed_insert_sql(), '?') == 3);
}

/// The statement opening the reset transaction.
pub fn begin_stmt() -> (r: &'static str)
    ensures
        r@ == "BEGIN"@,
{
    "BEGIN"
}

/// The statement committing the reset transaction.
pub fn commit_stmt() -> (r: &'static str)
    ensures
        r@ == "COMMIT"@,
{
    "COMMIT"
}

/// The statement abandoning the reset transaction, restoring the pre-reset
/// schema.
pub fn rollback_stmt() -> (r: &'static str)
    ensures
        r@ == "ROLLBACK"@,
{
    "ROLLBACK"
}

/// An optional text value as a statement parameter: `NULL` when absent.
pub fn opt_to_param(v: &Option<String>) -> (r: SqlParam)
    ensures
        r == opt_param(*v),
{
    match v {
        Some(s) => SqlParam::Text(s.clone()),
        None => SqlParam::Null,
    }
}

impl Sqlite {
    /// Relies on `rusqlite::Connection::open_with_flags`: with only the
    /// read-write flag set (no create flag), opening succeeds only on an
    /// existing database file, so a non-existent location is a failure, not
    /// an implicit create.
    #[verifier::external_body]
    pub fn open(path: &str) -> (r: Result<rusqlite::Connection, rusqlite::Error>) {
        rusqlite::Connection::open_with_flags(path, rusqlite::OpenFlags::SQLITE_OPEN_READ_WRITE)
    }

    /// Relies on `rusqlite::Connection::execute` (with
    /// `rusqlite::params_from_iter` for positional binding): runs one SQL
    /// statement and reports whether the backend accepted it; the error
    /// detail is not propagated.
    #[verifier::external_body]
    pub fn execute(conn: &rusqlite::Connection, sql: &str, params: &Vec<SqlParam>) -> (r: bool) {
        let values: Vec<rusqlite::types::Value> = params.iter().map(|p| match p {
            SqlParam::Text(s) => rusqlite::types::Value::Text(s.clone()),
            SqlParam::Null => rusqlite::types::Value::Null,
        }).collect();
        conn.execute(sql, rusqlite::params_from_iter(values)).is_ok()
    }

    /// Relies on `rusqlite`'s `prepare`/`query_map`: runs a read statement
    /// with positionally bound parameters and decodes every cell of every
    /// row as text, preserving row and column order; any single cell that
    /// fails to decode fails the entire call.
    #[verifier::external_body]
    pub fn retrieve(conn: &rusqlite::Connection, sql: &str, params: Option<&Vec<SqlParam>>) -> (r:
        Result<Vec<Vec<String>>, rusqlite::Error>) {
        let values: Vec<rusqlite::types::Value> = params.map_or(Vec::new(), |ps| ps.iter().map(|p| match p {
            SqlParam::Text(s) => rusqlite::types::Value::Text(s.clone()),
            SqlParam::Null => rusqlite::types::Value::Null,
        }).collect());
        let mut stmt = conn.prepare(sql)?;
        let ncols = stmt.column_count();
        let rows = stmt.query_map(rusqlite::params_from_iter(values), |row| {
            (0..ncols).map(|i| row.get(i)).collect()
        })?;
        rows.collect()
    }

    /// The schema lifecycle. When auto-reset is off this is a successful
    /// no-op and the pre-existing schema is kept. When it is on: every
    /// listed table except the internal autoincrement-sequence table is
    /// dropped, the fixed user table is recreated from `this_db`, and
    /// exactly one seed credential row is inserted — all inside one
    /// transaction, so a failure rolls back to the pre-reset schema.
    pub fn init(conn: &rusqlite::Connection, this_db: &DatabaseStruct, auto_reset: bool) -> (r:
        bool)
        ensures
            !auto_reset ==> r == true,
    {
        if !auto_reset {
            return true;
        }
        let empty_params: Vec<SqlParam> = Vec::new();
        let tables = match Self::retrieve(
            conn,
            "SELECT name FROM sqlite_master WHERE type='table'",
            None,
        ) {
            Ok(rows) => rows,
            Err(_) => {
                return false;
            },
        };
        let names = first_cells(&tables);
        let drops = drop_statements(&names);
        if !Self::execute(conn, begin_stmt(), &empty_params) {
            return false;
        }
        let n = drops.len();
        let mut i: usize = 0;
        while i < n
            invariant
                auto_reset,
                n == drops@.len(),
                0 <= i <= n,
            decreases n - i,
        {
            if !Self::execute(conn, drops[i].as_str(), &empty_params) {
                let _ = Self::execute(conn, rollback_stmt(), &empty_params);
                return false;
            }
            i = i + 1;
        }
        let create = create_table_stmt(&this_db.items);
        if !Self::execute(conn, create.as_str(), &empty_params) {
            let _ = Self::execute(conn, rollback_stmt(), &empty_params);
            return false;
        }
        let (seed_sql, seed_params) = seed_statement();
        if !Self::execute(conn, seed_sql.as_str(), &seed_params) {
            let _ = Self::execute(conn, rollback_stmt(), &empty_params);
            return false;
        }
        Self::execute(conn, commit_stmt(), &empty_params)
    }

    /// Compiles a read request and runs it; the rows come back as the store
    /// returns them.
    pub fn get(conn: &rusqlite::Connection, query: &GQuery) -> (r: Result<
        Vec<Vec<String>>,
        rusqlite::Error,
    >) {
        let (sql, params) = Self::convert_g_to_sql(query);
        Self::retrieve(conn, sql.as_str(), Some(&params))
    }

    /// The write-query compiler: a deterministic, side-effect-free mapping
    /// from each write request to its fixed statement text and ordered
    /// parameter list.
    pub fn convert_a_to_sql(query: &AQuery) -> (r: (String, Vec<SqlParam>))
        ensures
            r.0@ == a_query_sql(*query),
            r.1@ == a_query_params(*query),
    {
        match query {
            AQuery::User { username, password, name, email, site } => {
                let sql =
                    "INSERT INTO users (username, password, name, email, site) VALUES (?1, ?2, ?3, ?4, ?5)".to_owned();
                let params: Vec<SqlParam> = vec![
                    SqlParam::Text(username.clone()),
                    SqlParam::Text(password.clone()),
                    opt_to_param(name),
                    opt_to_param(email),
                    opt_to_param(site),
                ];
                proof {
                    assert(params@ =~= a_query_params(*query));
                }
                (sql, params)
            },
            AQuery::UserIDAdd { username, password, id } => {
                let sql = "UPDATE users SET id=?1 WHERE username=?2 AND password=?3".to_owned();
                let params: Vec<SqlParam> = vec![
                    SqlParam::Text(id.clone()),
                    SqlParam::Text(username.clone()),
                    SqlParam::Text(password.clone()),
                ];
                proof {
                    assert(params@ =~= a_query_params(*query));
                }
                (sql, params)
            },
            AQuery::UserPing { username, site } => {
                let sql = "UPDATE users SET site=?1 WHERE username=?2".to_owned();
                let params: Vec<SqlParam> = vec![
                    SqlParam::Text(site.clone()),
                    SqlParam::Text(username.clone()),
                ];
                proof {
                    assert(params@ =~= a_query_params(*query));
                }
                (sql, params)
            },
        }
    }

    /// The read-query compiler: a deterministic, side-effect-free mapping
    /// from each read request to its fixed statement text and ordered
    /// parameter list.
    pub fn convert_g_to_sql(query: &GQuery) -> (r: (String, Vec<SqlParam>))
        ensures
            r.0@ == g_query_sql(*query),
            r.1@ == g_query_params(*query),
    {
        match query {
            GQuery::Password { username } => {
                let sql = "Select password From users WHERE username = ?1".to_owned();
                let params: Vec<SqlParam> = vec![SqlParam::Text(username.clone())];
                proof {
                    assert(params@ =~= g_query_params(*query));
                }
                (sql, params)
            },
            GQuery::UserData { username } => {
                let sql = "Select name,email From users WHERE username = ?1".to_owned();
                let params: Vec<SqlParam> = vec![SqlParam::Text(username.clone())];
                proof {
                    assert(params@ =~= g_query_params(*query));
                }
                (sql, params)
            },
        }
    }
}

/// For every write-query variant, the compiled statement's placeholder
/// count equals its bound parameter count.
#[verifier::rlimit(100)]
pub proof fn lemma_a_query_placeholders(q: AQuery)
    ensures
        count_char(a_query_sql(q), '?') == a_query_params(q).len(),
{
    reveal_with_fuel(count_from, 40);
    match q {
        AQuery::User { .. } => {
            reveal_strlit(
                "INSERT INTO users (username, password, name, email, site) VALUES (?1, ?2, ?3, ?4, ?5)",
            );
            assert(count_from(a_query_sql(q), '?', 60) == 5);
            assert(count_from(a_query_sql(q), '?', 30) == 5);
            assert(count_char(a_query_sql(q), '?') == 5);
        },
        AQuery::UserIDAdd { .. } => {
            reveal_strlit("UPDATE users SET id=?1 WHERE username=?2 AND password=?3");
            assert(count_from(a_query_sql(q), '?', 30) == 2);
            assert(count_char(a_query_sql(q), '?') == 3);
        },
        AQuery::UserPing { .. } => {
            reveal_strlit("UPDATE users SET site=?1 WHERE username=?2");
            assert(count_from(a_query_sql(q), '?', 30) == 1);
            assert(count_char(a_query_sql(q), '?') == 2);
        },
    }
}

/// For every read-query variant, the compiled statement's placeholder count
/// equals its bound parameter count.
pub proof fn lemma_g_query_placeholders(q: GQuery)
    ensures
        count_char(g_query_sql(q), '?') == g_query_params(q).len(),
{
    reveal_with_fuel(count_from, 60);
    match q {
        GQuery::Password { .. } => {
            reveal_strlit("Select password From users WHERE username = ?1");
            assert(count_char(g_query_sql(q), '?') == 1);
        },
        GQuery::UserData { .. } => {
            reveal_strlit("Select name,email From users WHERE username = ?1");
            assert(count_char(g_query_sql(q), '?') == 1);
        },
    }
}

} // verus!
