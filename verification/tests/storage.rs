//! The storage facade and the schema lifecycle, against a real relational
//! store (in memory where a live connection is needed; a deliberately
//! unreachable location for the failover tests).

use docauth::database::db::{Database, DatabaseStruct, DatabaseType, GQuery, StoreError, TrustedStatement};
use docauth::database::sqlite::Sqlite;
use docauth::server::response::{Response, ResponseStatus};
use docauth::server::pipeline::handle_login;
use docauth::tools::config::{Config, ConfigValue};

fn default_cfg() -> Config {
    docauth::tools::config::default_config()
}

fn fresh_store() -> rusqlite::Connection {
    let conn = rusqlite::Connection::open_in_memory().expect("in-memory store");
    assert!(Sqlite::init(&conn, &DatabaseStruct::users_table("logins"), true));
    conn
}

fn table_names(conn: &rusqlite::Connection) -> Vec<String> {
    let rows = Sqlite::retrieve(conn, "SELECT name FROM sqlite_master WHERE type='table'", None)
        .expect("list tables");
    rows.into_iter().map(|mut r| r.remove(0)).collect()
}

#[test]
fn connect_without_fail_safe_is_unavailable_when_store_missing() {
    let db = Database::connect(
        DatabaseStruct::users_table("no_such_store_here"),
        false,
        &default_cfg(),
        false,
    );
    assert!(matches!(db.conn, DatabaseType::Unavailable));
}

#[test]
fn connect_with_fail_safe_uses_fallback_when_it_exists() {
    let db = Database::connect(
        DatabaseStruct::users_table("no_such_store_here"),
        true,
        &default_cfg(),
        true,
    );
    match db.conn {
        DatabaseType::Textfile(path) => assert_eq!(path, "db/no_such_store_here.txt"),
        other => panic!("expected the fallback backend, got {:?}", other),
    }
}

#[test]
fn connect_with_fail_safe_is_unavailable_when_fallback_missing() {
    let db = Database::connect(
        DatabaseStruct::users_table("no_such_store_here"),
        true,
        &default_cfg(),
        false,
    );
    assert!(matches!(db.conn, DatabaseType::Unavailable));
}

#[test]
fn reset_leaves_exactly_one_seeded_row() {
    let conn = fresh_store();
    let rows = Sqlite::retrieve(&conn, "SELECT username, password, name FROM users", None)
        .expect("read users");
    assert_eq!(rows.len(), 1);
    assert_eq!(rows[0], vec!["admin".to_string(), "admin123".to_string(), "Admin".to_string()]);
}

#[test]
fn reset_drops_pre_existing_tables() {
    let conn = rusqlite::Connection::open_in_memory().expect("in-memory store");
    conn.execute("CREATE TABLE junk (x TEXT)", []).expect("create junk");
    assert!(Sqlite::init(&conn, &DatabaseStruct::users_table("logins"), true));
    let names = table_names(&conn);
    assert!(!names.iter().any(|n| n == "junk"));
    assert!(names.iter().any(|n| n == "users"));
}

#[test]
fn reset_disabled_keeps_schema_and_succeeds() {
    let conn = rusqlite::Connection::open_in_memory().expect("in-memory store");
    conn.execute("CREATE TABLE keep_me (x TEXT)", []).expect("create keep_me");
    assert!(Sqlite::init(&conn, &DatabaseStruct::users_table("logins"), false));
    let names = table_names(&conn);
    assert!(names.iter().any(|n| n == "keep_me"));
    assert!(!names.iter().any(|n| n == "users"));
}

#[test]
fn failed_reset_leaves_pre_reset_schema_intact() {
    let conn = rusqlite::Connection::open_in_memory().expect("in-memory store");
    // A table whose name breaks the unquoted drop statement makes the reset
    // fail partway through its drops.
    conn.execute("CREATE TABLE \"odd name\" (x TEXT)", []).expect("create odd table");
    conn.execute("CREATE TABLE keep_me (x TEXT)", []).expect("create keep_me");
    conn.execute("INSERT INTO keep_me (x) VALUES ('marker')", []).expect("seed keep_me");
    assert!(!Sqlite::init(&conn, &DatabaseStruct::users_table("logins"), true));
    let names = table_names(&conn);
    assert!(names.iter().any(|n| n == "odd name"));
    assert!(names.iter().any(|n| n == "keep_me"));
    assert!(!names.iter().any(|n| n == "users"));
    let rows = Sqlite::retrieve(&conn, "SELECT x FROM keep_me", None).expect("read keep_me");
    assert_eq!(rows, vec![vec!["marker".to_string()]]);
}

#[test]
fn login_with_seeded_credential_succeeds() {
    let db = Database { conn: DatabaseType::Sqlite(fresh_store()) };
    let mut response = Response::new();
    handle_login(&db, "admin".to_string(), "admin123", &mut response);
    assert_eq!(response.response_status, ResponseStatus::Success);
    assert_eq!(response.status_line, "HTTP/1.1 200");
    assert_eq!(response.response_data, "HTTP/1.1 200\r\nContent-Length: 2\r\n\r\nok");
}

#[test]
fn login_with_wrong_password_is_forbidden() {
    let db = Database { conn: DatabaseType::Sqlite(fresh_store()) };
    let mut response = Response::new();
    handle_login(&db, "admin".to_string(), "wrong", &mut response);
    assert_eq!(response.response_status, ResponseStatus::Denied);
    assert_eq!(response.status_line, "HTTP/1.1 403 Forbidden");
}

#[test]
fn login_with_unknown_username_is_forbidden() {
    let db = Database { conn: DatabaseType::Sqlite(fresh_store()) };
    let mut response = Response::new();
    handle_login(&db, "nobody".to_string(), "whatever", &mut response);
    assert_eq!(response.response_status, ResponseStatus::Denied);
    assert_eq!(response.status_line, "HTTP/1.1 403 Forbidden");
}

#[test]
fn login_against_unavailable_store_is_forbidden() {
    let db = Database { conn: DatabaseType::Unavailable };
    let mut response = Response::new();
    handle_login(&db, "admin".to_string(), "admin123", &mut response);
    assert_eq!(response.response_status, ResponseStatus::Denied);
    assert_eq!(response.status_line, "HTTP/1.1 403 Forbidden");
}

#[test]
fn typed_reads_are_not_implemented_off_the_relational_backend() {
    let db = Database { conn: DatabaseType::Textfile("logins.txt".to_string()) };
    let q = GQuery::Password { username: "admin".to_string() };
    assert_eq!(db.get(&q), Err(StoreError::NotImplemented));
    let db = Database { conn: DatabaseType::Unavailable };
    assert_eq!(db.get(&q), Err(StoreError::NotImplemented));
}

#[test]
fn typed_read_returns_rows_in_order() {
    let db = Database { conn: DatabaseType::Sqlite(fresh_store()) };
    let q = GQuery::Password { username: "admin".to_string() };
    assert_eq!(db.get(&q), Ok(vec![vec!["admin123".to_string()]]));
}

#[test]
fn escape_hatch_runs_trusted_statement_text() {
    let db = Database { conn: DatabaseType::Sqlite(fresh_store()) };
    let stmt = TrustedStatement { sql: "SELECT username FROM users".to_string() };
    assert_eq!(db.get_data(&stmt), Ok(vec![vec!["admin".to_string()]]));
}

#[test]
fn storage_locations_derive_from_the_logical_name() {
    assert_eq!(docauth::database::db::db_location("logins"), "db/logins.db");
    assert_eq!(docauth::database::db::fallback_location("logins"), "db/logins.txt");
}

#[test]
fn seed_statement_holds_the_default_credential() {
    let (sql, params) = docauth::database::sqlite::seed_statement();
    assert_eq!(sql, "INSERT INTO users (username, password, name) VALUES (?1, ?2, ?3)");
    assert_eq!(docauth::tools::text::count_char_str(&sql, '?'), params.len());
    let texts: Vec<String> = params
        .into_iter()
        .map(|p| match p {
            docauth::database::db::SqlParam::Text(s) => s,
            docauth::database::db::SqlParam::Null => panic!("seed parameters are all text"),
        })
        .collect();
    assert_eq!(texts, vec!["admin".to_string(), "admin123".to_string(), "Admin".to_string()]);
}

#[test]
fn successful_open_is_kept_when_auto_reset_is_off() {
    let conn = rusqlite::Connection::open_in_memory().expect("in-memory store");
    let no_reset = Config {
        entries: vec![
            ("auto_reset".to_string(), ConfigValue::Bool(false)),
            ("debug".to_string(), ConfigValue::Bool(false)),
        ],
    };
    let backend = docauth::database::db::relational_backend(
        conn,
        &DatabaseStruct::users_table("logins"),
        &no_reset,
    );
    assert!(matches!(backend, DatabaseType::Sqlite(_)));
}

#[test]
fn schema_reset_respects_configured_toggle() {
    // A config whose auto_reset entry is mistyped counts as disabled.
    let cfg = Config {
        entries: vec![("auto_reset".to_string(), ConfigValue::Text("yes".to_string()))],
    };
    assert!(!cfg.auto_reset());
    assert!(default_cfg().auto_reset());
}
