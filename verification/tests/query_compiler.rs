//! The query compiler: fixed statement texts, ordered parameter lists, and
//! the placeholder/parameter balance for every variant.

use docauth::database::db::{AQuery, GQuery, SqlParam};
use docauth::database::sqlite::Sqlite;
use docauth::tools::text::count_char_str;

fn param_is_text(p: &SqlParam, expected: &str) -> bool {
    match p {
        SqlParam::Text(s) => s == expected,
        SqlParam::Null => false,
    }
}

#[test]
fn add_user_compiles_to_fixed_insert() {
    let q = AQuery::User {
        username: "u".to_string(),
        password: "p".to_string(),
        name: Some("n".to_string()),
        email: None,
        site: None,
    };
    let (sql, params) = Sqlite::convert_a_to_sql(&q);
    assert_eq!(
        sql,
        "INSERT INTO users (username, password, name, email, site) VALUES (?1, ?2, ?3, ?4, ?5)"
    );
    assert_eq!(params.len(), 5);
    assert!(param_is_text(&params[0], "u"));
    assert!(param_is_text(&params[1], "p"));
    assert!(param_is_text(&params[2], "n"));
    assert!(matches!(params[3], SqlParam::Null));
    assert!(matches!(params[4], SqlParam::Null));
}

#[test]
fn link_external_id_compiles_to_fixed_update() {
    let q = AQuery::UserIDAdd {
        username: "u".to_string(),
        password: "p".to_string(),
        id: "42".to_string(),
    };
    let (sql, params) = Sqlite::convert_a_to_sql(&q);
    assert_eq!(sql, "UPDATE users SET id=?1 WHERE username=?2 AND password=?3");
    assert_eq!(params.len(), 3);
    assert!(param_is_text(&params[0], "42"));
    assert!(param_is_text(&params[1], "u"));
    assert!(param_is_text(&params[2], "p"));
}

#[test]
fn update_site_compiles_to_fixed_update() {
    let q = AQuery::UserPing { username: "u".to_string(), site: "s".to_string() };
    let (sql, params) = Sqlite::convert_a_to_sql(&q);
    assert_eq!(sql, "UPDATE users SET site=?1 WHERE username=?2");
    assert_eq!(params.len(), 2);
    assert!(param_is_text(&params[0], "s"));
    assert!(param_is_text(&params[1], "u"));
}

#[test]
fn fetch_password_compiles_to_fixed_select() {
    let q = GQuery::Password { username: "admin".to_string() };
    let (sql, params) = Sqlite::convert_g_to_sql(&q);
    assert_eq!(sql, "Select password From users WHERE username = ?1");
    assert_eq!(params.len(), 1);
    assert!(param_is_text(&params[0], "admin"));
}

#[test]
fn fetch_profile_compiles_to_fixed_select() {
    let q = GQuery::UserData { username: "admin".to_string() };
    let (sql, params) = Sqlite::convert_g_to_sql(&q);
    assert_eq!(sql, "Select name,email From users WHERE username = ?1");
    assert_eq!(params.len(), 1);
    assert!(param_is_text(&params[0], "admin"));
}

#[test]
fn every_write_variant_balances_placeholders_and_parameters() {
    let queries = vec![
        AQuery::User {
            username: "u".to_string(),
            password: "p".to_string(),
            name: None,
            email: None,
            site: None,
        },
        AQuery::UserIDAdd {
            username: "u".to_string(),
            password: "p".to_string(),
            id: "1".to_string(),
        },
        AQuery::UserPing { username: "u".to_string(), site: "s".to_string() },
    ];
    for q in &queries {
        let (sql, params) = Sqlite::convert_a_to_sql(q);
        assert_eq!(count_char_str(&sql, '?'), params.len());
    }
}

#[test]
fn every_read_variant_balances_placeholders_and_parameters() {
    let queries = vec![
        GQuery::Password { username: "u".to_string() },
        GQuery::UserData { username: "u".to_string() },
    ];
    for q in &queries {
        let (sql, params) = Sqlite::convert_g_to_sql(q);
        assert_eq!(count_char_str(&sql, '?'), params.len());
    }
}
