//! The shared tools: text helpers, configuration resolution, the
//! document-root table, the schema statement builders, and the crypto
//! utilities.

use docauth::database::db::DatabaseStruct;
use docauth::database::sqlite::{create_table_stmt, drop_statements, first_cells};
use docauth::database::textfile::TextFile;
use docauth::login::encrypt::{Decrypt, Encrypt, Keys};
use docauth::tools::config::{
    default_config, resolve_config, validate_config, Config, ConfigValue, DType,
};
use docauth::tools::filesystem::FileSystem;
use docauth::tools::text::{count_char_str, str_eq, trim, usize_to_string};

#[test]
fn decimal_rendering_is_exact() {
    assert_eq!(usize_to_string(0), "0");
    assert_eq!(usize_to_string(7), "7");
    assert_eq!(usize_to_string(123), "123");
    assert_eq!(usize_to_string(404), "404");
    assert_eq!(usize_to_string(100200), "100200");
}

#[test]
fn trimming_strips_surrounding_whitespace() {
    assert_eq!(trim(" GET \r\n"), "GET");
    assert_eq!(trim(""), "");
    assert_eq!(trim(" \t "), "");
    assert_eq!(trim("a b"), "a b");
}

#[test]
fn character_counting_and_equality() {
    assert_eq!(count_char_str("?1, ?2, ?3", '?'), 3);
    assert_eq!(count_char_str("", '?'), 0);
    assert!(str_eq("abc", "abc"));
    assert!(!str_eq("abc", "abd"));
    assert!(!str_eq("abc", "ab"));
}

#[test]
fn extension_table_routes_to_directories() {
    let fs = FileSystem::init();
    assert_eq!(fs.check_file_extension(&"style.css".to_string()), "static/css");
    assert_eq!(fs.check_file_extension(&"app.js".to_string()), "static/js");
    assert_eq!(fs.check_file_extension(&"index.html".to_string()), "public");
    assert_eq!(fs.check_file_extension(&"picture.png".to_string()), "public");
    assert_eq!(fs.check_file_extension(&"no_extension".to_string()), "public");
    assert_eq!(fs.check_file_extension(&"archive.tar.css".to_string()), "static/css");
}

#[test]
fn default_configuration_enables_auto_reset() {
    let cfg = default_config();
    assert!(cfg.auto_reset());
    assert!(validate_config(&cfg));
}

#[test]
fn missing_or_invalid_configuration_falls_back_to_defaults() {
    let resolved = resolve_config(None);
    assert!(resolved.auto_reset());

    let mistyped = Config {
        entries: vec![
            ("auto_reset".to_string(), ConfigValue::Text("yes".to_string())),
            ("debug".to_string(), ConfigValue::Bool(false)),
        ],
    };
    assert!(!validate_config(&mistyped));
    assert!(resolve_config(Some(mistyped)).auto_reset());

    let incomplete = Config {
        entries: vec![("auto_reset".to_string(), ConfigValue::Bool(false))],
    };
    assert!(!validate_config(&incomplete));
    assert!(resolve_config(Some(incomplete)).auto_reset());
}

#[test]
fn valid_configuration_is_kept_as_loaded() {
    let loaded = Config {
        entries: vec![
            ("auto_reset".to_string(), ConfigValue::Bool(false)),
            ("debug".to_string(), ConfigValue::Bool(true)),
        ],
    };
    assert!(validate_config(&loaded));
    let resolved = resolve_config(Some(loaded));
    assert!(!resolved.auto_reset());
}

#[test]
fn dtype_maps_to_sql_column_types() {
    assert_eq!(DType::String.as_sql(), "TEXT");
    assert_eq!(DType::Bool.as_sql(), "INTEGER");
    assert_eq!(DType::Integer.as_sql(), "INTEGER");
}

#[test]
fn create_statement_renders_the_fixed_user_table() {
    let schema = DatabaseStruct::users_table("logins");
    assert_eq!(
        create_table_stmt(&schema.items),
        "CREATE TABLE IF NOT EXISTS users (username TEXT PRIMARY KEY, password TEXT, \
         name TEXT, email TEXT, site TEXT)"
    );
}

#[test]
fn drop_plan_spares_the_sequence_table() {
    let names = vec![
        "users".to_string(),
        "sqlite_sequence".to_string(),
        "logs".to_string(),
    ];
    assert_eq!(
        drop_statements(&names),
        vec![
            "DROP TABLE IF EXISTS users".to_string(),
            "DROP TABLE IF EXISTS logs".to_string(),
        ]
    );
}

#[test]
fn first_cells_skip_empty_rows() {
    let rows = vec![
        vec!["a".to_string(), "x".to_string()],
        vec![],
        vec!["b".to_string()],
    ];
    assert_eq!(first_cells(&rows), vec!["a".to_string(), "b".to_string()]);
}

#[test]
fn fallback_store_opens_only_when_available() {
    assert_eq!(TextFile::open("logins.txt", true), Ok("logins.txt".to_string()));
    assert!(TextFile::open("logins.txt", false).is_err());
}

#[test]
fn sha256_matches_the_published_test_vector() {
    let digest = Encrypt::sha256(&"abc".to_string());
    assert_eq!(digest, "ba7816bf8f01cfea414140de5dae2223b00361a396177a9cb410ff61f20015ad");
    assert_eq!(digest.len(), 64);
}

#[test]
fn sealed_text_opens_back_to_the_original() {
    let key = Keys::new();
    let plaintext = "a secret note".to_string();
    let (ciphertext, nonce) = Encrypt::aes(&key, &plaintext).expect("sealing should succeed");
    assert_ne!(ciphertext, plaintext);
    assert_eq!(Decrypt::aes(&key, &ciphertext, &nonce), Some(plaintext));
}

#[test]
fn opening_with_the_wrong_key_fails() {
    let key = Keys::new();
    let other_key = Keys::new();
    let (ciphertext, nonce) =
        Encrypt::aes(&key, &"a secret note".to_string()).expect("sealing should succeed");
    if key != other_key {
        assert_eq!(Decrypt::aes(&other_key, &ciphertext, &nonce), None);
    }
}
