pub mod db;
pub mod sqlite;
pub mod textfile;
