pub mod encrypt;
