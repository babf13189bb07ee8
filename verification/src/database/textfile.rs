//! The flat-file fallback store. Its record layout and query semantics are
//! deliberately undefined; all the facade ever does with it today is open it,
//! which means checking that its file exists.

use crate::database::db::StoreError;
use vstd::prelude::*;

verus! {

/// The flat-file fallback backend.
pub struct TextFile;

impl TextFile {
    /// Opens the fallback store at `path`. The filesystem collaborator
    /// reports through `available` whether the file exists; an absent file
    /// is a failure, not an implicit create.
    pub fn open(path: &str, available: bool) -> (r: Result<String, StoreError>)
        ensures
            available ==> (r matches Ok(p) && p@ == path@),
            !available ==> r == Err::<String, StoreError>(StoreError::NotAvailable),
    {
        if available {
            Ok(path.to_owned())
        } else {
            Err(StoreError::NotAvailable)
        }
    }
}

} // verus!
