//! The document-root table: which directory serves a requested file, chosen
//! by the file's extension. Reading the documents themselves is the caller's
//! job; this module only resolves the directory.

use crate::tools::text::{rfind_before, rfind_char, str_eq};
use vstd::prelude::*;

verus! {

/// Maps file extensions to the directory they are served from.
#[derive(Debug)]
pub struct FileSystem {
    pub allowed_ext: Vec<(String, String)>,
}

/// The extension of `path`: everything after the last `.`, or the whole path
/// when it holds no `.` (mirroring a split on `.` taking the last piece).
pub open spec fn ext_of(path: Seq<char>) -> Seq<char> {
    let k = rfind_before(path, '.', path.len() as int);
    if k == -1 {
        path
    } else {
        path.subrange(k + 1, path.len() as int)
    }
}

/// The directory registered for `key`, searching from the front.
pub open spec fn lookup_dir(entries: Seq<(String, String)>, key: Seq<char>) -> Option<Seq<char>>
    decreases entries.len(),
{
    if entries.len() == 0 {
        None
    } else if entries[0].0@ == key {
        Some(entries[0].1@)
    } else {
        lookup_dir(entries.drop_first(), key)
    }
}

/// The directory a path is served from: the one registered for its
/// extension, or `public` for everything else.
pub open spec fn dir_for(entries: Seq<(String, String)>, path: Seq<char>) -> Seq<char> {
    match lookup_dir(entries, ext_of(path)) {
        Some(d) => d,
        None => "public"@,
    }
}

impl FileSystem {
    /// The served extensions: `html` from `public`, `css` and `js` from their
    /// static directories.
    pub fn init() -> (r: FileSystem)
        ensures
            r.allowed_ext@.len() == 3,
            r.allowed_ext@[0].0@ == "html"@ && r.allowed_ext@[0].1@ == "public"@,
            r.allowed_ext@[1].0@ == "css"@ && r.allowed_ext@[1].1@ == "static/css"@,
            r.allowed_ext@[2].0@ == "js"@ && r.allowed_ext@[2].1@ == "static/js"@,
    {
        let allowed_ext: Vec<(String, String)> = vec![
            ("html".to_owned(), "public".to_owned()),
            ("css".to_owned(), "static/css".to_owned()),
            ("js".to_owned(), "static/js".to_owned()),
        ];
        FileSystem { allowed_ext }
    }

    /// The directory `string_path` is served from, by its extension.
    pub fn check_file_extension(&self, string_path: &String) -> (r: String)
        ensures
            r@ == dir_for(self.allowed_ext@, string_path@),
    {
        let s = string_path.as_str();
        let n = s.unicode_len();
        let ext: String = match rfind_char(s, '.', n) {
            Some(k) => s.substring_char(k + 1, n).to_owned(),
            None => string_path.clone(),
        };
        let count = self.allowed_ext.len();
        let mut i: usize = 0;
        proof {
            assert(self.allowed_ext@.subrange(0, count as int) =~= self.allowed_ext@);
        }
        while i < count
            invariant
                count == self.allowed_ext@.len(),
                0 <= i <= count,
                ext@ == ext_of(string_path@),
                lookup_dir(self.allowed_ext@, ext@) == lookup_dir(
                    self.allowed_ext@.subrange(i as int, count as int),
                    ext@,
                ),
            decreases count - i,
        {
            proof {
                assert(self.allowed_ext@.subrange(i as int, count as int).drop_first()
                    =~= self.allowed_ext@.subrange(i + 1, count as int));
            }
            if str_eq(self.allowed_ext[i].0.as_str(), ext.as_str()) {
                return self.allowed_ext[i].1.clone();
            }
            i = i + 1;
        }
        "public".to_owned()
    }
}

} // verus!
