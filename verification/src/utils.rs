//! Path of the storage file.
//!
//! Finding the host's data directory (and creating it) is the host's work;
//! the core only fixes where the storage file lives inside it.

use vstd::prelude::*;

verus! {

/// The storage file's path inside the data directory.
pub fn get_database_path(data_dir: &str) -> (r: String)
    ensures
        r@ == data_dir@ + "/chat.db"@,
{
    let p = data_dir.to_owned();
    p.concat("/chat.db")
}

} // verus!
