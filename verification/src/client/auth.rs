//! Where the session of the user is kept between two runs of the client.

use std::path::PathBuf;
use vstd::prelude::*;

verus! {

/// A path of the file system, carried through as it is.
#[verifier::external_type_specification]
#[verifier::external_body]
pub struct ExPathBuf(PathBuf);

/// The file in which the session is kept.
pub struct FileSessionStore {
    pub file_path: PathBuf,
}

impl FileSessionStore {
    pub fn new(file_path: PathBuf) -> (store: Self)
        ensures
            store.file_path == file_path,
    {
        FileSessionStore { file_path }
    }
}

} // verus!
