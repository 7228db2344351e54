use vstd::prelude::*;
use vstd::string::*;

verus! {

/// A file as handled by the agent.
///
/// `base_path` is the root of the watched tree the file was found in and `key`
/// is the file's path relative to that root. The key identifies the file both
/// in the object store and in the persistent record of files already seen.
#[derive(Debug, Clone)]
pub struct File {
    pub base_path: String,
    pub key: String,
}

impl File {
    /// Builds a file from its watch root and its key.
    pub fn new(base_path: String, key: String) -> (file: File)
        ensures
            file.base_path@ == base_path@,
            file.key@ == key@,
    {
        File { base_path, key }
    }

    /// The file's path in the file system: the watch root, a separator and
    /// the key.
    pub open spec fn spec_full_path(&self) -> Seq<char> {
        self.base_path@ + "/"@ + self.key@
    }

    /// The file's path in the file system.
    pub fn full_path(&self) -> (path: String)
        ensures
            path@ == self.spec_full_path(),
    {
        let mut path = self.base_path.clone();
        path.append("/");
        path.append(self.key.as_str());
        path
    }
}

} // verus!
