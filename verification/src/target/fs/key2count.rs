//! A count source that counts what the file a key maps to holds.

use std::path::PathBuf;
use vstd::prelude::*;

use crate::source::fs::key2path::KeyToPath;

verus! {

/// A count source that maps the key to a path with `key2path`, opens the file
/// there with `path2read` and counts it with `read2count`.
pub struct KeyToCnt<K, P, R> {
    pub key2path: K,
    pub path2read: P,
    pub read2count: R,
}

impl<K: KeyToPath, P, R> KeyToCnt<K, P, R> {
    /// The path of the file that holds the count of `key`.
    pub fn count_path(&self, key: &K::Key) -> (path: PathBuf)
        ensures
            self.key2path.gives_path(key, path),
    {
        self.key2path.key2path(key)
    }
}

/// Makes a count source from a mapping of keys to paths, an opener of files and
/// a counter of what they hold.
pub fn cnt_src_key2cnt_new<K, P, R>(key2path: K, path2read: P, read2count: R) -> (s: KeyToCnt<K, P, R>) where
    K: KeyToPath,

    ensures
        s.key2path == key2path,
        s.path2read == path2read,
        s.read2count == read2count,
{
    KeyToCnt { key2path, path2read, read2count }
}

} // verus!
