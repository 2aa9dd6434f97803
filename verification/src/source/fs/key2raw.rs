//! A raw count source that reads the file a key maps to.

use std::path::PathBuf;
use vstd::prelude::*;

use super::key2path::KeyToPath;

verus! {

/// A raw count source that maps the key to a path with `key2path` and reads
/// the file there with `path2raw`.
pub struct KeyToRawFs<K, P> {
    key2path: K,
    path2raw: P,
}

impl<K, P> KeyToRawFs<K, P> {
    /// The mapping from keys to paths.
    pub closed spec fn path_mapping(&self) -> K {
        self.key2path
    }

    /// The reader of files.
    pub closed spec fn file_reader(&self) -> P {
        self.path2raw
    }

    /// The reader of files, to read the file at the path of a key.
    pub fn reader(&self) -> (r: &P)
        ensures
            *r == self.file_reader(),
    {
        &self.path2raw
    }
}

impl<K: KeyToPath, P> KeyToRawFs<K, P> {
    /// The path of the file that holds the raw count of `key`.
    pub fn raw_path(&self, key: &K::Key) -> (path: PathBuf)
        ensures
            self.path_mapping().gives_path(key, path),
    {
        self.key2path.key2path(key)
    }
}

/// Makes a raw count source from a mapping of keys to paths and a reader of files.
pub fn key2raw_fs_new<K, P>(key2path: K, path2raw: P) -> (s: KeyToRawFs<K, P>) where
    K: KeyToPath,

    ensures
        s.path_mapping() == key2path,
        s.file_reader() == path2raw,
{
    KeyToRawFs { key2path, path2raw }
}

} // verus!
