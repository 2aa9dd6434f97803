//! Mapping a key to the path of the file that holds its count.

use core::marker::PhantomData;
use std::path::PathBuf;
use vstd::prelude::*;

verus! {

/// `std::path::PathBuf` is carried through the logic as an opaque value.
#[verifier::external_type_specification]
#[verifier::external_body]
pub struct ExPathBuf(PathBuf);

/// Maps a key to a path.
pub trait KeyToPath: Sync + Send {
    type Key: Send + Sync + Clone;

    /// `path` is a path that `key2path` may give for `key`.
    spec fn gives_path(&self, key: &Self::Key, path: PathBuf) -> bool;

    fn key2path(&self, key: &Self::Key) -> (path: PathBuf)
        ensures
            self.gives_path(key, path),
    ;
}

/// A [`KeyToPath`] made of a function.
pub struct KeyToPathFn<F: Fn(&K) -> PathBuf, K> {
    key2path: F,
    ph: PhantomData<K>,
}

impl<F: Fn(&K) -> PathBuf, K> KeyToPathFn<F, K> {
    /// The function this mapping calls.
    pub closed spec fn mapping(&self) -> F {
        self.key2path
    }

    /// The function accepts every key.
    #[verifier::type_invariant]
    spec fn total(&self) -> bool {
        forall|key: &K| #[trigger] call_requires(self.key2path, (key,))
    }
}

impl<F, K> KeyToPath for KeyToPathFn<F, K> where
    F: Fn(&K) -> PathBuf + Sync + Send,
    K: Send + Sync + Clone,
 {
    type Key = K;

    open spec fn gives_path(&self, key: &K, path: PathBuf) -> bool {
        call_ensures(self.mapping(), (key,), path)
    }

    fn key2path(&self, key: &K) -> (path: PathBuf) {
        proof {
            use_type_invariant(self);
        }
        (self.key2path)(key)
    }
}

/// Makes a [`KeyToPath`] that calls `key2path`.
pub fn key2path_fn_new<F, K>(key2path: F) -> (m: KeyToPathFn<F, K>) where
    F: Fn(&K) -> PathBuf + Sync + Send,
    K: Send + Sync + Clone,

    requires
        forall|key: &K| #[trigger] call_requires(key2path, (key,)),
    ensures
        m.mapping() == key2path,
{
    KeyToPathFn { key2path, ph: PhantomData }
}

} // verus!
