//! Counting what a readable holds.

use core::marker::PhantomData;
use vstd::prelude::*;

verus! {

/// A counter of readables of type `R` made of a function.
pub struct ReadToCntFn<F, R> {
    read2cnt: F,
    read: PhantomData<R>,
}

impl<F, R> ReadToCntFn<F, R> {
    /// The function this counter calls.
    pub closed spec fn function(&self) -> F {
        self.read2cnt
    }

    /// The function, to count a readable with.
    pub fn count_fn(&self) -> (f: &F)
        ensures
            *f == self.function(),
    {
        &self.read2cnt
    }
}

/// Makes a counter of readables that calls `read2cnt`.
pub fn read2cnt_fn_new<F, R>(read2cnt: F) -> (c: ReadToCntFn<F, R>)
    ensures
        c.function() == read2cnt,
{
    ReadToCntFn { read2cnt, read: PhantomData }
}

} // verus!
