//! Comparing the counts that a source and a target report for one key.
//!
//! Comparing waits first for the source's count, then for the target's.
//! The decisions between the two waits are [`compare_start`] and
//! [`compare_step`]: a runtime asks the count source that the action names,
//! hands the answer back, and stops at the first `Finish`.

use tonic::Status;
use vstd::prelude::*;

verus! {

/// The counts that the source and the target report for a key.
#[derive(Debug)]
pub struct CompareCount<K> {
    pub key: K,
    pub count_src: u64,
    pub count_tgt: u64,
}

/// The count that a comparison waits for.
#[derive(Clone, Copy, Debug)]
pub enum CompareWait {
    /// The source's count.
    Source,
    /// The target's count, the source having reported `count_src`.
    Target { count_src: u64 },
}

/// What a comparison does next.
pub enum CompareAction<K> {
    /// Ask for the count named by the wait, and hand the answer to [`compare_step`] with it.
    Fetch(CompareWait),
    /// The comparison is over, with this answer.
    Finish(Result<CompareCount<K>, Status>),
}

/// What a comparison does next, without the key: the counts of a finished one.
pub enum CompareOutcome {
    Fetch(CompareWait),
    Finish(Result<(u64, u64), Status>),
}

impl<K> View for CompareAction<K> {
    type V = CompareOutcome;

    open spec fn view(&self) -> CompareOutcome {
        match self {
            CompareAction::Fetch(wait) => CompareOutcome::Fetch(*wait),
            CompareAction::Finish(Ok(c)) => CompareOutcome::Finish(Ok((c.count_src, c.count_tgt))),
            CompareAction::Finish(Err(e)) => CompareOutcome::Finish(Err(*e)),
        }
    }
}

/// The next step of a comparison that waited for `wait` and got `count`:
/// a failure ends it with that failure; the source's count leads to waiting for
/// the target's; the target's count ends it with both counts.
pub open spec fn compare_next(wait: CompareWait, count: Result<u64, Status>) -> CompareOutcome {
    match count {
        Err(e) => CompareOutcome::Finish(Err(e)),
        Ok(n) => match wait {
            CompareWait::Source => CompareOutcome::Fetch(CompareWait::Target { count_src: n }),
            CompareWait::Target { count_src } => CompareOutcome::Finish(Ok((count_src, n))),
        },
    }
}

/// What a comparison answers when the source answers `src` and, if it is
/// asked, the target answers `tgt`: both counts, or the first failure.
pub open spec fn compare_result(src: Result<u64, Status>, tgt: Result<u64, Status>) -> Result<(u64, u64), Status> {
    match src {
        Err(e) => Err(e),
        Ok(a) => match tgt {
            Err(e) => Err(e),
            Ok(b) => Ok((a, b)),
        },
    }
}

/// The first action of a comparison: wait for the source's count.
pub fn compare_start<K>() -> (a: CompareAction<K>)
    ensures
        a@ == CompareOutcome::Fetch(CompareWait::Source),
{
    CompareAction::Fetch(CompareWait::Source)
}

/// The next action of the comparison of `key` that waited for `wait` and got `count`.
/// A finished comparison holds a clone of `key`.
pub fn compare_step<K: Clone>(key: &K, wait: CompareWait, count: Result<u64, Status>) -> (a: CompareAction<K>)
    ensures
        a@ == compare_next(wait, count),
        a matches CompareAction::Finish(Ok(c)) ==> cloned(*key, c.key),
        count matches Err(e) ==> a matches CompareAction::Finish(Err(f)) && f == e,
        (wait is Source && count is Ok) ==> a is Fetch && a->Fetch_0 == (CompareWait::Target { count_src: count->Ok_0 }),
        (wait is Target && count is Ok) ==> {
            &&& a is Finish
            &&& a->Finish_0 is Ok
            &&& a->Finish_0->Ok_0.count_src == wait->count_src
            &&& a->Finish_0->Ok_0.count_tgt == count->Ok_0
        },
{
    match count {
        Err(e) => CompareAction::Finish(Err(e)),
        Ok(n) => match wait {
            CompareWait::Source => CompareAction::Fetch(CompareWait::Target { count_src: n }),
            CompareWait::Target { count_src } => CompareAction::Finish(
                Ok(CompareCount { key: key.clone(), count_src, count_tgt: n }),
            ),
        },
    }
}

/// A comparison of a key starts by asking the source. If the source fails, the
/// comparison ends with that failure and the target is not asked. Otherwise the
/// target is asked once, and the comparison ends with both counts, or with the
/// target's failure.
pub proof fn compare_protocol(src: Result<u64, Status>, tgt: Result<u64, Status>)
    ensures
        src is Err ==> compare_next(CompareWait::Source, src) == CompareOutcome::Finish(compare_result(src, tgt)),
        src matches Ok(a) ==> {
            &&& compare_next(CompareWait::Source, src) == CompareOutcome::Fetch(CompareWait::Target { count_src: a })
            &&& compare_next(CompareWait::Target { count_src: a }, tgt) == CompareOutcome::Finish(compare_result(src, tgt))
        },
{
}

/// Comparing the same key twice, with the source and the target answering the
/// same both times, ends the same both times: the same counts, or the same
/// failure. (The key of a finished comparison is a clone of the key each time;
/// that two clones are equal depends on the key type's `clone`.)
pub proof fn compare_repeatable(
    src1: Result<u64, Status>,
    tgt1: Result<u64, Status>,
    src2: Result<u64, Status>,
    tgt2: Result<u64, Status>,
)
    requires
        src1 == src2,
        tgt1 == tgt2,
    ensures
        compare_next(CompareWait::Source, src1) == compare_next(CompareWait::Source, src2),
        compare_result(src1, tgt1) == compare_result(src2, tgt2),
        forall|wait: CompareWait| #[trigger] compare_next(wait, tgt1) == compare_next(wait, tgt2),
{
    compare_protocol(src1, tgt1);
    compare_protocol(src2, tgt2);
}

/// Each count is reported exactly as its side gave it, whatever the order of
/// the two: the source's count `a` leads to waiting for the target with `a`
/// kept; the target's count `b` then ends the comparison with `(a, b)`; and a
/// failure on either side ends it with that very failure.
pub proof fn compare_reports_counts_as_given(a: u64, b: u64, e: Status)
    ensures
        compare_next(CompareWait::Source, Ok(a)) == CompareOutcome::Fetch(CompareWait::Target { count_src: a }),
        compare_next(CompareWait::Target { count_src: a }, Ok(b)) == CompareOutcome::Finish(Ok((a, b))),
        compare_next(CompareWait::Source, Err(e)) == CompareOutcome::Finish(Err(e)),
        compare_next(CompareWait::Target { count_src: a }, Err(e)) == CompareOutcome::Finish(Err(e)),
        compare_result(Ok(a), Ok(b)) == Ok::<(u64, u64), Status>((a, b)),
        compare_result(Err(e), Ok(b)) == Err::<(u64, u64), Status>(e),
        compare_result(Ok(a), Err(e)) == Err::<(u64, u64), Status>(e),
        a != b ==> compare_result(Ok(a), Ok(b)) != compare_result(Ok(a), Ok(a)),
{
}

/// Compares the counts of a source and a target.
pub struct CompareCntSrc<S, T> {
    src: S,
    tgt: T,
}

impl<S, T> CompareCntSrc<S, T> {
    /// The source.
    pub closed spec fn source_counts(&self) -> S {
        self.src
    }

    /// The target.
    pub closed spec fn target_counts(&self) -> T {
        self.tgt
    }

    /// The source, to ask for the count that [`CompareWait::Source`] waits for.
    pub fn source(&self) -> (s: &S)
        ensures
            *s == self.source_counts(),
    {
        &self.src
    }

    /// The target, to ask for the count that [`CompareWait::Target`] waits for.
    pub fn target(&self) -> (t: &T)
        ensures
            *t == self.target_counts(),
    {
        &self.tgt
    }
}

/// Makes a comparison of the counts of `src` and `tgt`.
pub fn compare_cnt_src_new<S, T>(src: S, tgt: T) -> (c: CompareCntSrc<S, T>)
    ensures
        c.source_counts() == src,
        c.target_counts() == tgt,
{
    CompareCntSrc { src, tgt }
}

} // verus!
