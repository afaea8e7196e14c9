//! A mutual-exclusion lock with a scope-bound guard.
//!
//! The lock couples a held/clear flag with the protected payload in one
//! value. Acquiring it hands the whole lock over to the [`SpinGuard`], so
//! while a guard exists nobody else can reach the payload at all: the
//! guard's existence is the proof that the flag is held, and exclusive
//! access is enforced by ownership rather than by a runtime check.
//! Releasing the guard clears the flag and hands the lock back.
//!
//! A consequence, proved as [`push_run`]'s contract and
//! [`lemma_two_runs_serialize`]: work done under one guard lands in the
//! payload as one contiguous block. Two critical sections that each push
//! a run of integers can only produce one of the two serial
//! concatenations, never an element-level interleaving.
//!
//! The lock is not reentrant: acquiring it while it is already held can
//! never return, which is why [`SpinLock::lock`] demands a clear flag.
//! There is no poisoning — a guard released after a partial mutation
//! simply exposes the payload as it stands.
use vstd::prelude::*;

verus! {

/// A held/clear flag co-located with the payload it protects.
pub struct SpinLock<T> {
    is_locked: bool,
    content: T,
}

/// The scope-bound witness that its lock is held. Exactly one guard can
/// exist per lock, because the guard owns the lock while it lives.
pub struct SpinGuard<T> {
    lock: SpinLock<T>,
}

impl<T> SpinLock<T> {
    /// Whether the flag is held.
    pub closed spec fn locked(&self) -> bool {
        self.is_locked
    }

    /// The protected payload.
    pub closed spec fn content(&self) -> T {
        self.content
    }

    /// A fresh lock around `content`, with the flag clear.
    pub fn new(content: T) -> (l: SpinLock<T>)
        ensures
            !l.locked(),
            l.content() == content,
    {
        SpinLock { is_locked: false, content }
    }

    /// Takes the lock: swaps the flag to held and hands out the guard.
    /// Demands a clear flag — acquiring a lock one already holds can
    /// never return.
    pub fn lock(self) -> (g: SpinGuard<T>)
        requires
            !self.locked(),
        ensures
            g.wf(),
            g.content() == self.content(),
    {
        SpinGuard { lock: SpinLock { is_locked: true, content: self.content } }
    }
}

impl<T> SpinGuard<T> {
    /// The payload under the guard.
    pub closed spec fn content(&self) -> T {
        self.lock.content()
    }

    /// A guard only exists while its lock's flag is held.
    pub closed spec fn wf(&self) -> bool {
        self.lock.locked()
    }

    /// Shared access to the payload, valid for the guard's lifetime.
    pub fn deref(&self) -> (r: &T)
        ensures
            *r == self.content(),
    {
        &self.lock.content
    }

    /// Exclusive access to the payload, valid for the guard's lifetime.
    pub fn deref_mut(&mut self) -> (r: &mut T)
        requires
            old(self).wf(),
        ensures
            *r == old(self).content(),
            final(self).content() == *final(r),
            final(self).wf(),
    {
        &mut self.lock.content
    }

    /// Releases the lock: clears the flag unconditionally and hands the
    /// lock back, whatever state the payload was left in.
    pub fn drop(self) -> (l: SpinLock<T>)
        ensures
            !l.locked(),
            l.content() == self.content(),
    {
        SpinLock { is_locked: false, content: self.lock.content }
    }
}

/// The contiguous run of `count` integers starting at `start`.
pub open spec fn run(start: int, count: int) -> Seq<i32>
    decreases count,
{
    if count <= 0 {
        Seq::empty()
    } else {
        run(start, count - 1).push((start + count - 1) as i32)
    }
}

/// A run has one element per counted integer.
pub proof fn lemma_run_len(start: int, count: int)
    requires
        0 <= count,
    ensures
        run(start, count).len() == count,
    decreases count,
{
    if count > 0 {
        lemma_run_len(start, count - 1);
    }
}

/// One critical section: takes the lock, pushes the whole run
/// `start, start + 1, ..., start + count - 1`, releases the lock. The
/// contract shows the run lands as one contiguous block at the end of
/// the payload — nothing can interleave with it while the guard exists.
pub fn push_run(lock: SpinLock<Vec<i32>>, start: i32, count: usize) -> (l: SpinLock<Vec<i32>>)
    requires
        !lock.locked(),
        count <= i32::MAX,
        start + count <= i32::MAX + 1,
        lock.content()@.len() + count <= usize::MAX,
    ensures
        !l.locked(),
        l.content()@ == lock.content()@ + run(start as int, count as int),
{
    let mut guard = lock.lock();
    let mut i: usize = 0;
    while i < count
        invariant
            guard.wf(),
            0 <= i <= count,
            count <= i32::MAX,
            start + count <= i32::MAX + 1,
            guard.content()@.len() == lock.content()@.len() + i,
            guard.content()@ == lock.content()@ + run(start as int, i as int),
        decreases count - i,
    {
        let v = guard.deref_mut();
        v.push(start + i as i32);
        proof {
            assert(run(start as int, i + 1 as int) == run(start as int, i as int).push(
                (start + i) as i32,
            ));
        }
        i = i + 1;
    }
    guard.drop()
}

/// Mutual-exclusion law: when two runs go through the lock, each
/// critical section appends its run whole, so the payload ends as one of
/// the two serial concatenations — full length, each run contiguous —
/// and never as an element-level interleaving.
pub proof fn lemma_two_runs_serialize(s1: int, c1: int, s2: int, c2: int)
    requires
        0 <= c1,
        0 <= c2,
    ensures
        (run(s1, c1) + run(s2, c2)).len() == c1 + c2,
        (run(s2, c2) + run(s1, c1)).len() == c1 + c2,
        (run(s1, c1) + run(s2, c2)).subrange(0, c1) == run(s1, c1),
        (run(s1, c1) + run(s2, c2)).subrange(c1, c1 + c2) == run(s2, c2),
{
    lemma_run_len(s1, c1);
    lemma_run_len(s2, c2);
    assert((run(s1, c1) + run(s2, c2)).subrange(0, c1) =~= run(s1, c1));
    assert((run(s1, c1) + run(s2, c2)).subrange(c1, c1 + c2) =~= run(s2, c2));
}

} // verus!
