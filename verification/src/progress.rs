//! Progress of one transfer, kept as an exact fraction of bytes done over
//! the session's total. Sessions never divide: the caller renders the
//! fraction however it likes, and the contracts stay in integers.

use vstd::prelude::*;

verus! {

/// `done` bytes of `total` transferred so far.
#[derive(Clone, Copy, PartialEq, Eq, Structural, Debug)]
pub struct Progress {
    pub done: u64,
    pub total: u64,
}

impl Progress {
    /// The fraction never exceeds one.
    pub open spec fn wf(self) -> bool {
        self.done <= self.total
    }

    /// Ordering of two progress values of one session (same total).
    /// An empty total counts as already complete.
    pub open spec fn le(self, other: Progress) -> bool {
        self.total == other.total && self.done <= other.done
    }

    pub open spec fn is_zero(self) -> bool {
        self.done == 0
    }

    /// The fraction equals one exactly.
    pub open spec fn is_complete_spec(self) -> bool {
        self.done == self.total
    }

    pub fn new(done: u64, total: u64) -> (r: Progress)
        requires
            done <= total,
        ensures
            r == (Progress { done, total }),
            r.wf(),
    {
        Progress { done, total }
    }

    pub fn start(total: u64) -> (r: Progress)
        ensures
            r == (Progress { done: 0, total }),
            r.wf(),
            r.is_zero(),
    {
        Progress { done: 0, total }
    }

    pub fn is_complete(&self) -> (b: bool)
        ensures
            b == self.is_complete_spec(),
    {
        self.done == self.total
    }
}

/// Progress ordering within one session is transitive, so the per-step
/// guarantee that a step never lowers progress makes the whole emitted
/// sequence non-decreasing.
pub proof fn lemma_progress_le_transitive(a: Progress, b: Progress, c: Progress)
    requires
        a.le(b),
        b.le(c),
    ensures
        a.le(c),
{
}

/// The bytes delivered by the first chunks of one copy phase, summed.
pub open spec fn sum_u64(counts: Seq<u64>) -> nat
    decreases counts.len(),
{
    if counts.len() == 0 {
        0
    } else {
        sum_u64(counts.drop_last()) + counts.last() as nat
    }
}

/// A longer prefix of chunks never delivers fewer bytes.
pub proof fn lemma_sum_take_monotone(counts: Seq<u64>, i: int, j: int)
    requires
        0 <= i <= j <= counts.len(),
    ensures
        sum_u64(counts.take(i)) <= sum_u64(counts.take(j)),
    decreases j - i,
{
    if i < j {
        lemma_sum_take_monotone(counts, i, j - 1);
        assert(counts.take(j).drop_last() =~= counts.take(j - 1));
        assert(sum_u64(counts.take(j)) == sum_u64(counts.take(j - 1)) + counts.take(j).last());
    }
}

/// The progress a session reports after its first `i` chunks: the bytes
/// delivered so far over the announced total.
pub open spec fn progress_after(total: u64, counts: Seq<u64>, i: int) -> Progress
    recommends
        0 <= i <= counts.len(),
        sum_u64(counts) <= total,
{
    Progress { done: sum_u64(counts.take(i)) as u64, total }
}

/// The progress values reported over one copy phase — one per delivered
/// chunk, each equal to the bytes so far over the total — form a
/// non-decreasing sequence of fractions within zero and one, and the last
/// one equals one exactly when every announced byte was delivered. The
/// sessions report exactly these values: each `ChunkWritten` / `ChunkSent`
/// step moves the stored progress from `progress_after(total, counts, i)`
/// to `progress_after(total, counts, i + 1)`.
pub proof fn lemma_progress_sequence(total: u64, counts: Seq<u64>, i: int, j: int)
    requires
        0 <= i <= j <= counts.len(),
        sum_u64(counts) <= total,
    ensures
        progress_after(total, counts, i).wf(),
        progress_after(total, counts, i).le(progress_after(total, counts, j)),
        progress_after(total, counts, counts.len() as int).is_complete_spec() <==> sum_u64(counts)
            == total,
{
    let n = counts.len() as int;
    lemma_sum_take_monotone(counts, i, j);
    lemma_sum_take_monotone(counts, j, n);
    lemma_sum_take_monotone(counts, i, n);
    assert(counts.take(n) =~= counts);
}

} // verus!
