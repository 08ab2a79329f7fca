//! Completion signals: values that stand for "the GPU has finished this work".
//!
//! A signal is a small tree. Its leaves are the handles of pieces of submitted
//! work; joining two signals gives one that resolves when both have. The frame
//! loop keeps exactly one live signal and prunes it as the driver reports
//! handles that have completed.

use vstd::prelude::*;

verus! {

/// An awaitable GPU completion.
#[derive(Debug, PartialEq, Eq)]
pub enum Signal {
    /// Nothing left to wait for.
    Ready,
    /// Resolves when the work behind this handle has completed.
    Pending(u64),
    /// Resolves when both parts have.
    Joined(Box<Signal>, Box<Signal>),
}

impl Signal {
    /// The handles this signal still waits for.
    pub open spec fn handles(self) -> Set<u64>
        decreases self,
    {
        match self {
            Signal::Ready => Set::empty(),
            Signal::Pending(h) => set![h],
            Signal::Joined(a, b) => a.handles().union(b.handles()),
        }
    }

    /// The handles this signal waits for, from left to right. A handle that
    /// was joined in twice is listed twice.
    pub open spec fn listed(self) -> Seq<u64>
        decreases self,
    {
        match self {
            Signal::Ready => Seq::empty(),
            Signal::Pending(h) => seq![h],
            Signal::Joined(a, b) => a.listed() + b.listed(),
        }
    }

    /// Whether every handle of this signal is among `done`.
    pub open spec fn resolved(self, done: Seq<u64>) -> bool {
        forall|h: u64| self.handles().contains(h) ==> done.contains(h)
    }

    /// This signal with every completed handle removed and every resolved
    /// branch collapsed.
    pub open spec fn pruned(self, done: Seq<u64>) -> Signal
        decreases self,
    {
        match self {
            Signal::Ready => Signal::Ready,
            Signal::Pending(h) => if done.contains(h) {
                Signal::Ready
            } else {
                Signal::Pending(h)
            },
            Signal::Joined(a, b) => {
                let left = a.pruned(done);
                let right = b.pruned(done);
                if left is Ready {
                    right
                } else if right is Ready {
                    left
                } else {
                    Signal::Joined(Box::new(left), Box::new(right))
                }
            },
        }
    }

    /// The signal that waits for both `self` and `other`.
    pub open spec fn joined(self, other: Signal) -> Signal {
        Signal::Joined(Box::new(self), Box::new(other))
    }

    /// The signal of `work` submitted to run after `self`.
    pub open spec fn followed_by(self, work: u64) -> Signal {
        self.joined(Signal::Pending(work))
    }

    /// A signal that is already satisfied.
    pub fn now() -> (s: Signal)
        ensures
            s == Signal::Ready,
    {
        Signal::Ready
    }

    /// A signal for one piece of submitted work.
    pub fn pending(handle: u64) -> (s: Signal)
        ensures
            s == Signal::Pending(handle),
    {
        Signal::Pending(handle)
    }

    /// Joins two signals; the result waits for every handle of either.
    pub fn join(self, other: Signal) -> (s: Signal)
        ensures
            s == self.joined(other),
            s.handles() == self.handles().union(other.handles()),
    {
        Signal::Joined(Box::new(self), Box::new(other))
    }

    /// Chains `work` after this signal; the result waits for `work` and for
    /// everything this signal waited for.
    pub fn then_execute(self, work: u64) -> (s: Signal)
        ensures
            s == self.followed_by(work),
            s.handles() == self.handles().insert(work),
    {
        let s = Signal::Joined(Box::new(self), Box::new(Signal::Pending(work)));
        proof {
            reveal_with_fuel(Signal::handles, 2);
            assert(s.handles() =~= self.handles().insert(work));
        }
        s
    }

    /// Whether nothing is left to wait for once the handles in `finished`
    /// have completed.
    pub fn is_resolved(&self, finished: &Vec<u64>) -> (b: bool)
        ensures
            b == self.resolved(finished@),
        decreases *self,
    {
        match self {
            Signal::Ready => true,
            Signal::Pending(h) => {
                let found = contains_handle(finished, *h);
                assert(Signal::Pending(*h).handles().contains(*h));
                found
            },
            Signal::Joined(a, b) => {
                let left = a.is_resolved(finished);
                let right = b.is_resolved(finished);
                proof {
                    if left && right {
                        assert forall|h: u64| self.handles().contains(h) implies finished@.contains(
                            h,
                        ) by {
                            if a.handles().contains(h) {
                            } else {
                                assert(b.handles().contains(h));
                            }
                        }
                    } else if !left {
                        let h = choose|h: u64| a.handles().contains(h) && !finished@.contains(h);
                        assert(self.handles().contains(h));
                    } else {
                        let h = choose|h: u64| b.handles().contains(h) && !finished@.contains(h);
                        assert(self.handles().contains(h));
                    }
                }
                left && right
            },
        }
    }

    /// Drops every handle in `finished` from the signal.
    pub fn cleanup_finished(self, finished: &Vec<u64>) -> (s: Signal)
        ensures
            s == self.pruned(finished@),
        decreases self,
    {
        match self {
            Signal::Ready => Signal::Ready,
            Signal::Pending(h) => {
                if contains_handle(finished, h) {
                    Signal::Ready
                } else {
                    Signal::Pending(h)
                }
            },
            Signal::Joined(a, b) => {
                let left = (*a).cleanup_finished(finished);
                let right = (*b).cleanup_finished(finished);
                match left {
                    Signal::Ready => right,
                    _ => match right {
                        Signal::Ready => left,
                        _ => Signal::Joined(Box::new(left), Box::new(right)),
                    },
                }
            },
        }
    }

    /// A copy of this signal.
    pub fn duplicate(&self) -> (s: Signal)
        ensures
            s == *self,
        decreases *self,
    {
        match self {
            Signal::Ready => Signal::Ready,
            Signal::Pending(h) => Signal::Pending(*h),
            Signal::Joined(a, b) => {
                let left = a.duplicate();
                let right = b.duplicate();
                Signal::Joined(Box::new(left), Box::new(right))
            },
        }
    }

    /// The handles this signal waits for, from left to right. A handle that
    /// was joined in twice is listed twice.
    pub fn pending_handles(&self) -> (out: Vec<u64>)
        ensures
            out@ == self.listed(),
        decreases *self,
    {
        match self {
            Signal::Ready => Vec::new(),
            Signal::Pending(h) => {
                let mut out: Vec<u64> = Vec::new();
                out.push(*h);
                assert(out@ =~= seq![*h]);
                out
            },
            Signal::Joined(a, b) => {
                let mut out = a.pending_handles();
                let mut right = b.pending_handles();
                out.append(&mut right);
                out
            },
        }
    }
}

/// Whether `handle` occurs in `finished`.
pub fn contains_handle(finished: &Vec<u64>, handle: u64) -> (found: bool)
    ensures
        found == finished@.contains(handle),
{
    let mut i: usize = 0;
    while i < finished.len()
        invariant
            i <= finished.len(),
            forall|j: int| 0 <= j < i ==> finished@[j] != handle,
        decreases finished.len() - i,
    {
        if finished[i] == handle {
            return true;
        }
        i += 1;
    }
    false
}

/// Pruning removes exactly the completed handles: what is left waits for the
/// handles of the original signal that are not among `done`, and for nothing
/// else.
pub proof fn lemma_pruned_handles(s: Signal, done: Seq<u64>)
    ensures
        forall|h: u64|
            #![trigger s.handles().contains(h)]
            #![trigger s.pruned(done).handles().contains(h)]
            s.pruned(done).handles().contains(h) <==> s.handles().contains(h) && !done.contains(h),
{
    assert forall|h: u64|
        #![trigger s.handles().contains(h)]
        #![trigger s.pruned(done).handles().contains(h)]
        s.pruned(done).handles().contains(h) <==> s.handles().contains(h) && !done.contains(
            h,
        ) by {
        lemma_pruned_handle(s, done, h);
    }
}

proof fn lemma_pruned_handle(s: Signal, done: Seq<u64>, h: u64)
    ensures
        s.pruned(done).handles().contains(h) <==> (s.handles().contains(h) && !done.contains(h)),
    decreases s,
{
    reveal_with_fuel(Signal::handles, 2);
    match s {
        Signal::Ready => {},
        Signal::Pending(_) => {},
        Signal::Joined(a, b) => {
            lemma_pruned_handle(*a, done, h);
            lemma_pruned_handle(*b, done, h);
            let left = a.pruned(done);
            let right = b.pruned(done);
            if left is Ready {
                assert(!left.handles().contains(h));
            } else if right is Ready {
                assert(!right.handles().contains(h));
            } else {
                assert(s.pruned(done) == Signal::Joined(Box::new(left), Box::new(right)));
            }
        },
    }
}

/// A pruned signal is `Ready` exactly when `done` resolved the original, and
/// a pruned signal that is not `Ready` still waits for some handle.
pub proof fn lemma_pruned_ready(s: Signal, done: Seq<u64>)
    ensures
        s.pruned(done) is Ready <==> s.resolved(done),
        !(s.pruned(done) is Ready) ==> exists|h: u64| s.pruned(done).handles().contains(h),
    decreases s,
{
    reveal_with_fuel(Signal::handles, 2);
    match s {
        Signal::Ready => {},
        Signal::Pending(h) => {
            assert(s.handles().contains(h));
        },
        Signal::Joined(a, b) => {
            lemma_pruned_ready(*a, done);
            lemma_pruned_ready(*b, done);
            let left = a.pruned(done);
            let right = b.pruned(done);
            if !(left is Ready) {
                let h = choose|h: u64| left.handles().contains(h);
                lemma_pruned_handle(*a, done, h);
                assert(a.handles().contains(h));
                assert(s.handles().contains(h));
                lemma_pruned_handle(s, done, h);
            } else if !(right is Ready) {
                let h = choose|h: u64| right.handles().contains(h);
                lemma_pruned_handle(*b, done, h);
                assert(b.handles().contains(h));
                assert(s.handles().contains(h));
                lemma_pruned_handle(s, done, h);
            } else {
                assert forall|h: u64| s.handles().contains(h) implies done.contains(h) by {
                    if a.handles().contains(h) {
                    } else {
                        assert(b.handles().contains(h));
                    }
                }
            }
        },
    }
}

/// Listing a signal names exactly the handles it waits for.
pub proof fn lemma_listed_handles(s: Signal)
    ensures
        forall|h: u64| #[trigger] s.listed().contains(h) <==> s.handles().contains(h),
    decreases s,
{
    match s {
        Signal::Ready => {
            assert forall|h: u64| !(#[trigger] s.listed().contains(h)) by {
                if s.listed().contains(h) {
                    let i = choose|i: int| 0 <= i < s.listed().len() && s.listed()[i] == h;
                }
            }
        },
        Signal::Pending(p) => {
            assert(s.listed()[0] == p);
        },
        Signal::Joined(a, b) => {
            lemma_listed_handles(*a);
            lemma_listed_handles(*b);
            let left = a.listed();
            let right = b.listed();
            assert forall|h: u64| #[trigger] s.listed().contains(h) <==> s.handles().contains(
                h,
            ) by {
                if s.listed().contains(h) {
                    let i = choose|i: int| 0 <= i < s.listed().len() && s.listed()[i] == h;
                    if i < left.len() {
                        assert(left[i] == h);
                    } else {
                        assert(right[i - left.len()] == h);
                    }
                }
                if left.contains(h) {
                    let i = choose|i: int| 0 <= i < left.len() && left[i] == h;
                    assert(s.listed()[i] == h);
                }
                if right.contains(h) {
                    let i = choose|i: int| 0 <= i < right.len() && right[i] == h;
                    assert(s.listed()[i + left.len()] == h);
                }
            }
        },
    }
}

} // verus!
