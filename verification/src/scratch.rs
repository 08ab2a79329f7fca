//! Scratch buffer pools: host-writable staging regions for per-frame uniform
//! data.
//!
//! A pool hands out regions one value at a time. A region that has been
//! handed out is not handed out again until the work that reads it has
//! completed: the pool tracks, for every region in flight, the handle of the
//! submission that guards it, and frees the region only when the driver
//! reports that handle as finished.

use vstd::prelude::*;

verus! {

/// The kinds of uniform data that are staged through a pool.
#[derive(Clone, Copy, PartialEq, Eq, Structural, Hash, Debug)]
pub enum UniformKind {
    /// The projection matrix.
    Projection,
    /// The parameters of one material.
    Material,
    /// The light.
    Light,
}

/// One staging region of a pool.
#[derive(Debug)]
pub enum Region<T> {
    /// Nothing reads or writes the region.
    Free,
    /// The region holds a value that no submitted copy has read yet.
    Claimed(T),
    /// A submitted copy reads the value; the submission has the given handle.
    InFlight(T, u64),
}

/// A claim on one region of a pool. It cannot be copied: the copy command
/// that reads the region takes it.
#[derive(Debug)]
pub struct ScratchHandle {
    kind: UniformKind,
    region: usize,
}

impl ScratchHandle {
    /// The kind of the pool that the region belongs to.
    pub closed spec fn spec_kind(&self) -> UniformKind {
        self.kind
    }

    /// The number of the region within its pool.
    pub closed spec fn spec_region(&self) -> usize {
        self.region
    }

    /// The kind of the pool that the region belongs to.
    #[verifier::when_used_as_spec(spec_kind)]
    pub fn kind(&self) -> (k: UniformKind)
        ensures
            k == self.spec_kind(),
    {
        self.kind
    }

    /// The number of the region within its pool.
    #[verifier::when_used_as_spec(spec_region)]
    pub fn region(&self) -> (r: usize)
        ensures
            r == self.spec_region(),
    {
        self.region
    }
}

/// A pool of staging regions for values of one uniform kind.
pub struct ScratchPool<T: Copy> {
    kind: UniformKind,
    regions: Vec<Region<T>>,
}

impl<T: Copy> View for ScratchPool<T> {
    type V = Seq<Region<T>>;

    closed spec fn view(&self) -> Seq<Region<T>> {
        self.regions@
    }
}

/// What `regions` looks like once every submission in `finished` has
/// completed: the regions those submissions guarded are free, the others are
/// as before.
pub open spec fn recycled<T>(regions: Seq<Region<T>>, finished: Seq<u64>) -> Seq<Region<T>> {
    Seq::new(
        regions.len(),
        |i: int|
            match regions[i] {
                Region::InFlight(_, guard) if finished.contains(guard) => Region::Free,
                other => other,
            },
    )
}

/// Whether `r` is the first free region of `regions`, or their number if none
/// is free.
pub open spec fn is_first_free<T>(regions: Seq<Region<T>>, r: int) -> bool {
    &&& 0 <= r <= regions.len()
    &&& forall|j: int| 0 <= j < r ==> !(#[trigger] regions[j] is Free)
    &&& r < regions.len() ==> regions[r] is Free
}

impl<T: Copy> ScratchPool<T> {
    /// The kind of data this pool stages.
    pub closed spec fn spec_kind(&self) -> UniformKind {
        self.kind
    }

    /// A pool without regions.
    pub fn new(kind: UniformKind) -> (pool: Self)
        ensures
            pool@ == Seq::<Region<T>>::empty(),
            pool.spec_kind() == kind,
    {
        ScratchPool { kind, regions: Vec::new() }
    }

    /// The kind of data this pool stages.
    #[verifier::when_used_as_spec(spec_kind)]
    pub fn kind(&self) -> (k: UniformKind)
        ensures
            k == self.spec_kind(),
    {
        self.kind
    }

    /// The number of regions, free or not.
    pub fn len(&self) -> (n: usize)
        ensures
            n == self@.len(),
    {
        self.regions.len()
    }

    /// Writes `value` into the first free region, adding a region if none is
    /// free, and returns the claim on it.
    pub fn acquire(&mut self, value: T) -> (handle: ScratchHandle)
        ensures
            handle.spec_kind() == old(self).spec_kind(),
            final(self).spec_kind() == old(self).spec_kind(),
            is_first_free(old(self)@, handle.spec_region() as int),
            handle.spec_region() < old(self)@.len() ==> final(self)@ == old(self)@.update(
                handle.spec_region() as int,
                Region::Claimed(value),
            ),
            handle.spec_region() == old(self)@.len() ==> final(self)@ == old(self)@.push(
                Region::Claimed(value),
            ),
    {
        let mut i: usize = 0;
        while i < self.regions.len()
            invariant
                i <= self.regions.len(),
                *self == *old(self),
                forall|j: int| 0 <= j < i ==> !(#[trigger] self.regions@[j] is Free),
            decreases self.regions.len() - i,
        {
            if let Region::Free = self.regions[i] {
                self.regions.set(i, Region::Claimed(value));
                return ScratchHandle { kind: self.kind, region: i };
            }
            i += 1;
        }
        self.regions.push(Region::Claimed(value));
        ScratchHandle { kind: self.kind, region: i }
    }

    /// The value staged in the region that `handle` claims, if the handle is
    /// of this pool and the region holds one.
    pub fn value(&self, handle: &ScratchHandle) -> (v: Option<T>)
        ensures
            v == if handle.spec_kind() == self.spec_kind() && handle.spec_region() < self@.len() {
                match self@[handle.spec_region() as int] {
                    Region::Free => None,
                    Region::Claimed(x) => Some(x),
                    Region::InFlight(x, _) => Some(x),
                }
            } else {
                None
            },
    {
        if handle.kind != self.kind || handle.region >= self.regions.len() {
            return None;
        }
        match self.regions[handle.region] {
            Region::Free => None,
            Region::Claimed(x) => Some(x),
            Region::InFlight(x, _) => Some(x),
        }
    }

    /// Records that the copy reading the region of `handle` was submitted
    /// under `guard`. Returns whether the region was claimed and is now in
    /// flight; if it was not, or the handle is of another pool, nothing
    /// changes.
    pub fn submitted(&mut self, handle: &ScratchHandle, guard: u64) -> (marked: bool)
        ensures
            final(self).spec_kind() == old(self).spec_kind(),
            marked <==> handle.spec_kind() == old(self).spec_kind() && handle.spec_region() < old(
                self,
            )@.len() && old(self)@[handle.spec_region() as int] is Claimed,
            marked ==> final(self)@ == old(self)@.update(
                handle.spec_region() as int,
                Region::InFlight(old(self)@[handle.spec_region() as int]->Claimed_0, guard),
            ),
            !marked ==> final(self)@ == old(self)@,
    {
        if handle.kind != self.kind || handle.region >= self.regions.len() {
            return false;
        }
        match self.regions[handle.region] {
            Region::Claimed(x) => {
                self.regions.set(handle.region, Region::InFlight(x, guard));
                true
            },
            _ => false,
        }
    }

    /// Gives back a claimed region whose value no submitted copy will read.
    /// Returns whether the region was claimed; if it was not, nothing changes.
    pub fn release(&mut self, handle: ScratchHandle) -> (freed: bool)
        ensures
            final(self).spec_kind() == old(self).spec_kind(),
            freed <==> handle.spec_kind() == old(self).spec_kind() && handle.spec_region() < old(
                self,
            )@.len() && old(self)@[handle.spec_region() as int] is Claimed,
            freed ==> final(self)@ == old(self)@.update(
                handle.spec_region() as int,
                Region::Free,
            ),
            !freed ==> final(self)@ == old(self)@,
    {
        if handle.kind != self.kind || handle.region >= self.regions.len() {
            return false;
        }
        match self.regions[handle.region] {
            Region::Claimed(_) => {
                self.regions.set(handle.region, Region::Free);
                true
            },
            _ => false,
        }
    }

    /// Settles what became of a staged value once its frame was committed:
    /// with a guard, the copy that reads the region was submitted under it
    /// and the region is in flight; without one, the frame was dropped and
    /// the region is free again. Returns whether the region was claimed; if
    /// it was not, or the handle is of another pool, nothing changes.
    pub fn settle(&mut self, handle: ScratchHandle, guard: Option<u64>) -> (done: bool)
        ensures
            final(self).spec_kind() == old(self).spec_kind(),
            done <==> handle.spec_kind() == old(self).spec_kind() && handle.spec_region() < old(
                self,
            )@.len() && old(self)@[handle.spec_region() as int] is Claimed,
            done ==> final(self)@ == old(self)@.update(
                handle.spec_region() as int,
                match guard {
                    Some(g) => Region::InFlight(
                        old(self)@[handle.spec_region() as int]->Claimed_0,
                        g,
                    ),
                    None => Region::Free,
                },
            ),
            !done ==> final(self)@ == old(self)@,
    {
        match guard {
            Some(g) => self.submitted(&handle, g),
            None => self.release(handle),
        }
    }

    /// Frees every region whose guarding submission is among `finished`, and
    /// returns how many were freed.
    pub fn recycle(&mut self, finished: &Vec<u64>) -> (freed: usize)
        ensures
            final(self).spec_kind() == old(self).spec_kind(),
            final(self)@ == recycled(old(self)@, finished@),
            freed == old(self)@.filter(
                |r: Region<T>| r matches Region::InFlight(_, g) && finished@.contains(g),
            ).len(),
    {
        let ghost guarded = |r: Region<T>| r matches Region::InFlight(_, g) && finished@.contains(g);
        let mut freed: usize = 0;
        let mut i: usize = 0;
        while i < self.regions.len()
            invariant
                i <= self.regions.len(),
                self.kind == old(self).kind,
                self.regions@.len() == old(self).regions@.len(),
                guarded == |r: Region<T>|
                    r matches Region::InFlight(_, g) && finished@.contains(g),
                forall|j: int|
                    0 <= j < i ==> #[trigger] self.regions@[j] == recycled(
                        old(self).regions@,
                        finished@,
                    )[j],
                forall|j: int|
                    i <= j < self.regions@.len() ==> #[trigger] self.regions@[j] == old(
                        self,
                    ).regions@[j],
                freed == old(self).regions@.take(i as int).filter(guarded).len(),
                freed <= i,
            decreases self.regions.len() - i,
        {
            let ghost before = old(self).regions@.take(i as int);
            proof {
                assert(old(self).regions@.take(i as int + 1) == before.push(
                    old(self).regions@[i as int],
                ));
                lemma_filter_push(before, old(self).regions@[i as int], guarded);
            }
            if let Region::InFlight(_, guard) = self.regions[i] {
                if crate::signal::contains_handle(finished, guard) {
                    self.regions.set(i, Region::Free);
                    freed += 1;
                }
            }
            i += 1;
        }
        assert(old(self).regions@.take(i as int) == old(self).regions@);
        assert(self.regions@ =~= recycled(old(self).regions@, finished@));
        freed
    }
}

/// A region in flight is not written again before its guard has finished:
/// as long as the submission that guards region `i` is not among those
/// reported finished, recycling leaves the region in flight, and the region
/// that the next value is staged into is another one.
pub proof fn lemma_region_in_flight_is_kept<T>(
    regions: Seq<Region<T>>,
    finished: Seq<u64>,
    i: int,
    next: int,
)
    requires
        0 <= i < regions.len(),
        regions[i] matches Region::InFlight(_, guard) && !finished.contains(guard),
        is_first_free(recycled(regions, finished), next),
    ensures
        recycled(regions, finished)[i] == regions[i],
        next != i,
{
}

/// Filtering a sequence with one more element keeps that element exactly
/// when it passes.
proof fn lemma_filter_push<A>(s: Seq<A>, a: A, pred: spec_fn(A) -> bool)
    ensures
        s.push(a).filter(pred) == if pred(a) {
            s.filter(pred).push(a)
        } else {
            s.filter(pred)
        },
{
    reveal(Seq::filter);
    assert(s.push(a).drop_last() == s);
}

} // verus!
