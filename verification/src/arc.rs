//! A shared-ownership pointer with weak observers, built from explicit
//! reference counting rather than borrowed from the language runtime.
//!
//! Control blocks live in an explicit [`Heap`], which stands for the
//! allocator: a slot holding `Some` block is allocated memory, a slot
//! holding `None` has been reclaimed. This makes the two-stage teardown
//! of a block visible to the verifier: the payload is destroyed when the
//! strong count reaches zero, while the block itself is reclaimed only
//! when the total count reaches zero.
//!
//! Counting protocol: `strong_ref_counter` counts the outstanding [`Arc`]
//! handles one by one. `total_ref_counter` counts every outstanding weak
//! reference — including the one embedded in each `Arc` — plus a single
//! aggregate unit that stands for all strong handles together. A freshly
//! created block therefore starts at `strong = 1`, `total = 2`.
//!
//! Handles are affine values: cloning goes through [`Arc::clone`] or
//! [`Weak::clone`], which adjust the counters, and the drop operations
//! consume their handle. Counter increments refuse to move past half the
//! counter's range, as a defensive margin against wraparound. The
//! atomic orderings and fences that a parallel implementation needs
//! collapse in this sequential model; what remains, stated and proved,
//! is the counting discipline itself. Its laws over every interleaving
//! of handle operations are in [`crate::counting`].
use vstd::prelude::*;

verus! {

/// One control block: the payload plus the two reference counters.
///
/// `value` is `None` once the payload has been destroyed; the block can
/// outlive its payload while weak observers remain.
pub struct ArcData<T> {
    value: Option<T>,
    total_ref_counter: u32,
    strong_ref_counter: u32,
}

impl<T> ArcData<T> {
    /// The number of outstanding strong handles.
    pub closed spec fn strong(&self) -> nat {
        self.strong_ref_counter as nat
    }

    /// The number of outstanding weak references plus the aggregate
    /// strong unit.
    pub closed spec fn total(&self) -> nat {
        self.total_ref_counter as nat
    }

    /// The payload, while it has not been destroyed.
    pub closed spec fn payload(&self) -> Option<T> {
        self.value
    }

    /// Counting invariant of an allocated block: the payload is alive
    /// exactly while strong handles remain; some handle keeps the block
    /// allocated; and while strong handles exist, the total count covers
    /// the aggregate unit plus the weak reference embedded in each of
    /// them.
    pub open spec fn wf(&self) -> bool {
        &&& self.strong() == 0 <==> self.payload() is None
        &&& self.total() >= 1
        &&& self.strong() >= 1 ==> self.total() >= self.strong() + 1
    }

    /// Reads the strong counter.
    pub fn strong_count(&self) -> (n: u32)
        ensures
            n as nat == self.strong(),
    {
        self.strong_ref_counter
    }

    /// Reads the total counter.
    pub fn total_count(&self) -> (n: u32)
        ensures
            n as nat == self.total(),
    {
        self.total_ref_counter
    }
}

/// The store that control blocks are allocated from. A slot holding
/// `None` stands for memory that has been handed back.
pub struct Heap<T> {
    blocks: Vec<Option<ArcData<T>>>,
}

/// The slots of `post` are those of `pre`, except possibly slot `i`.
pub open spec fn unchanged_except<T>(pre: Heap<T>, post: Heap<T>, i: int) -> bool {
    &&& post.slot_count() == pre.slot_count()
    &&& forall|j: int| 0 <= j < pre.slot_count() && j != i ==> pre.slots()[j] == post.slots()[j]
}

impl<T> Heap<T> {
    /// The slots, reclaimed ones included.
    pub closed spec fn slots(&self) -> Seq<Option<ArcData<T>>> {
        self.blocks@
    }

    /// How many slots have ever been allocated.
    pub open spec fn slot_count(&self) -> nat {
        self.slots().len()
    }

    /// Slot `i` exists and has not been reclaimed.
    pub open spec fn allocated(&self, i: int) -> bool {
        0 <= i < self.slot_count() && self.slots()[i] is Some
    }

    /// The block in slot `i`.
    pub open spec fn block(&self, i: int) -> ArcData<T>
        recommends
            self.allocated(i),
    {
        self.slots()[i].unwrap()
    }

    /// The strong count of the block in slot `i`.
    pub open spec fn strong_of(&self, i: int) -> nat {
        self.block(i).strong()
    }

    /// The total count of the block in slot `i`.
    pub open spec fn total_of(&self, i: int) -> nat {
        self.block(i).total()
    }

    /// The payload of the block in slot `i`.
    pub open spec fn payload_of(&self, i: int) -> Option<T> {
        self.block(i).payload()
    }

    /// Slot `i` is allocated and its payload has not been destroyed.
    pub open spec fn alive(&self, i: int) -> bool {
        self.allocated(i) && self.payload_of(i) is Some
    }

    /// Every allocated block satisfies the counting invariant.
    pub open spec fn wf(&self) -> bool {
        forall|i: int| #![trigger self.slots()[i]] self.allocated(i) ==> self.block(i).wf()
    }

    /// An empty store.
    pub fn new() -> (h: Heap<T>)
        ensures
            h.wf(),
            h.slot_count() == 0,
    {
        Heap { blocks: Vec::new() }
    }

    /// Exclusive access to the block in slot `i`.
    fn block_mut(&mut self, i: usize) -> (b: &mut ArcData<T>)
        requires
            old(self).allocated(i as int),
        ensures
            *b == old(self).block(i as int),
            final(self).slots() == old(self).slots().update(i as int, Some(*final(b))),
    {
        let slot = vstd::std_specs::vec::vec_index_mut(&mut self.blocks, i);
        match slot {
            Some(b) => b,
            None => vstd::pervasive::unreached(),
        }
    }

    /// Slot `i` is still allocated but its payload has been destroyed:
    /// the block sits in its intermediate stage, kept for weak observers.
    pub open spec fn value_destroyed(&self, i: int) -> bool {
        self.allocated(i) && self.payload_of(i) is None
    }

    /// How many of the first `n` slots hold a block whose payload has
    /// been destroyed.
    pub open spec fn destroyed_upto(&self, n: int) -> int
        decreases n,
    {
        if n <= 0 {
            0
        } else {
            self.destroyed_upto(n - 1) + if self.value_destroyed(n - 1) {
                1int
            } else {
                0int
            }
        }
    }

    /// How many blocks have had their payload destroyed without their
    /// memory having been reclaimed yet.
    pub open spec fn destroyed(&self) -> int {
        self.destroyed_upto(self.slot_count() as int)
    }

    /// Counts the blocks whose payload has been destroyed while their
    /// memory is still allocated.
    pub fn destroyed_count(&self) -> (n: usize)
        ensures
            n == self.destroyed(),
    {
        let mut n: usize = 0;
        let mut i: usize = 0;
        while i < self.blocks.len()
            invariant
                0 <= i <= self.slot_count(),
                n == self.destroyed_upto(i as int),
                n <= i,
            decreases self.slot_count() - i,
        {
            match &self.blocks[i] {
                Some(b) => {
                    if b.value.is_none() {
                        n = n + 1;
                    }
                },
                None => {},
            }
            i = i + 1;
        }
        n
    }

    /// Hands the memory of slot `i` back.
    fn free_slot(&mut self, i: usize)
        requires
            old(self).allocated(i as int),
        ensures
            final(self).slots() == old(self).slots().update(i as int, None),
    {
        let slot = vstd::std_specs::vec::vec_index_mut(&mut self.blocks, i);
        *slot = None;
    }
}

/// Exclusivity law: under the counting invariant, a block with an
/// outstanding strong handle whose total count is exactly 2 is held by
/// exactly one strong handle and no standalone weak handle — the 2 covers
/// nothing but the aggregate strong unit and that handle's embedded weak
/// reference. This is what entitles [`Arc::get_mut`] to hand out
/// exclusive write access.
pub proof fn lemma_exclusive_is_unique<T>(heap: Heap<T>, id: int)
    requires
        heap.wf(),
        heap.allocated(id),
        heap.strong_of(id) >= 1,
        heap.total_of(id) == 2,
    ensures
        heap.strong_of(id) == 1,
        heap.total_of(id) == heap.strong_of(id) + 1,
        heap.alive(id),
{
    assert(heap.block(id).wf());
}

/// A non-owning handle: it keeps the control block allocated but does not
/// keep the payload alive. Owns one unit of the total count.
pub struct Weak {
    data: usize,
}

/// An owning handle: grants read access to the payload and keeps it
/// alive. Owns one unit of the strong count, and wraps one embedded
/// [`Weak`], whose unit of the total count travels with it.
pub struct Arc {
    data: Weak,
}

impl Weak {
    /// The slot of the control block this handle points at.
    pub closed spec fn id(&self) -> int {
        self.data as int
    }

    /// What holding this handle, outside of any `Arc`, guarantees about
    /// the store: its block is allocated, and the total count covers this
    /// handle on top of whatever the strong handles contribute.
    pub open spec fn valid<T>(&self, heap: Heap<T>) -> bool {
        &&& heap.allocated(self.id())
        &&& heap.strong_of(self.id()) >= 1 ==> heap.total_of(self.id()) >= heap.strong_of(
            self.id(),
        ) + 2
    }

    /// Read access to the control block.
    pub fn data<'a, T>(&self, heap: &'a Heap<T>) -> (b: &'a ArcData<T>)
        requires
            heap.allocated(self.id()),
        ensures
            *b == heap.block(self.id()),
    {
        match &heap.blocks[self.data] {
            Some(b) => b,
            None => vstd::pervasive::unreached(),
        }
    }

    /// A further non-owning handle to the same block; raises the total
    /// count by one. Refused past half the counter's range.
    pub fn clone<T>(&self, heap: &mut Heap<T>) -> (w: Weak)
        requires
            old(heap).wf(),
            self.valid(*old(heap)),
            old(heap).total_of(self.id()) <= u32::MAX / 2,
        ensures
            final(heap).wf(),
            unchanged_except(*old(heap), *final(heap), self.id()),
            final(heap).allocated(self.id()),
            final(heap).strong_of(self.id()) == old(heap).strong_of(self.id()),
            final(heap).total_of(self.id()) == old(heap).total_of(self.id()) + 1,
            final(heap).payload_of(self.id()) == old(heap).payload_of(self.id()),
            w.id() == self.id(),
            w.valid(*final(heap)),
            self.valid(*final(heap)),
    {
        let b = heap.block_mut(self.data);
        b.total_ref_counter = b.total_ref_counter + 1;
        Weak { data: self.data }
    }

    /// Attempts to recover an owning handle. Succeeds exactly when strong
    /// handles still exist at this moment — it never hands out a payload
    /// that has already been destroyed. On success both counters rise by
    /// one: a new strong unit, and the total unit embedded in the new
    /// `Arc`.
    pub fn upgrade<T>(&self, heap: &mut Heap<T>) -> (r: Option<Arc>)
        requires
            old(heap).wf(),
            self.valid(*old(heap)),
            old(heap).strong_of(self.id()) >= 1 ==> old(heap).strong_of(self.id()) < u32::MAX / 2
                && old(heap).total_of(self.id()) <= u32::MAX / 2,
        ensures
            final(heap).wf(),
            unchanged_except(*old(heap), *final(heap), self.id()),
            self.valid(*final(heap)),
            r is None <==> old(heap).strong_of(self.id()) == 0,
            r is None ==> *final(heap) == *old(heap),
            r is Some ==> {
                &&& r.unwrap().id() == self.id()
                &&& r.unwrap().valid(*final(heap))
                &&& final(heap).strong_of(self.id()) == old(heap).strong_of(self.id()) + 1
                &&& final(heap).total_of(self.id()) == old(heap).total_of(self.id()) + 1
                &&& final(heap).payload_of(self.id()) == old(heap).payload_of(self.id())
                &&& final(heap).payload_of(self.id()) is Some
            },
    {
        let n = self.data(heap).strong_count();
        if n == 0 {
            return None;
        }
        let b = heap.block_mut(self.data);
        b.strong_ref_counter = b.strong_ref_counter + 1;
        b.total_ref_counter = b.total_ref_counter + 1;
        Some(Arc { data: Weak { data: self.data } })
    }

    /// Gives this handle up, lowering the total count by one. The last
    /// handle out reclaims the block's memory.
    pub fn drop<T>(self, heap: &mut Heap<T>)
        requires
            old(heap).wf(),
            self.valid(*old(heap)),
        ensures
            final(heap).wf(),
            unchanged_except(*old(heap), *final(heap), self.id()),
            old(heap).total_of(self.id()) == 1 ==> !final(heap).allocated(self.id()),
            old(heap).total_of(self.id()) >= 2 ==> {
                &&& final(heap).allocated(self.id())
                &&& final(heap).strong_of(self.id()) == old(heap).strong_of(self.id())
                &&& final(heap).total_of(self.id()) == old(heap).total_of(self.id()) - 1
                &&& final(heap).payload_of(self.id()) == old(heap).payload_of(self.id())
            },
    {
        let b = heap.block_mut(self.data);
        let was = b.total_ref_counter;
        b.total_ref_counter = b.total_ref_counter - 1;
        if was == 1 {
            heap.free_slot(self.data);
        }
    }
}

impl Arc {
    /// The slot of the control block this handle points at.
    pub closed spec fn id(&self) -> int {
        self.data.id()
    }

    /// What holding an owning handle guarantees about the store: its
    /// block is allocated and at least this handle's strong unit is
    /// outstanding (so, with the counting invariant, the payload is
    /// alive).
    pub open spec fn valid<T>(&self, heap: Heap<T>) -> bool {
        &&& heap.allocated(self.id())
        &&& heap.strong_of(self.id()) >= 1
    }

    /// Allocates a fresh control block owning `value`, with one strong
    /// handle out: `strong = 1`, and `total = 2` for the aggregate strong
    /// unit plus the weak reference embedded in the returned handle.
    pub fn new<T>(heap: &mut Heap<T>, value: T) -> (a: Arc)
        requires
            old(heap).wf(),
            old(heap).slot_count() < usize::MAX,
        ensures
            final(heap).wf(),
            final(heap).slot_count() == old(heap).slot_count() + 1,
            forall|j: int|
                0 <= j < old(heap).slot_count() ==> final(heap).slots()[j] == old(heap).slots()[j],
            a.id() == old(heap).slot_count(),
            a.valid(*final(heap)),
            final(heap).strong_of(a.id()) == 1,
            final(heap).total_of(a.id()) == 2,
            final(heap).payload_of(a.id()) == Some(value),
    {
        let id = heap.blocks.len();
        let data = ArcData { value: Some(value), total_ref_counter: 2, strong_ref_counter: 1 };
        heap.blocks.push(Some(data));
        Arc { data: Weak { data: id } }
    }

    /// Read access to the control block.
    pub fn data<'a, T>(&self, heap: &'a Heap<T>) -> (b: &'a ArcData<T>)
        requires
            heap.allocated(self.id()),
        ensures
            *b == heap.block(self.id()),
    {
        self.data.data(heap)
    }

    /// Read access to the payload, valid as long as this handle is.
    pub fn deref<'a, T>(&self, heap: &'a Heap<T>) -> (r: &'a T)
        requires
            heap.wf(),
            self.valid(*heap),
        ensures
            heap.payload_of(self.id()) == Some(*r),
    {
        match &self.data(heap).value {
            Some(v) => v,
            None => vstd::pervasive::unreached(),
        }
    }

    /// A further owning handle to the same payload; raises the strong
    /// count for the handle itself and the total count for its embedded
    /// weak reference. Refused past half either counter's range.
    pub fn clone<T>(&self, heap: &mut Heap<T>) -> (a: Arc)
        requires
            old(heap).wf(),
            self.valid(*old(heap)),
            old(heap).strong_of(self.id()) <= u32::MAX / 2,
            old(heap).total_of(self.id()) <= u32::MAX / 2,
        ensures
            final(heap).wf(),
            unchanged_except(*old(heap), *final(heap), self.id()),
            final(heap).allocated(self.id()),
            final(heap).strong_of(self.id()) == old(heap).strong_of(self.id()) + 1,
            final(heap).total_of(self.id()) == old(heap).total_of(self.id()) + 1,
            final(heap).payload_of(self.id()) == old(heap).payload_of(self.id()),
            a.id() == self.id(),
            a.valid(*final(heap)),
            self.valid(*final(heap)),
    {
        let b = heap.block_mut(self.data.data);
        b.strong_ref_counter = b.strong_ref_counter + 1;
        b.total_ref_counter = b.total_ref_counter + 1;
        Arc { data: Weak { data: self.data.data } }
    }

    /// A non-owning handle to the same block; raises the total count by
    /// one. Refused past half the counter's range.
    pub fn downgrade<T>(&self, heap: &mut Heap<T>) -> (w: Weak)
        requires
            old(heap).wf(),
            self.valid(*old(heap)),
            old(heap).total_of(self.id()) < u32::MAX / 2,
        ensures
            final(heap).wf(),
            unchanged_except(*old(heap), *final(heap), self.id()),
            final(heap).allocated(self.id()),
            final(heap).strong_of(self.id()) == old(heap).strong_of(self.id()),
            final(heap).total_of(self.id()) == old(heap).total_of(self.id()) + 1,
            final(heap).payload_of(self.id()) == old(heap).payload_of(self.id()),
            w.id() == self.id(),
            w.valid(*final(heap)),
            self.valid(*final(heap)),
    {
        let b = heap.block_mut(self.data.data);
        b.total_ref_counter = b.total_ref_counter + 1;
        Weak { data: self.data.data }
    }

    /// Exclusive write access to the payload, granted exactly when this
    /// handle can prove it is alone: the total count is 2, covering only
    /// the aggregate strong unit and the weak reference embedded in this
    /// very handle — so no other strong or weak handle exists.
    pub fn get_mut<'a, T>(&self, heap: &'a mut Heap<T>) -> (r: Option<&'a mut T>)
        requires
            old(heap).wf(),
            self.valid(*old(heap)),
        ensures
            r is Some <==> old(heap).total_of(self.id()) == 2,
            r is None ==> *final(heap) == *old(heap),
            r is Some ==> {
                &&& *r.unwrap() == old(heap).payload_of(self.id()).unwrap()
                &&& final(heap).wf()
                &&& unchanged_except(*old(heap), *final(heap), self.id())
                &&& final(heap).allocated(self.id())
                &&& final(heap).strong_of(self.id()) == old(heap).strong_of(self.id())
                &&& final(heap).total_of(self.id()) == old(heap).total_of(self.id())
                &&& final(heap).payload_of(self.id()) == Some(*final(r.unwrap()))
                &&& self.valid(*final(heap))
            },
    {
        if self.data(heap).total_count() == 2 {
            let b = heap.block_mut(self.data.data);
            match &mut b.value {
                Some(v) => Some(v),
                None => vstd::pervasive::unreached(),
            }
        } else {
            None
        }
    }

    /// Gives this owning handle up. The last strong handle out destroys
    /// the payload in place and then retires the aggregate strong unit;
    /// in every case the embedded weak reference is given up too, which
    /// may in turn reclaim the block's memory.
    pub fn drop<T>(self, heap: &mut Heap<T>)
        requires
            old(heap).wf(),
            self.valid(*old(heap)),
        ensures
            final(heap).wf(),
            unchanged_except(*old(heap), *final(heap), self.id()),
            final(heap).alive(self.id()) <==> old(heap).strong_of(self.id()) >= 2,
            old(heap).strong_of(self.id()) >= 2 ==> {
                &&& final(heap).allocated(self.id())
                &&& final(heap).strong_of(self.id()) == old(heap).strong_of(self.id()) - 1
                &&& final(heap).total_of(self.id()) == old(heap).total_of(self.id()) - 1
                &&& final(heap).payload_of(self.id()) == old(heap).payload_of(self.id())
            },
            old(heap).strong_of(self.id()) == 1 && old(heap).total_of(self.id()) == 2
                ==> !final(heap).allocated(self.id()),
            old(heap).strong_of(self.id()) == 1 && old(heap).total_of(self.id()) >= 3 ==> {
                &&& final(heap).allocated(self.id())
                &&& final(heap).strong_of(self.id()) == 0
                &&& final(heap).total_of(self.id()) == old(heap).total_of(self.id()) - 2
                &&& final(heap).payload_of(self.id()) is None
            },
    {
        let b = heap.block_mut(self.data.data);
        let was_strong = b.strong_ref_counter;
        b.strong_ref_counter = b.strong_ref_counter - 1;
        if was_strong == 1 {
            // Last strong handle: destroy the payload in place, then
            // retire the aggregate strong unit from the total count.
            b.value = None;
            b.total_ref_counter = b.total_ref_counter - 1;
        }
        // The weak reference embedded in this handle goes away with it.
        self.data.drop(heap);
    }
}

} // verus!
