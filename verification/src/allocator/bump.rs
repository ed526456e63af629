//! A bump allocator: a cursor that only moves forward, and an arena that is
//! reclaimed whole when its last allocation is released.

use crate::allocator::{
    is_power_of_two, lemma_mask_rounds_up, lemma_power_of_two_positive, lemma_round_up,
    lemma_round_up_overflows, round_up,
};
use vstd::prelude::*;

verus! {

/// What a bump allocator holds, as mathematical integers.
pub struct BumpState {
    /// The first address of the heap.
    pub heap_start: nat,
    /// The first address past the heap.
    pub heap_end: nat,
    /// The cursor: where the next allocation is looked for.
    pub next: nat,
    /// The number of allocations handed out and not yet released.
    pub allocations: nat,
}

impl BumpState {
    /// The cursor lies inside the heap, its end included.
    pub open spec fn wf(self) -> bool {
        self.heap_start <= self.next <= self.heap_end
    }

    /// The address that a request aligned to `align` would get: the cursor
    /// rounded up.
    pub open spec fn alloc_start(self, align: nat) -> nat {
        round_up(self.next as int, align as int) as nat
    }

    /// Whether a request for `size` bytes aligned to `align` ends inside the
    /// heap.
    pub open spec fn fits(self, size: nat, align: nat) -> bool {
        self.alloc_start(align) + size <= self.heap_end
    }

    /// The state after a request for `size` bytes aligned to `align`: the
    /// cursor stands at the end of the new block and one more allocation is
    /// live, or, where the request does not fit, nothing has changed.
    pub open spec fn after_allocate(self, size: nat, align: nat) -> BumpState {
        if self.fits(size, align) {
            BumpState {
                next: self.alloc_start(align) + size,
                allocations: self.allocations + 1,
                ..self
            }
        } else {
            self
        }
    }

    /// The state after one release: one allocation fewer, and the cursor
    /// back at the start of the heap once none is left.
    pub open spec fn after_deallocate(self) -> BumpState {
        BumpState {
            next: if self.allocations == 1 {
                self.heap_start
            } else {
                self.next
            },
            allocations: (self.allocations - 1) as nat,
            ..self
        }
    }
}

/// An allocator that hands out the heap front to back.
pub struct BumpAllocator {
    heap_start: usize,
    heap_end: usize,
    next: usize,
    allocations: usize,
}

impl View for BumpAllocator {
    type V = BumpState;

    closed spec fn view(&self) -> BumpState {
        BumpState {
            heap_start: self.heap_start as nat,
            heap_end: self.heap_end as nat,
            next: self.next as nat,
            allocations: self.allocations as nat,
        }
    }
}

impl BumpAllocator {
    /// An allocator over an empty heap at address zero: every request that
    /// asks for a byte fails until `init` is called.
    pub fn new() -> (bump: Self)
        ensures
            bump@ == (BumpState { heap_start: 0, heap_end: 0, next: 0, allocations: 0 }),
    {
        BumpAllocator { heap_start: 0, heap_end: 0, next: 0, allocations: 0 }
    }

    /// Gives the allocator the heap `[heap_start, heap_start + heap_size)`
    /// and puts the cursor at its start. The count of live allocations stays
    /// as it was.
    pub fn init(&mut self, heap_start: usize, heap_size: usize)
        requires
            heap_start + heap_size <= usize::MAX,
        ensures
            final(self)@ == (BumpState {
                heap_start: heap_start as nat,
                heap_end: (heap_start + heap_size) as nat,
                next: heap_start as nat,
                allocations: old(self)@.allocations,
            }),
            final(self)@.wf(),
    {
        self.heap_start = heap_start;
        self.heap_end = heap_start + heap_size;
        self.next = heap_start;
    }

    /// Allocates `size` bytes at the cursor rounded up to `align`. Where the
    /// block would end past the heap, `None` is returned and nothing changes.
    pub fn allocate(&mut self, size: usize, align: usize) -> (addr: Option<usize>)
        requires
            is_power_of_two(align as int),
            old(self)@.allocations < usize::MAX,
        ensures
            final(self)@ == old(self)@.after_allocate(size as nat, align as nat),
            addr == (if old(self)@.fits(size as nat, align as nat) {
                Some(old(self)@.alloc_start(align as nat) as usize)
            } else {
                None
            }),
            addr matches Some(a) ==> a % align == 0 && old(self)@.next <= a && a + size
                == final(self)@.next,
            old(self)@.wf() ==> final(self)@.wf(),
    {
        proof {
            lemma_power_of_two_positive(align as int);
            lemma_round_up(self.next as int, align as int);
        }
        let mask: usize = align - 1;
        let top: usize = match self.next.checked_add(mask) {
            Some(top) => top,
            None => {
                proof {
                    lemma_round_up_overflows(self.next, align);
                }
                return None;
            },
        };
        proof {
            lemma_mask_rounds_up(self.next, align);
        }
        let alloc_start: usize = top & !mask;
        let alloc_end: usize = match alloc_start.checked_add(size) {
            Some(end) => end,
            None => { return None; },
        };
        if alloc_end > self.heap_end {
            None
        } else {
            self.next = alloc_end;
            self.allocations = self.allocations + 1;
            Some(alloc_start)
        }
    }

    /// Releases one allocation. When it was the last one, the whole heap is
    /// free again: the cursor goes back to its start. Which block is
    /// released plays no part.
    pub fn deallocate(&mut self, _addr: usize, _size: usize, _align: usize)
        requires
            old(self)@.allocations > 0,
        ensures
            final(self)@ == old(self)@.after_deallocate(),
            old(self)@.wf() ==> final(self)@.wf(),
    {
        self.allocations = self.allocations - 1;
        if self.allocations == 0 {
            self.next = self.heap_start;
        }
    }

    /// The first address of the heap.
    pub fn heap_start(&self) -> (addr: usize)
        ensures
            addr == self@.heap_start,
    {
        self.heap_start
    }

    /// The first address past the heap.
    pub fn heap_end(&self) -> (addr: usize)
        ensures
            addr == self@.heap_end,
    {
        self.heap_end
    }

    /// The cursor.
    pub fn next(&self) -> (addr: usize)
        ensures
            addr == self@.next,
    {
        self.next
    }

    /// The number of live allocations.
    pub fn allocations(&self) -> (count: usize)
        ensures
            count == self@.allocations,
    {
        self.allocations
    }
}

/// A request that fits is served at the cursor rounded up: at a multiple of
/// its alignment, at or after the old cursor and so past every block that
/// ends by the cursor. The new cursor is the end of the block, inside the
/// heap, and one more allocation is live.
pub proof fn lemma_granted_request(bump: BumpState, size: nat, align: nat)
    requires
        is_power_of_two(align as int),
        bump.fits(size, align),
    ensures
        bump.alloc_start(align) % align == 0,
        bump.next <= bump.alloc_start(align) < bump.next + align,
        bump.after_allocate(size, align) == (BumpState {
            next: bump.alloc_start(align) + size,
            allocations: bump.allocations + 1,
            ..bump
        }),
        bump.after_allocate(size, align).next <= bump.heap_end,
        bump.wf() ==> bump.after_allocate(size, align).wf(),
{
    lemma_power_of_two_positive(align as int);
    lemma_round_up(bump.next as int, align as int);
}

/// A request that does not fit changes nothing, the padding for its
/// alignment included: a request that follows it is served as if it had
/// never been made.
pub proof fn lemma_refused_request(
    bump: BumpState,
    size: nat,
    align: nat,
    next_size: nat,
    next_align: nat,
)
    requires
        !bump.fits(size, align),
    ensures
        bump.after_allocate(size, align) == bump,
        bump.after_allocate(size, align).fits(next_size, next_align) == bump.fits(
            next_size,
            next_align,
        ),
        bump.after_allocate(size, align).alloc_start(next_align) == bump.alloc_start(next_align),
{
}

/// A block that was handed out: its first address and its length.
pub struct Block {
    /// The block's first address.
    pub addr: nat,
    /// The block's length in bytes.
    pub size: nat,
}

impl Block {
    /// The first address past the block.
    pub open spec fn end(self) -> nat {
        self.addr + self.size
    }

    /// Whether the two blocks have no byte in common.
    pub open spec fn disjoint(self, other: Block) -> bool {
        self.end() <= other.addr || other.end() <= self.addr
    }
}

/// One use of the allocator.
pub enum HeapOp {
    /// A request for `size` bytes aligned to `align`.
    Allocate { size: nat, align: nat },
    /// The release of the live block that stands at `index` among the live
    /// blocks, oldest first.
    Release { index: int },
}

/// An allocator together with the blocks it has handed out and not yet
/// got back, oldest first.
pub struct Heap {
    /// The allocator's state.
    pub bump: BumpState,
    /// The live blocks.
    pub live: Seq<Block>,
}

impl Heap {
    /// Whether `op` is a proper use of the heap: a request names a power of
    /// two as alignment and asks for at least one byte; a release names a
    /// live block.
    pub open spec fn admits(self, op: HeapOp) -> bool {
        match op {
            HeapOp::Allocate { size, align } => is_power_of_two(align as int) && size > 0,
            HeapOp::Release { index } => 0 <= index < self.live.len(),
        }
    }

    /// The heap after `op`.
    pub open spec fn step(self, op: HeapOp) -> Heap {
        match op {
            HeapOp::Allocate { size, align } => Heap {
                bump: self.bump.after_allocate(size, align),
                live: if self.bump.fits(size, align) {
                    self.live.push(Block { addr: self.bump.alloc_start(align), size })
                } else {
                    self.live
                },
            },
            HeapOp::Release { index } => Heap {
                bump: self.bump.after_deallocate(),
                live: self.live.remove(index),
            },
        }
    }

    /// The heap after the operations `ops`, first to last.
    pub open spec fn run(self, ops: Seq<HeapOp>) -> Heap
        decreases ops.len(),
    {
        if ops.len() == 0 {
            self
        } else {
            self.run(ops.drop_last()).step(ops.last())
        }
    }

    /// Whether each of `ops` is a proper use of the heap that the
    /// operations before it have left.
    pub open spec fn admits_all(self, ops: Seq<HeapOp>) -> bool
        decreases ops.len(),
    {
        ops.len() > 0 ==> self.admits_all(ops.drop_last()) && self.run(ops.drop_last()).admits(
            ops.last(),
        )
    }

    /// The allocator counts the live blocks; each of them has at least one
    /// byte and lies between the heap's start and the cursor; and each ends
    /// before the next one starts.
    pub open spec fn consistent(self) -> bool {
        &&& self.bump.wf()
        &&& self.bump.allocations == self.live.len()
        &&& forall|i: int|
            0 <= i < self.live.len() ==> self.bump.heap_start <= (#[trigger] self.live[i]).addr
                && self.live[i].size > 0 && self.live[i].end() <= self.bump.next
        &&& forall|i: int, j: int|
            0 <= i < j < self.live.len() ==> (#[trigger] self.live[i]).end() <= (
            #[trigger] self.live[j]).addr
    }
}

/// One proper use of a consistent heap leaves it consistent.
proof fn lemma_step_consistent(heap: Heap, op: HeapOp)
    requires
        heap.consistent(),
        heap.admits(op),
    ensures
        heap.step(op).consistent(),
{
    let after = heap.step(op);
    match op {
        HeapOp::Allocate { size, align } => {
            lemma_power_of_two_positive(align as int);
            lemma_round_up(heap.bump.next as int, align as int);
        },
        HeapOp::Release { index } => {
            assert forall|i: int| 0 <= i < after.live.len() implies heap.bump.heap_start <= (
            #[trigger] after.live[i]).addr && after.live[i].size > 0 && after.live[i].end()
                <= after.bump.next by {
                let k = if i < index {
                    i
                } else {
                    i + 1
                };
                assert(after.live[i] == heap.live[k]);
            }
            assert forall|i: int, j: int| 0 <= i < j < after.live.len() implies (
            #[trigger] after.live[i]).end() <= (#[trigger] after.live[j]).addr by {
                let ki = if i < index {
                    i
                } else {
                    i + 1
                };
                let kj = if j < index {
                    j
                } else {
                    j + 1
                };
                assert(after.live[i] == heap.live[ki]);
                assert(after.live[j] == heap.live[kj]);
            }
        },
    }
}

/// Proper use keeps a consistent heap consistent, however long it goes on.
pub proof fn lemma_run_consistent(heap: Heap, ops: Seq<HeapOp>)
    requires
        heap.consistent(),
        heap.admits_all(ops),
    ensures
        heap.run(ops).consistent(),
    decreases ops.len(),
{
    if ops.len() > 0 {
        lemma_run_consistent(heap, ops.drop_last());
        lemma_step_consistent(heap.run(ops.drop_last()), ops.last());
    }
}

/// Whatever requests and releases are made of an allocator that starts with
/// no live allocation, the blocks that are live at the end lie inside the
/// heap, start at different addresses, and no two of them overlap.
pub proof fn lemma_live_blocks_apart(bump: BumpState, ops: Seq<HeapOp>)
    requires
        bump.wf(),
        bump.allocations == 0,
        (Heap { bump, live: Seq::empty() }).admits_all(ops),
    ensures
        ({
            let heap = (Heap { bump, live: Seq::empty() }).run(ops);
            &&& heap.bump.heap_start == bump.heap_start
            &&& heap.bump.heap_end == bump.heap_end
            &&& forall|i: int|
                0 <= i < heap.live.len() ==> bump.heap_start <= (#[trigger] heap.live[i]).addr
                    < bump.heap_end && heap.live[i].end() <= bump.heap_end
            &&& forall|i: int, j: int|
                0 <= i < heap.live.len() && 0 <= j < heap.live.len() && i != j ==> (
                #[trigger] heap.live[i]).addr != (#[trigger] heap.live[j]).addr
                    && heap.live[i].disjoint(heap.live[j])
        }),
{
    let start = Heap { bump, live: Seq::empty() };
    let heap = start.run(ops);
    lemma_run_consistent(start, ops);
    lemma_run_keeps_bounds(start, ops);
    assert forall|i: int, j: int|
        0 <= i < heap.live.len() && 0 <= j < heap.live.len() && i != j implies (
    #[trigger] heap.live[i]).addr != (#[trigger] heap.live[j]).addr && heap.live[i].disjoint(
        heap.live[j],
    ) by {
        if i < j {
            assert(heap.live[i].end() <= heap.live[j].addr);
        } else {
            assert(heap.live[j].end() <= heap.live[i].addr);
        }
    }
}

/// No use of the allocator moves the heap's bounds.
pub proof fn lemma_run_keeps_bounds(heap: Heap, ops: Seq<HeapOp>)
    ensures
        heap.run(ops).bump.heap_start == heap.bump.heap_start,
        heap.run(ops).bump.heap_end == heap.bump.heap_end,
    decreases ops.len(),
{
    if ops.len() > 0 {
        lemma_run_keeps_bounds(heap, ops.drop_last());
    }
}

/// A request that is granted while nothing else is live, and then released,
/// leaves the cursor at the start of the heap.
pub proof fn lemma_round_trip(bump: BumpState, size: nat, align: nat)
    requires
        bump.allocations == 0,
        bump.fits(size, align),
    ensures
        bump.after_allocate(size, align).after_deallocate().next == bump.heap_start,
        bump.after_allocate(size, align).after_deallocate().allocations == 0,
{
}

} // verus!
