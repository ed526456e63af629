//! The kernel heap: where it lies, how addresses are aligned, and how its
//! pages are backed by physical frames.

use crate::memory::BootInfoFrameAllocator;
use vstd::arithmetic::div_mod::{
    lemma_fundamental_div_mod, lemma_mod_multiples_vanish, lemma_small_mod,
};
use vstd::arithmetic::power2::{
    lemma2_to64, lemma_pow2_adds, lemma_pow2_pos, lemma_pow2_strictly_increases, pow2,
};
use vstd::bits::{lemma_usize_low_bits_mask_is_mod, low_bits_mask};
use vstd::prelude::*;

pub mod bump;

verus! {

/// The virtual address at which the heap starts.
pub const HEAP_START: u64 = 0x_4444_4444_0000;

/// The size of the heap in bytes: 100 KiB.
pub const HEAP_SIZE: usize = 100 * 1024;

/// Whether `n` is a power of two.
pub open spec fn is_power_of_two(n: int) -> bool {
    exists|k: nat| n == pow2(k)
}

/// The least multiple of `align` that is not below `addr`.
pub open spec fn round_up(addr: int, align: int) -> int {
    if addr % align == 0 {
        addr
    } else {
        addr - addr % align + align
    }
}

/// `round_up(addr, align)` is a multiple of `align`, is not below `addr`,
/// and lies less than `align` above it.
pub proof fn lemma_round_up(addr: int, align: int)
    requires
        0 <= addr,
        0 < align,
    ensures
        round_up(addr, align) % align == 0,
        addr <= round_up(addr, align) < addr + align,
{
    let q = addr / align;
    let m = addr % align;
    lemma_fundamental_div_mod(addr, align);
    if m != 0 {
        lemma_mod_multiples_vanish(q + 1, 0, align);
        lemma_small_mod(0, align as nat);
        assert(align * (q + 1) == align * q + align) by (nonlinear_arith);
    }
}

/// A power of two that fits in `usize` has an exponent below the word size.
proof fn lemma_exponent_in_range(align: usize, k: nat)
    requires
        align == pow2(k),
    ensures
        k < usize::BITS,
{
    lemma2_to64();
    if k >= usize::BITS {
        if k > usize::BITS {
            lemma_pow2_strictly_increases(usize::BITS as nat, k);
        }
        assert(pow2(usize::BITS as nat) > usize::MAX);
    }
}

/// Masking off the low bits of `addr + align - 1` rounds `addr` up to a
/// power-of-two `align`.
pub proof fn lemma_mask_rounds_up(addr: usize, align: usize)
    requires
        is_power_of_two(align as int),
        addr + align - 1 <= usize::MAX,
    ensures
        align > 0,
        ((addr + align - 1) as usize) & !((align - 1) as usize) == round_up(
            addr as int,
            align as int,
        ),
{
    let k = choose|k: nat| align as int == pow2(k);
    lemma_pow2_pos(k);
    lemma_exponent_in_range(align, k);
    let mask = (align - 1) as usize;
    let top = (addr + align - 1) as usize;
    assert(top & !mask == top - (top & mask)) by (bit_vector);
    lemma_usize_low_bits_mask_is_mod(top, k);
    assert(low_bits_mask(k) as usize == mask);
    assert(top & mask == top % align);
    let a = align as int;
    let q = addr as int / a;
    let m = addr as int % a;
    lemma_fundamental_div_mod(addr as int, a);
    if m == 0 {
        lemma_mod_multiples_vanish(q, a - 1, a);
        lemma_small_mod((a - 1) as nat, a as nat);
    } else {
        lemma_mod_multiples_vanish(q + 1, m - 1, a);
        lemma_small_mod((m - 1) as nat, a as nat);
        assert(a * (q + 1) == a * q + a) by (nonlinear_arith);
    }
}

/// Where `addr + align - 1` does not fit in a word, neither does `addr`
/// rounded up to a power-of-two `align`.
pub proof fn lemma_round_up_overflows(addr: usize, align: usize)
    requires
        is_power_of_two(align as int),
        addr + align - 1 > usize::MAX,
    ensures
        round_up(addr as int, align as int) > usize::MAX,
{
    let k = choose|k: nat| align as int == pow2(k);
    lemma_pow2_pos(k);
    lemma_exponent_in_range(align, k);
    lemma2_to64();
    let a = align as int;
    let p = pow2((usize::BITS - k) as nat) as int;
    let limit = usize::MAX + 1;
    lemma_pow2_adds(k, (usize::BITS - k) as nat);
    assert(limit == a * p);
    let r = round_up(addr as int, a);
    lemma_round_up(addr as int, a);
    lemma_fundamental_div_mod(r, a);
    let q = r / a;
    if r < limit {
        assert(q < p) by (nonlinear_arith)
            requires
                a * q < a * p,
                a > 0,
        ;
        assert(a * (q + 1) <= a * p) by (nonlinear_arith)
            requires
                q + 1 <= p,
                a > 0,
        ;
        assert(a * (q + 1) == a * q + a) by (nonlinear_arith);
    }
}

/// A power of two is positive.
pub proof fn lemma_power_of_two_positive(n: int)
    requires
        is_power_of_two(n),
    ensures
        n > 0,
{
    let k = choose|k: nat| n == pow2(k);
    lemma_pow2_pos(k);
}

/// Rounds `addr` up to the next multiple of `align`, a power of two.
pub fn align_up(addr: usize, align: usize) -> (aligned: usize)
    requires
        is_power_of_two(align as int),
        addr + align - 1 <= usize::MAX,
    ensures
        aligned == round_up(addr as int, align as int),
        aligned % align == 0,
        addr <= aligned < addr + align,
{
    proof {
        lemma_mask_rounds_up(addr, align);
        lemma_round_up(addr as int, align as int);
    }
    let mask: usize = align - 1;
    (addr + mask) & !mask
}

/// An allocator that has no memory to give.
pub struct Dummy;

impl Dummy {
    /// Fails, whatever is asked for.
    pub fn allocate(&self, _size: usize, _align: usize) -> (addr: Option<usize>)
        ensures
            addr is None,
    {
        None
    }
}

/// The size of a virtual page in bytes.
pub const PAGE_SIZE: u64 = 4096;

/// The page-table flag of an entry that is in use.
pub const PAGE_PRESENT: u64 = 1;

/// The page-table flag of a page that may be written to.
pub const PAGE_WRITABLE: u64 = 2;

/// The flags that every heap page is mapped with: present and writable.
pub const HEAP_PAGE_FLAGS: u64 = PAGE_PRESENT | PAGE_WRITABLE;

/// The start of the page that holds `addr`.
pub open spec fn page_of(addr: int) -> int {
    addr - addr % (PAGE_SIZE as int)
}

/// The number of pages that the heap touches, from the page of its first
/// byte to the page of its last.
pub open spec fn heap_page_count() -> nat {
    ((page_of(HEAP_START + HEAP_SIZE - 1) - page_of(HEAP_START as int)) / (PAGE_SIZE as int)
        + 1) as nat
}

/// The start of the heap's page number `k`, counted from zero.
pub open spec fn heap_page(k: nat) -> int {
    page_of(HEAP_START as int) + PAGE_SIZE * k
}

/// The heap starts at the start of a page and touches 25 pages.
pub proof fn lemma_heap_layout()
    ensures
        heap_page(0) == HEAP_START,
        heap_page_count() == 25,
{
}

/// Every byte of the heap lies in one of the heap's pages.
pub proof fn lemma_heap_pages_cover(addr: int)
    requires
        HEAP_START <= addr < HEAP_START + HEAP_SIZE,
    ensures
        exists|k: nat| k < heap_page_count() && #[trigger] heap_page(k) == page_of(addr),
{
    let k = ((page_of(addr) - page_of(HEAP_START as int)) / (PAGE_SIZE as int)) as nat;
    assert(heap_page(k) == page_of(addr));
}

/// Why a page could not be mapped.
#[derive(Clone, Copy, Debug, PartialEq, Eq, Structural)]
pub enum MapToError {
    /// No frame was left for the page or for a page table that it needs.
    FrameAllocationFailed,
    /// An entry above the page maps a huge page.
    ParentEntryHugePage,
    /// The page is mapped already, to the frame that starts here.
    PageAlreadyMapped(u64),
}

/// One mapping to install: a page, the frame behind it, and the flags
/// of the entry.
#[derive(Clone, Copy, Debug, PartialEq, Eq, Structural)]
pub struct Mapping {
    /// The start of the virtual page.
    pub page: u64,
    /// The start of the physical frame.
    pub frame: u64,
    /// The page-table flags.
    pub flags: u64,
}

/// What happened since the last step of the heap's set-up.
#[derive(Clone, Copy, Debug, PartialEq, Eq, Structural)]
pub enum HeapInitEvent {
    /// Nothing yet: the set-up begins.
    Start,
    /// The mapping asked for was installed and the stale TLB entry flushed.
    Mapped,
    /// The mapping asked for could not be installed.
    MapFailed(MapToError),
}

/// What is to be done next in the heap's set-up.
#[derive(Clone, Copy, Debug, PartialEq, Eq, Structural)]
pub enum HeapInitAction {
    /// Install this mapping, flush the stale TLB entry, and report back.
    MapPage(Mapping),
    /// Every heap page is mapped: hand this range to the heap allocator.
    Ready { heap_start: u64, heap_size: usize },
    /// Give up with this error. What was mapped stays mapped.
    Abort(MapToError),
}

/// How far the heap's set-up has come.
pub struct HeapInit {
    requested: u64,
}

impl HeapInit {
    /// The number of heap pages for which a mapping was asked so far.
    pub closed spec fn requested(&self) -> nat {
        self.requested as nat
    }

    /// A set-up that has asked for nothing yet.
    pub fn new() -> (progress: Self)
        ensures
            progress.requested() == 0,
    {
        HeapInit { requested: 0 }
    }

    /// The number of pages from which a step that follows `event` goes on:
    /// from the first page at the start, else from the first page not yet
    /// asked for.
    pub open spec fn resume_at(&self, event: HeapInitEvent) -> nat {
        if event == HeapInitEvent::Start {
            0
        } else {
            self.requested()
        }
    }

    /// What a step answers to `event`, given the frame that the frame
    /// allocator would hand out next:
    /// a failed mapping ends the set-up with its error; when every page is
    /// mapped the heap is ready; otherwise the next page is mapped to the
    /// next frame, and without a frame the set-up ends.
    pub open spec fn action_for(&self, event: HeapInitEvent, frame: Option<u64>) -> HeapInitAction {
        match event {
            HeapInitEvent::MapFailed(error) => HeapInitAction::Abort(error),
            _ => if self.resume_at(event) >= heap_page_count() {
                HeapInitAction::Ready { heap_start: HEAP_START, heap_size: HEAP_SIZE }
            } else {
                match frame {
                    Some(frame) => HeapInitAction::MapPage(
                        Mapping {
                            page: heap_page(self.resume_at(event)) as u64,
                            frame,
                            flags: HEAP_PAGE_FLAGS,
                        },
                    ),
                    None => HeapInitAction::Abort(MapToError::FrameAllocationFailed),
                }
            },
        }
    }
}

/// One step of backing the heap with physical memory. The caller starts
/// with `HeapInitEvent::Start`, carries out each `MapPage` that comes back and
/// answers with `Mapped` or `MapFailed`, until `Ready` or `Abort` comes back.
///
/// A frame is taken from `frame_allocator` exactly when a page is still to
/// be mapped; the pages are asked for in ascending order, each once.
pub fn init_heap(
    progress: &mut HeapInit,
    event: HeapInitEvent,
    frame_allocator: &mut BootInfoFrameAllocator<'_>,
) -> (action: HeapInitAction)
    ensures
        action == old(progress).action_for(event, old(frame_allocator).upcoming()),
        final(progress).requested() == (if action is MapPage {
            old(progress).resume_at(event) + 1
        } else if action is Ready {
            old(progress).resume_at(event)
        } else {
            old(progress).requested()
        }),
        final(frame_allocator).memory_map() == old(frame_allocator).memory_map(),
        final(frame_allocator).cursor() == (if event is MapFailed || action is Ready {
            old(frame_allocator).cursor()
        } else {
            old(frame_allocator).cursor_after()
        }),
{
    let first_page: u64 = HEAP_START - HEAP_START % PAGE_SIZE;
    let heap_last: u64 = HEAP_START + (HEAP_SIZE as u64) - 1;
    let last_page: u64 = heap_last - heap_last % PAGE_SIZE;
    let page_count: u64 = (last_page - first_page) / PAGE_SIZE + 1;
    let resume_at: u64 = match event {
        HeapInitEvent::MapFailed(error) => {
            return HeapInitAction::Abort(error);
        },
        HeapInitEvent::Start => 0,
        HeapInitEvent::Mapped => progress.requested,
    };
    if resume_at >= page_count {
        progress.requested = resume_at;
        return HeapInitAction::Ready { heap_start: HEAP_START, heap_size: HEAP_SIZE };
    }
    match frame_allocator.allocate_frame() {
        Some(frame) => {
            progress.requested = resume_at + 1;
            HeapInitAction::MapPage(
                Mapping { page: first_page + PAGE_SIZE * resume_at, frame, flags: HEAP_PAGE_FLAGS },
            )
        },
        None => HeapInitAction::Abort(MapToError::FrameAllocationFailed),
    }
}

} // verus!
