//! Physical memory: the regions that the boot loader reports, and an
//! allocator that hands out the unused 4 KiB frames among them, each once.

use crate::allocator::{lemma_round_up, round_up};
use vstd::prelude::*;

verus! {

/// The size of a physical frame in bytes.
pub const FRAME_SIZE: u64 = 4096;

/// Whether `addr` is a canonical virtual address: bits 47 to 63 are all
/// equal.
pub open spec fn is_canonical(addr: u64) -> bool {
    addr < 0x8000_0000_0000 || addr >= 0xffff_8000_0000_0000
}

/// Tells whether `addr` is a canonical virtual address.
pub fn canonical(addr: u64) -> (is: bool)
    ensures
        is == is_canonical(addr),
{
    addr < 0x8000_0000_0000 || addr >= 0xffff_8000_0000_0000
}

/// The virtual address at which the physical address `phys` can be read,
/// where all physical memory is mapped from `physical_memory_offset` on.
pub fn phys_to_virt(physical_memory_offset: u64, phys: u64) -> (addr: u64)
    requires
        physical_memory_offset + phys <= u64::MAX,
        is_canonical((physical_memory_offset + phys) as u64),
    ensures
        addr == physical_memory_offset + phys,
{
    physical_memory_offset + phys
}

/// A region of physical memory as the boot loader reports it.
#[derive(Clone, Copy, Debug, PartialEq, Eq, Structural)]
pub struct MemoryRegion {
    /// The region's first address.
    pub start: u64,
    /// The first address past the region.
    pub end: u64,
    /// Whether the kernel is free to use the region.
    pub usable: bool,
}

impl MemoryRegion {
    /// The lowest frame-aligned address that is not below the region's
    /// start.
    pub open spec fn first_frame(self) -> int {
        round_up(self.start as int, FRAME_SIZE as int)
    }

    /// The number of frame-aligned addresses in a usable region; zero for a
    /// region that is not usable.
    pub open spec fn frame_count(self) -> nat {
        if self.usable && self.first_frame() < self.end {
            ((self.end - self.first_frame() - 1) / (FRAME_SIZE as int) + 1) as nat
        } else {
            0
        }
    }

    /// The frames of the region, lowest first: the frame-aligned addresses
    /// from its start up to its end, the end left out.
    pub open spec fn frames(self) -> Seq<u64> {
        Seq::new(self.frame_count(), |k: int| (self.first_frame() + FRAME_SIZE * k) as u64)
    }

    /// Whether `frame` is a frame-aligned address inside the region, and the
    /// region usable.
    pub open spec fn holds_frame(self, frame: u64) -> bool {
        self.usable && frame % FRAME_SIZE == 0 && self.start <= frame < self.end
    }

    /// Whether the region holds no address: its end is not above its start.
    pub open spec fn is_empty(self) -> bool {
        self.end <= self.start
    }

    /// Whether the two regions have no address in common: one of them is
    /// empty, or one ends where the other starts or before.
    pub open spec fn apart_from(self, other: MemoryRegion) -> bool {
        self.is_empty() || other.is_empty() || self.end <= other.start || other.end <= self.start
    }
}

/// The frames of the usable regions of a memory map, in the order of the
/// map, and within a region from low to high.
pub open spec fn usable_frames(map: Seq<MemoryRegion>) -> Seq<u64>
    decreases map.len(),
{
    if map.len() == 0 {
        Seq::empty()
    } else {
        map.first().frames() + usable_frames(map.drop_first())
    }
}

/// The frame at position `n` among the usable frames of `map`, if there are
/// that many.
pub open spec fn frame_at(map: Seq<MemoryRegion>, n: nat) -> Option<u64> {
    if n < usable_frames(map).len() {
        Some(usable_frames(map)[n as int])
    } else {
        None
    }
}

/// Whether no two usable regions of the map have an address in common.
pub open spec fn usable_regions_apart(map: Seq<MemoryRegion>) -> bool {
    forall|i: int, j: int|
        0 <= i < map.len() && 0 <= j < map.len() && i != j && (#[trigger] map[i]).usable && (
        #[trigger] map[j]).usable ==> map[i].apart_from(map[j])
}

/// The frames of a region are exactly the frame-aligned addresses inside
/// it: each of its frames is one, at a place that its address gives, and
/// each such address is among its frames.
pub proof fn lemma_region_frames(region: MemoryRegion)
    ensures
        forall|k: int|
            0 <= k < region.frames().len() ==> region.holds_frame(#[trigger] region.frames()[k])
                && region.frames()[k] == region.first_frame() + FRAME_SIZE * k,
        forall|frame: u64| #[trigger]
            region.holds_frame(frame) ==> region.frames().contains(frame),
{
    let first = region.first_frame();
    lemma_round_up(region.start as int, FRAME_SIZE as int);
    assert forall|k: int| 0 <= k < region.frames().len() implies region.holds_frame(
        #[trigger] region.frames()[k],
    ) && region.frames()[k] == first + FRAME_SIZE * k by {
        let address = first + FRAME_SIZE * k;
        assert(address < region.end);
        assert(address % (FRAME_SIZE as int) == 0);
    }
    assert forall|frame: u64| #[trigger] region.holds_frame(frame) implies region.frames().contains(
        frame,
    ) by {
        assert(first <= frame) by {
            if frame < first {
                assert(region.start as int % (FRAME_SIZE as int) != 0);
                assert(region.start - region.start as int % (FRAME_SIZE as int) < frame);
            }
        }
        let k = (frame - first) / (FRAME_SIZE as int);
        assert(frame == first + FRAME_SIZE * k);
        assert(0 <= k < region.frame_count());
        assert(region.frames()[k] == frame);
    }
}

/// Every usable frame of a map lies in one of its usable regions, at a
/// frame-aligned address.
pub proof fn lemma_frame_in_usable_region(map: Seq<MemoryRegion>, n: int)
    requires
        0 <= n < usable_frames(map).len(),
    ensures
        exists|r: int| 0 <= r < map.len() && (#[trigger] map[r]).holds_frame(usable_frames(map)[n]),
    decreases map.len(),
{
    let head = map.first().frames();
    if n < head.len() {
        lemma_region_frames(map.first());
        assert(map[0].holds_frame(usable_frames(map)[n]));
    } else {
        let rest = map.drop_first();
        lemma_frame_in_usable_region(rest, n - head.len());
        let r = choose|r: int|
            0 <= r < rest.len() && (#[trigger] rest[r]).holds_frame(
                usable_frames(rest)[n - head.len()],
            );
        assert(map[r + 1] == rest[r]);
    }
}

/// Where no two usable regions overlap, no frame occurs twice among the
/// usable frames: the frames at two different positions differ.
pub proof fn lemma_frames_differ(map: Seq<MemoryRegion>, i: int, j: int)
    requires
        usable_regions_apart(map),
        0 <= i < j < usable_frames(map).len(),
    ensures
        usable_frames(map)[i] != usable_frames(map)[j],
    decreases map.len(),
{
    let head = map.first().frames();
    let rest = map.drop_first();
    if j < head.len() {
        lemma_region_frames(map.first());
    } else if i >= head.len() {
        assert forall|a: int, b: int|
            0 <= a < rest.len() && 0 <= b < rest.len() && a != b && (#[trigger] rest[a]).usable
                && (#[trigger] rest[b]).usable implies rest[a].apart_from(rest[b]) by {
            assert(rest[a] == map[a + 1]);
            assert(rest[b] == map[b + 1]);
        }
        lemma_frames_differ(rest, i - head.len(), j - head.len());
    } else {
        lemma_region_frames(map.first());
        lemma_frame_in_usable_region(rest, j - head.len());
        let r = choose|r: int|
            0 <= r < rest.len() && (#[trigger] rest[r]).holds_frame(
                usable_frames(rest)[j - head.len()],
            );
        assert(map[r + 1] == rest[r]);
        assert(map[0].holds_frame(usable_frames(map)[i]));
        assert(map[0].apart_from(map[r + 1]));
    }
}

/// Where no two usable regions overlap, a frame that is handed out is none
/// of those handed out before: of two allocators over one map, the one
/// whose cursor stands further hands out another frame than the other.
pub proof fn lemma_later_frame_differs(
    earlier: BootInfoFrameAllocator<'_>,
    later: BootInfoFrameAllocator<'_>,
)
    requires
        earlier.memory_map() == later.memory_map(),
        usable_regions_apart(earlier.memory_map()),
        earlier.cursor() < later.cursor(),
        earlier.upcoming() is Some,
        later.upcoming() is Some,
    ensures
        earlier.upcoming() != later.upcoming(),
        earlier.cursor_after() == earlier.cursor() + 1,
        later.cursor_after() == later.cursor() + 1,
{
    lemma_frames_differ(earlier.memory_map(), earlier.cursor() as int, later.cursor() as int);
}

/// Hands out the usable frames of a memory map, one after the other.
pub struct BootInfoFrameAllocator<'a> {
    memory_map: &'a [MemoryRegion],
    next: usize,
}

impl<'a> BootInfoFrameAllocator<'a> {
    /// The memory map that the allocator draws from.
    pub closed spec fn memory_map(&self) -> Seq<MemoryRegion> {
        self.memory_map@
    }

    /// The number of frames handed out so far.
    pub closed spec fn cursor(&self) -> nat {
        self.next as nat
    }

    /// An allocator over `memory_map` that has handed out nothing yet.
    pub fn init(memory_map: &'a [MemoryRegion]) -> (allocator: Self)
        ensures
            allocator.memory_map() == memory_map@,
            allocator.cursor() == 0,
    {
        BootInfoFrameAllocator { memory_map, next: 0 }
    }

    /// The number of frame-aligned addresses in `region` if it is usable,
    /// and zero if it is not.
    fn region_frame_count(region: &MemoryRegion) -> (count: u64)
        ensures
            count == region.frame_count(),
            count > 0 ==> region.first_frame() == region.start + (FRAME_SIZE - region.start
                % FRAME_SIZE) % (FRAME_SIZE as int),
    {
        if !region.usable {
            return 0;
        }
        let rest: u64 = region.start % FRAME_SIZE;
        let gap: u64 = if rest == 0 {
            0
        } else {
            FRAME_SIZE - rest
        };
        if region.end <= region.start || region.end - region.start <= gap {
            return 0;
        }
        (region.end - region.start - gap - 1) / FRAME_SIZE + 1
    }

    /// The frame at position `n` among the usable frames of the memory map.
    pub fn usable_frame(&self, n: usize) -> (frame: Option<u64>)
        ensures
            frame == frame_at(self.memory_map(), n as nat),
    {
        let mut i: usize = 0;
        let mut rest: u64 = n as u64;
        assert(self.memory_map@.skip(0) == self.memory_map@);
        while i < self.memory_map.len()
            invariant
                i <= self.memory_map.len(),
                frame_at(self.memory_map@, n as nat) == frame_at(
                    self.memory_map@.skip(i as int),
                    rest as nat,
                ),
            decreases self.memory_map.len() - i,
        {
            let region = self.memory_map[i];
            let count = Self::region_frame_count(&region);
            proof {
                let tail = self.memory_map@.skip(i as int);
                assert(tail.first() == region);
                assert(tail.drop_first() == self.memory_map@.skip(i + 1));
                lemma_region_frames(region);
            }
            if rest < count {
                let gap: u64 = (FRAME_SIZE - region.start % FRAME_SIZE) % FRAME_SIZE;
                assert(region.frames()[rest as int] == region.start + gap + FRAME_SIZE * rest);
                return Some(region.start + gap + FRAME_SIZE * rest);
            }
            rest = rest - count;
            i = i + 1;
        }
        assert(self.memory_map@.skip(i as int).len() == 0);
        None
    }

    /// The frame that the next call of `allocate_frame` hands out: the one at
    /// the cursor, or none where the usable frames are used up or the cursor
    /// cannot move on.
    pub open spec fn upcoming(&self) -> Option<u64> {
        if self.cursor() < usize::MAX {
            frame_at(self.memory_map(), self.cursor())
        } else {
            None
        }
    }

    /// The cursor after the next call of `allocate_frame`: one further, but
    /// not past the largest number that a word holds.
    pub open spec fn cursor_after(&self) -> nat {
        if self.cursor() < usize::MAX {
            self.cursor() + 1
        } else {
            self.cursor()
        }
    }

    /// The next usable frame that was not handed out before, or `None` once
    /// there is none left. The cursor moves on by one either way.
    pub fn allocate_frame(&mut self) -> (frame: Option<u64>)
        ensures
            frame == old(self).upcoming(),
            final(self).memory_map() == old(self).memory_map(),
            final(self).cursor() == old(self).cursor_after(),
    {
        if self.next == usize::MAX {
            return None;
        }
        let frame = self.usable_frame(self.next);
        self.next = self.next + 1;
        frame
    }
}

} // verus!
