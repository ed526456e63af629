//! The descriptor tables that let the processor switch to a known-good
//! stack when a double fault strikes: a task state segment that names the
//! stack, and a global descriptor table that names the code segment and the
//! task state segment.

use crate::memory::is_canonical;
use vstd::prelude::*;
use x86_64::structures::gdt::GlobalDescriptorTable;
use x86_64::structures::tss::TaskStateSegment;

verus! {

/// The place in the interrupt stack table of the stack for double faults.
pub const DOUBLE_FAULT_IST_INDEX: u16 = 0;

/// The size in bytes of the stack for double faults: five pages.
pub const STACK_SIZE: usize = 4096 * 5;

/// The descriptor of a 64-bit code segment for ring 0: present, executable,
/// long mode, with the limit and the access bits that are ignored in 64-bit
/// mode set.
pub const KERNEL_CODE_SEGMENT: u64 = 0x00af_9b00_0000_ffff;

/// The limit of a task state segment: its size of 0x68 bytes, less one.
pub const TSS_LIMIT: u64 = 0x67;

/// Bits 40 to 55 of the descriptor of a task state segment: type 9, an
/// available 64-bit task state segment, and the present bit.
pub const TSS_ACCESS: u64 = 0x89;

/// The number of entries of an interrupt stack table.
pub const IST_ENTRIES: usize = 7;

/// The number of 64-bit words that a global descriptor table can hold.
pub const GDT_WORDS: usize = 8;

/// The task state segment of `x86_64`.
#[verifier::external_type_specification]
#[verifier::external_body]
pub struct ExTaskStateSegment(TaskStateSegment);

/// The global descriptor table of `x86_64`.
#[verifier::external_type_specification]
#[verifier::external_body]
pub struct ExGlobalDescriptorTable(GlobalDescriptorTable);

/// The stack pointers in the interrupt stack table of `tss`, in order.
pub uninterp spec fn interrupt_stacks(tss: TaskStateSegment) -> Seq<u64>;

/// The words of `gdt` that are in use, in order: what
/// `GlobalDescriptorTable::as_raw_slice` shows.
pub uninterp spec fn gdt_words(gdt: GlobalDescriptorTable) -> Seq<u64>;

/// A segment descriptor.
#[derive(Clone, Copy, Debug, PartialEq, Eq, Structural)]
pub enum Descriptor {
    /// A code or data segment: one word.
    UserSegment(u64),
    /// A system segment, such as a task state segment: two words, low
    /// first.
    SystemSegment(u64, u64),
}

impl Descriptor {
    /// The words that the descriptor takes in a table.
    pub open spec fn words(self) -> Seq<u64> {
        match self {
            Descriptor::UserSegment(value) => seq![value],
            Descriptor::SystemSegment(low, high) => seq![low, high],
        }
    }

    /// The descriptor's privilege level: bits 45 and 46 of its first word.
    pub open spec fn privilege_level(self) -> int {
        (self.words()[0] as int / 0x2000_0000_0000) % 4
    }

    /// Whether this is the descriptor of a task state segment as the kernel
    /// uses it: a system segment whose limit, in bits 0 to 15 of the low
    /// word, is `TSS_LIMIT`; whose bits 40 to 55 say that it is an available
    /// 64-bit task state segment, present, of privilege level 0, with the
    /// rest of the limit and the flags zero; and whose high word holds
    /// nothing above the upper half of an address. The other bits hold the
    /// address of the segment.
    pub open spec fn is_tss_descriptor(self) -> bool {
        self matches Descriptor::SystemSegment(low, high) && low % 0x1_0000 == TSS_LIMIT && (low
            / 0x100_0000_0000) % 0x1_0000 == TSS_ACCESS && high < 0x1_0000_0000
    }
}

/// `TaskStateSegment::new`: a task state segment whose interrupt stack
/// table holds seven null pointers.
#[verifier::external_body]
fn tss_new() -> (tss: TaskStateSegment)
    ensures
        interrupt_stacks(tss) == Seq::new(IST_ENTRIES as nat, |i: int| 0u64),
{
    TaskStateSegment::new()
}

/// Stores `VirtAddr::new(top)` at `index` of the interrupt stack table.
/// `VirtAddr::new` keeps a canonical address as it is, and the other
/// entries are not touched.
#[verifier::external_body]
fn tss_set_interrupt_stack(tss: &mut TaskStateSegment, index: usize, top: u64)
    requires
        index < IST_ENTRIES,
        is_canonical(top),
    ensures
        interrupt_stacks(*final(tss)) == interrupt_stacks(*old(tss)).update(index as int, top),
{
    tss.interrupt_stack_table[index] = x86_64::VirtAddr::new(top);
}

/// `GlobalDescriptorTable::new`: a table that holds the null descriptor
/// and nothing else.
#[verifier::external_body]
fn gdt_new() -> (gdt: GlobalDescriptorTable)
    ensures
        gdt_words(gdt) == seq![0u64],
{
    GlobalDescriptorTable::new()
}

/// `GlobalDescriptorTable::add_entry`: appends the words of `entry` and
/// returns the selector of the entry, as a number: the index of its first
/// word times eight, plus its privilege level. The call panics where the
/// table has no room, which `requires` leaves out.
#[verifier::external_body]
fn gdt_add_entry(gdt: &mut GlobalDescriptorTable, entry: Descriptor) -> (selector: u16)
    requires
        gdt_words(*old(gdt)).len() + entry.words().len() <= GDT_WORDS,
    ensures
        gdt_words(*final(gdt)) == gdt_words(*old(gdt)) + entry.words(),
        selector == 8 * gdt_words(*old(gdt)).len() + entry.privilege_level(),
{
    let entry = match entry {
        Descriptor::UserSegment(value) => x86_64::structures::gdt::Descriptor::UserSegment(value),
        Descriptor::SystemSegment(low, high) => x86_64::structures::gdt::Descriptor::SystemSegment(
            low,
            high,
        ),
    };
    gdt.add_entry(entry).0
}

/// `Descriptor::kernel_code_segment`: the descriptor of a 64-bit code
/// segment for ring 0.
#[verifier::external_body]
fn kernel_code_segment() -> (descriptor: Descriptor)
    ensures
        descriptor == Descriptor::UserSegment(KERNEL_CODE_SEGMENT),
{
    match x86_64::structures::gdt::Descriptor::kernel_code_segment() {
        x86_64::structures::gdt::Descriptor::UserSegment(value) => Descriptor::UserSegment(value),
        x86_64::structures::gdt::Descriptor::SystemSegment(low, high) => Descriptor::SystemSegment(
            low,
            high,
        ),
    }
}

/// `Descriptor::tss_segment`: a system descriptor for `tss`. Its words hold
/// the address of `tss`, which no contract can know. The bits beside the
/// address are fixed: the limit, the type, the present bit, privilege level
/// 0, and zeros.
#[verifier::external_body]
fn tss_segment(tss: &'static TaskStateSegment) -> (descriptor: Descriptor)
    ensures
        descriptor.is_tss_descriptor(),
        descriptor.privilege_level() == 0,
{
    match x86_64::structures::gdt::Descriptor::tss_segment(tss) {
        x86_64::structures::gdt::Descriptor::UserSegment(value) => Descriptor::UserSegment(value),
        x86_64::structures::gdt::Descriptor::SystemSegment(low, high) => Descriptor::SystemSegment(
            low,
            high,
        ),
    }
}

/// The selectors of the two segments that the kernel loads.
#[derive(Clone, Copy, Debug, PartialEq, Eq, Structural)]
pub struct Selectors {
    /// The selector of the kernel's code segment.
    pub code_selector: u16,
    /// The selector of the task state segment.
    pub tss_selector: u16,
}

/// A task state segment whose interrupt stack table names one stack, at
/// `DOUBLE_FAULT_IST_INDEX`: the `STACK_SIZE` bytes that start at
/// `stack_start`. Stacks grow downwards, so the entry holds the stack's end.
pub fn init_tss(stack_start: u64) -> (tss: TaskStateSegment)
    requires
        stack_start + STACK_SIZE <= u64::MAX,
        is_canonical((stack_start + STACK_SIZE) as u64),
    ensures
        interrupt_stacks(tss) == Seq::new(
            IST_ENTRIES as nat,
            |i: int|
                if i == DOUBLE_FAULT_IST_INDEX {
                    (stack_start + STACK_SIZE) as u64
                } else {
                    0u64
                },
        ),
{
    let mut tss = tss_new();
    let stack_end: u64 = stack_start + STACK_SIZE as u64;
    tss_set_interrupt_stack(&mut tss, DOUBLE_FAULT_IST_INDEX as usize, stack_end);
    tss
}

/// A global descriptor table that holds, after the null descriptor, the
/// kernel's code segment and the descriptor of `tss`, with the selectors of
/// the two. Of the descriptor of `tss` every bit is fixed but the address.
pub fn init_gdt(tss: &'static TaskStateSegment) -> (tables: (GlobalDescriptorTable, Selectors))
    ensures
        gdt_words(tables.0).len() == 4,
        gdt_words(tables.0)[0] == 0,
        gdt_words(tables.0)[1] == KERNEL_CODE_SEGMENT,
        Descriptor::SystemSegment(gdt_words(tables.0)[2], gdt_words(tables.0)[3]).is_tss_descriptor(),
        tables.1 == (Selectors { code_selector: 8, tss_selector: 16 }),
{
    let mut gdt = gdt_new();
    let code_selector = gdt_add_entry(&mut gdt, kernel_code_segment());
    let tss_selector = gdt_add_entry(&mut gdt, tss_segment(tss));
    (gdt, Selectors { code_selector, tss_selector })
}

/// One step of installing the descriptor tables in the processor.
#[derive(Clone, Copy, Debug, PartialEq, Eq, Structural)]
pub enum TableLoad {
    /// Point the processor's descriptor-table register at the table.
    LoadGdt,
    /// Reload the code segment register with this selector.
    SetCodeSegment(u16),
    /// Load the task register with this selector.
    LoadTaskRegister(u16),
}

/// The steps that install the tables, in the order in which they must be
/// taken: the table first, since a selector means nothing before the table
/// that it points into is in place, then the code segment, then the task
/// register.
pub fn init(selectors: Selectors) -> (steps: [TableLoad; 3])
    ensures
        steps@ == seq![
            TableLoad::LoadGdt,
            TableLoad::SetCodeSegment(selectors.code_selector),
            TableLoad::LoadTaskRegister(selectors.tss_selector),
        ],
{
    let steps = [
        TableLoad::LoadGdt,
        TableLoad::SetCodeSegment(selectors.code_selector),
        TableLoad::LoadTaskRegister(selectors.tss_selector),
    ];
    assert(steps@ =~= seq![
        TableLoad::LoadGdt,
        TableLoad::SetCodeSegment(selectors.code_selector),
        TableLoad::LoadTaskRegister(selectors.tss_selector),
    ]);
    steps
}

} // verus!
