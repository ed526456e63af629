//! The core of a small 64-bit kernel: descriptor tables, interrupt
//! dispatch, physical frame allocation, heap set-up and the heap allocator,
//! with their behaviour stated in contracts.

use vstd::prelude::*;

pub mod allocator;
pub mod gdt;
pub mod interrupts;
pub mod memory;
pub mod vga_buffer;

verus! {

/// One step of getting the kernel ready to take a fault or an interrupt.
pub enum InitStep {
    /// Take this step of installing the descriptor tables.
    Tables(gdt::TableLoad),
    /// Load the interrupt descriptor table with these entries.
    Interrupts(interrupts::InterruptTable),
}

/// What has to be installed before the kernel can take a fault or an
/// interrupt, in the order in which it must be done: the descriptor tables
/// first, step by step, and the interrupt descriptor table last, since its
/// entry for double faults names a stack that only the loaded tables give.
pub fn init(selectors: gdt::Selectors) -> (steps: [InitStep; 4])
    ensures
        steps@[0] == InitStep::Tables(gdt::TableLoad::LoadGdt),
        steps@[1] == InitStep::Tables(gdt::TableLoad::SetCodeSegment(selectors.code_selector)),
        steps@[2] == InitStep::Tables(gdt::TableLoad::LoadTaskRegister(selectors.tss_selector)),
        steps@[3] matches InitStep::Interrupts(idt) && idt@.len() == interrupts::IDT_ENTRIES
            && forall|vector: int|
            0 <= vector < interrupts::IDT_ENTRIES ==> #[trigger] idt@[vector]
                == interrupts::registered(vector),
{
    let loads = gdt::init(selectors);
    let idt = interrupts::init_idt();
    [
        InitStep::Tables(loads[0]),
        InitStep::Tables(loads[1]),
        InitStep::Tables(loads[2]),
        InitStep::Interrupts(idt),
    ]
}

/// Something that can be run as a test.
pub trait Testable {
    /// Runs the test. A test that fails does not come back.
    fn run(&self);
}

/// The I/O port through which the kernel leaves the emulator.
pub const QEMU_EXIT_PORT: u16 = 0xf4;

/// How a run of the tests ended, as the emulator is told when the kernel
/// leaves it.
#[derive(Debug, Clone, Copy, PartialEq, Eq, Structural)]
pub enum QemuExitCode {
    /// Every test has passed.
    Success,
    /// A test has failed.
    Failed,
}

impl QemuExitCode {
    /// The number that is written to the emulator's exit port.
    pub open spec fn number(self) -> u32 {
        match self {
            QemuExitCode::Success => 0x10,
            QemuExitCode::Failed => 0x11,
        }
    }

    /// The number that is written to the emulator's exit port.
    pub fn as_u32(self) -> (number: u32)
        ensures
            number == self.number(),
    {
        match self {
            QemuExitCode::Success => 0x10,
            QemuExitCode::Failed => 0x11,
        }
    }
}

/// What a run of the tests has come to.
#[derive(Debug, Clone, Copy, PartialEq, Eq, Structural)]
pub struct TestReport {
    /// The number of tests that were run.
    pub tests_run: usize,
    /// The exit code to leave the emulator with.
    pub exit_code: QemuExitCode,
}

/// Runs every test, first to last. A test that fails does not come back, so
/// the report is that of a run in which every test has passed.
pub fn test_runner(tests: &[&dyn Testable]) -> (report: TestReport)
    ensures
        report == (TestReport { tests_run: tests@.len() as usize, exit_code: QemuExitCode::Success }),
{
    let mut i: usize = 0;
    while i < tests.len()
        invariant
            i <= tests.len(),
        decreases tests.len() - i,
    {
        tests[i].run();
        i = i + 1;
    }
    TestReport { tests_run: i, exit_code: QemuExitCode::Success }
}

} // verus!
