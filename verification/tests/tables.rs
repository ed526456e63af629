use cloudos::gdt::{
    init, init_gdt, init_tss, Selectors, TableLoad, DOUBLE_FAULT_IST_INDEX, KERNEL_CODE_SEGMENT,
    STACK_SIZE, TSS_ACCESS, TSS_LIMIT,
};
use x86_64::structures::gdt::{Descriptor, DescriptorFlags, SegmentSelector};
use x86_64::structures::tss::TaskStateSegment;
use x86_64::{PrivilegeLevel, VirtAddr};

fn leaked(tss: TaskStateSegment) -> &'static TaskStateSegment {
    Box::leak(Box::new(tss))
}

#[test]
fn table_constants() {
    assert_eq!(DOUBLE_FAULT_IST_INDEX, 0);
    assert_eq!(STACK_SIZE, 20 * 1024);
    assert_eq!(KERNEL_CODE_SEGMENT, DescriptorFlags::KERNEL_CODE64.bits());
}

#[test]
fn the_tss_names_the_end_of_the_double_fault_stack() {
    let tss = init_tss(0x20_0000);
    let stacks = tss.interrupt_stack_table;
    assert_eq!(stacks[0], VirtAddr::new(0x20_0000 + 4096 * 5));
    for i in 1..7 {
        assert_eq!(stacks[i], VirtAddr::new(0));
    }
    let privilege_stacks = tss.privilege_stack_table;
    assert_eq!(privilege_stacks, [VirtAddr::new(0); 3]);
}

#[test]
fn the_tss_takes_a_stack_in_the_upper_half() {
    let tss = init_tss(0xffff_8000_0000_0000);
    let stacks = tss.interrupt_stack_table;
    assert_eq!(stacks[0].as_u64(), 0xffff_8000_0000_5000);
}

#[test]
fn the_gdt_holds_the_code_segment_and_the_tss() {
    let tss = leaked(init_tss(0x20_0000));
    let (gdt, selectors) = init_gdt(tss);
    assert_eq!(selectors, Selectors { code_selector: 8, tss_selector: 16 });
    assert_eq!(SegmentSelector(selectors.code_selector), SegmentSelector::new(1, PrivilegeLevel::Ring0));
    assert_eq!(SegmentSelector(selectors.tss_selector), SegmentSelector::new(2, PrivilegeLevel::Ring0));
    let words = gdt.as_raw_slice();
    assert_eq!(words.len(), 4);
    assert_eq!(words[0], 0);
    assert_eq!(words[1], 0x00af_9b00_0000_ffff);
    match Descriptor::tss_segment(tss) {
        Descriptor::SystemSegment(low, high) => {
            assert_eq!(words[2], low);
            assert_eq!(words[3], high);
            assert_eq!((low >> 45) & 3, 0);
        }
        Descriptor::UserSegment(_) => panic!("a TSS descriptor is a system segment"),
    }
}

#[test]
fn the_tables_are_loaded_before_the_selectors() {
    let steps = init(Selectors { code_selector: 8, tss_selector: 16 });
    assert_eq!(
        steps,
        [TableLoad::LoadGdt, TableLoad::SetCodeSegment(8), TableLoad::LoadTaskRegister(16)]
    );
}

#[test]
fn the_tss_descriptor_has_its_fixed_bits() {
    let tss = leaked(init_tss(0x30_0000));
    let (gdt, _) = init_gdt(tss);
    let words = gdt.as_raw_slice();
    assert_eq!(words[2] % 0x1_0000, TSS_LIMIT);
    assert_eq!((words[2] >> 40) & 0xffff, TSS_ACCESS);
    assert!(words[3] < 0x1_0000_0000);
    assert_eq!(TSS_LIMIT, 0x67);
    assert_eq!(TSS_ACCESS, 0x89);
    let address = VirtAddr::from_ptr(tss).as_u64();
    let base = ((words[2] >> 16) & 0xff_ffff) | ((words[2] >> 56) << 24) | (words[3] << 32);
    assert_eq!(base, address);
}
