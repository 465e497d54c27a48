use gdt::activation::{init, ActivationStep};
use gdt::address::is_canonical_address;
use gdt::descriptor::{kernel_code_segment, kernel_data_segment, tss_descriptor, Descriptor};
use gdt::selector::{SegmentSelector, Selectors};
use gdt::stack::{exception_stack_top, stack_fits, DOUBLE_FAULT_IST_INDEX, STACK_SIZE};
use gdt::table::{assemble_gdt, build_gdt, KernelGdt};
use gdt::tss::{build_tss, interrupt_stack, IST_SLOTS};
use x86_64::structures::gdt::{DescriptorFlags, GlobalDescriptorTable};
use x86_64::structures::tss::TaskStateSegment;
use x86_64::VirtAddr;

const STACK_START: u64 = 0x0000_4444_0000_1000;

fn leaked_tss(stack_start: u64) -> &'static TaskStateSegment {
    Box::leak(Box::new(build_tss(stack_start)))
}

fn built_table() -> (&'static TaskStateSegment, KernelGdt) {
    let tss = leaked_tss(STACK_START);
    (tss, build_gdt(tss))
}

fn expected_tss_words(tss: &'static TaskStateSegment) -> (u64, u64) {
    let base = VirtAddr::from_ptr(tss).as_u64();
    let low = 0x0000_8900_0000_0067 | ((base & 0xff_ffff) << 16) | (((base >> 24) & 0xff) << 56);
    (low, base >> 32)
}

/// Records what an activation does to the segment registers, and refuses a
/// load that comes before the loads it depends on.
#[derive(Debug, Default, PartialEq, Eq)]
struct RecordingCpu {
    table_loads: usize,
    cs: Option<u16>,
    ds: Option<u16>,
    es: Option<u16>,
    ss: Option<u16>,
    tr: Option<u16>,
}

impl RecordingCpu {
    fn perform(&mut self, step: ActivationStep) {
        match step {
            ActivationStep::LoadTable => {
                assert!(self.cs.is_none(), "table loaded after the code segment");
                self.table_loads += 1;
            }
            ActivationStep::SetCodeSegment(selector) => {
                assert_eq!(self.table_loads, 1, "code segment reloaded before the table");
                assert!(self.ds.is_none() && self.es.is_none() && self.ss.is_none());
                assert!(self.cs.is_none());
                self.cs = Some(selector.0);
            }
            ActivationStep::LoadDataSegment(selector) => {
                assert!(self.cs.is_some(), "data segment loaded before the code segment");
                self.ds = Some(selector.0);
            }
            ActivationStep::LoadExtraSegment(selector) => {
                assert!(self.cs.is_some(), "extra segment loaded before the code segment");
                self.es = Some(selector.0);
            }
            ActivationStep::LoadStackSegment(selector) => {
                assert!(self.cs.is_some(), "stack segment loaded before the code segment");
                self.ss = Some(selector.0);
            }
            ActivationStep::LoadTaskRegister(selector) => {
                assert!(self.ds.is_some() && self.es.is_some() && self.ss.is_some());
                assert!(self.tr.is_none());
                self.tr = Some(selector.0);
            }
        }
    }
}

#[test]
fn canonical_addresses_are_the_two_halves() {
    assert!(is_canonical_address(0));
    assert!(is_canonical_address(0x0000_7fff_ffff_ffff));
    assert!(!is_canonical_address(0x0000_8000_0000_0000));
    assert!(!is_canonical_address(0xffff_7fff_ffff_ffff));
    assert!(is_canonical_address(0xffff_8000_0000_0000));
    assert!(is_canonical_address(u64::MAX));
}

#[test]
fn stack_size_is_twenty_kib() {
    assert_eq!(STACK_SIZE, 20480);
    assert_eq!(STACK_SIZE, 4096 * 5);
    assert_eq!(DOUBLE_FAULT_IST_INDEX, 0);
}

#[test]
fn stack_top_is_start_plus_size() {
    assert_eq!(exception_stack_top(0x1000), 0x6000);
    assert_eq!(exception_stack_top(STACK_START), STACK_START + 20480);
    assert_eq!(exception_stack_top(0), 20480);
    assert_eq!(
        exception_stack_top(0xffff_8000_0000_0000),
        0xffff_8000_0000_5000
    );
}

#[test]
fn stack_top_at_the_edges_of_the_halves() {
    assert_eq!(
        exception_stack_top(0x0000_7fff_ffff_afff),
        0x0000_7fff_ffff_ffff
    );
    assert_eq!(exception_stack_top(0xffff_ffff_ffff_afff), u64::MAX);
}

#[test]
fn stack_fits_only_inside_one_half() {
    assert!(stack_fits(0));
    assert!(stack_fits(STACK_START));
    assert!(stack_fits(0x0000_7fff_ffff_afff));
    assert!(!stack_fits(0x0000_7fff_ffff_b000));
    assert!(!stack_fits(0x0000_8000_0000_0000));
    assert!(!stack_fits(0xffff_7fff_ffff_ffff));
    assert!(stack_fits(0xffff_8000_0000_0000));
    assert!(stack_fits(0xffff_ffff_ffff_afff));
    assert!(!stack_fits(0xffff_ffff_ffff_b000));
    assert!(!stack_fits(u64::MAX));
}

#[test]
fn stack_top_keeps_the_alignment_of_the_start() {
    assert_eq!(exception_stack_top(0x2000) % 16, 0);
    assert_eq!(exception_stack_top(0x2010) % 16, 0);
    assert_eq!(exception_stack_top(0x2001) % 16, 1);
    assert_eq!(exception_stack_top(0x200f) % 16, 15);
}

#[test]
fn double_fault_slot_holds_the_stack_top() {
    let tss = build_tss(STACK_START);
    assert_eq!(interrupt_stack(&tss, 0), Some(STACK_START + 20480));
    assert_eq!(interrupt_stack(&tss, 0), Some(0x0000_4444_0000_6000));
    let table = tss.interrupt_stack_table;
    assert_eq!(table[DOUBLE_FAULT_IST_INDEX as usize].as_u64(), STACK_START + 20480);
}

#[test]
fn other_interrupt_stacks_stay_unset() {
    let tss = build_tss(STACK_START);
    for slot in 1..IST_SLOTS {
        assert_eq!(interrupt_stack(&tss, slot), Some(0));
    }
    let table = tss.interrupt_stack_table;
    for slot in 1..7 {
        assert_eq!(table[slot].as_u64(), 0);
    }
    let privileged = tss.privilege_stack_table;
    for slot in 0..3 {
        assert_eq!(privileged[slot].as_u64(), 0);
    }
}

#[test]
fn interrupt_stack_table_has_seven_slots() {
    let tss = build_tss(STACK_START);
    assert_eq!(IST_SLOTS, 7);
    assert_eq!(interrupt_stack(&tss, 6), Some(0));
    assert_eq!(interrupt_stack(&tss, 7), None);
    assert_eq!(interrupt_stack(&tss, usize::MAX), None);
}

#[test]
fn repeated_reads_of_the_tss_agree() {
    let tss = leaked_tss(STACK_START);
    let first = interrupt_stack(tss, 0);
    let second = interrupt_stack(tss, 0);
    assert_eq!(first, second);
    let again = build_tss(STACK_START);
    for slot in 0..IST_SLOTS {
        assert_eq!(interrupt_stack(tss, slot), interrupt_stack(&again, slot));
    }
}

#[test]
fn kernel_data_segment_has_the_four_flags() {
    assert_eq!(
        kernel_data_segment(),
        Descriptor::UserSegment(0x0020_9200_0000_0000)
    );
    let flags = DescriptorFlags::USER_SEGMENT
        | DescriptorFlags::PRESENT
        | DescriptorFlags::WRITABLE
        | DescriptorFlags::LONG_MODE;
    assert_eq!(kernel_data_segment(), Descriptor::UserSegment(flags.bits()));
    assert_eq!(kernel_data_segment().dpl(), 0);
    assert!(!kernel_data_segment().is_tss_descriptor());
}

#[test]
fn kernel_code_segment_is_the_long_mode_one() {
    assert_eq!(
        kernel_code_segment(),
        Descriptor::UserSegment(0x00af_9b00_0000_ffff)
    );
    assert_eq!(
        kernel_code_segment(),
        Descriptor::UserSegment(DescriptorFlags::KERNEL_CODE64.bits())
    );
    assert_eq!(kernel_code_segment().dpl(), 0);
}

#[test]
fn descriptor_privilege_level_is_bits_45_and_46() {
    assert_eq!(Descriptor::UserSegment(0x00af_fb00_0000_ffff).dpl(), 3);
    assert_eq!(Descriptor::UserSegment(0x0000_2000_0000_0000).dpl(), 1);
    assert_eq!(Descriptor::SystemSegment(0x0000_4000_0000_0000, 0).dpl(), 2);
    assert_eq!(Descriptor::SystemSegment(0x0000_8900_0000_0067, 7).dpl(), 0);
}

#[test]
fn tss_descriptor_encodes_the_address_of_the_tss() {
    let tss = leaked_tss(STACK_START);
    let (low, high) = expected_tss_words(tss);
    let descriptor = tss_descriptor(tss);
    assert_eq!(descriptor, Descriptor::SystemSegment(low, high));
    assert!(descriptor.is_tss_descriptor());
    assert_eq!(descriptor.dpl(), 0);
}

#[test]
fn tss_descriptors_are_told_apart() {
    assert!(Descriptor::SystemSegment(0x0000_8900_0000_0067, 0).is_tss_descriptor());
    assert!(Descriptor::SystemSegment(0x1200_8934_5678_0067, 0xffff_ffff).is_tss_descriptor());
    assert!(!Descriptor::SystemSegment(0x0000_8900_0000_0067, 0x1_0000_0000).is_tss_descriptor());
    assert!(!Descriptor::SystemSegment(0x0000_8900_0000_0068, 0).is_tss_descriptor());
    assert!(!Descriptor::SystemSegment(0x0000_0900_0000_0067, 0).is_tss_descriptor());
    assert!(!Descriptor::SystemSegment(0x0000_8b00_0000_0067, 0).is_tss_descriptor());
    assert!(!Descriptor::SystemSegment(0, 0).is_tss_descriptor());
    assert!(!Descriptor::UserSegment(0x0000_8900_0000_0067).is_tss_descriptor());
}

#[test]
fn selectors_decode_into_slot_privilege_and_table() {
    assert_eq!(SegmentSelector(0x08).index(), 1);
    assert_eq!(SegmentSelector(0x10).index(), 2);
    assert_eq!(SegmentSelector(0x18).index(), 3);
    assert_eq!(SegmentSelector(0x1b).index(), 3);
    assert_eq!(SegmentSelector(0x1b).rpl(), 3);
    assert_eq!(SegmentSelector(0x18).rpl(), 0);
    assert!(!SegmentSelector(0x18).in_local_table());
    assert!(SegmentSelector(0x1c).in_local_table());
    assert_eq!(SegmentSelector(0xffff).index(), 8191);
    assert_eq!(SegmentSelector(0).index(), 0);
}

#[test]
fn built_table_has_the_standard_selectors() {
    let (_, gdt) = built_table();
    let selectors = gdt.selectors();
    assert_eq!(selectors.code_selector, SegmentSelector(0x08));
    assert_eq!(selectors.data_selector, SegmentSelector(0x10));
    assert_eq!(selectors.tss_selector, SegmentSelector(0x18));
    assert_eq!(
        selectors,
        Selectors {
            code_selector: SegmentSelector(0x08),
            data_selector: SegmentSelector(0x10),
            tss_selector: SegmentSelector(0x18),
        }
    );
}

#[test]
fn descriptors_stand_in_append_order() {
    let (tss, gdt) = built_table();
    let (low, high) = expected_tss_words(tss);
    assert_eq!(
        gdt.descriptors(),
        [
            Descriptor::UserSegment(0x00af_9b00_0000_ffff),
            Descriptor::UserSegment(0x0020_9200_0000_0000),
            Descriptor::SystemSegment(low, high),
        ]
    );
    assert_eq!(
        gdt.slots(),
        [0, 0x00af_9b00_0000_ffff, 0x0020_9200_0000_0000, low, high]
    );
}

#[test]
fn selectors_name_the_slots_of_their_descriptors() {
    let (_, gdt) = built_table();
    let selectors = gdt.selectors();
    let slots = gdt.slots();
    let descriptors = gdt.descriptors();
    assert_eq!(selectors.code_selector.index(), 1);
    assert_eq!(selectors.data_selector.index(), 2);
    assert_eq!(selectors.tss_selector.index(), 3);
    let code = selectors.code_selector.index() as usize;
    let data = selectors.data_selector.index() as usize;
    let task = selectors.tss_selector.index() as usize;
    assert_eq!(Descriptor::UserSegment(slots[code]), descriptors[0]);
    assert_eq!(Descriptor::UserSegment(slots[data]), descriptors[1]);
    assert_eq!(Descriptor::SystemSegment(slots[task], slots[task + 1]), descriptors[2]);
    for selector in [selectors.code_selector, selectors.data_selector, selectors.tss_selector] {
        assert_eq!(selector.rpl(), 0);
        assert!(!selector.in_local_table());
    }
}

#[test]
fn table_matches_one_filled_by_hand() {
    let (tss, gdt) = built_table();
    let mut by_hand = GlobalDescriptorTable::new();
    let code = by_hand.add_entry(x86_64::structures::gdt::Descriptor::kernel_code_segment());
    let data = by_hand.add_entry(x86_64::structures::gdt::Descriptor::UserSegment(
        0x0020_9200_0000_0000,
    ));
    let task = by_hand.add_entry(x86_64::structures::gdt::Descriptor::tss_segment(tss));
    assert_eq!(gdt.table().as_raw_slice(), by_hand.as_raw_slice());
    assert_eq!(gdt.slots().as_slice(), by_hand.as_raw_slice());
    assert_eq!(by_hand.as_raw_slice().len(), 5);
    assert_eq!(gdt.selectors().code_selector.0, code.0);
    assert_eq!(gdt.selectors().data_selector.0, data.0);
    assert_eq!(gdt.selectors().tss_selector.0, task.0);
}

#[test]
fn table_assembled_around_a_given_descriptor() {
    let descriptor = Descriptor::SystemSegment(0x1200_8934_5678_0067, 0x0000_ffff);
    assert!(descriptor.is_tss_descriptor());
    let gdt = assemble_gdt(descriptor);
    assert_eq!(
        gdt.slots(),
        [
            0,
            0x00af_9b00_0000_ffff,
            0x0020_9200_0000_0000,
            0x1200_8934_5678_0067,
            0x0000_ffff,
        ]
    );
    assert_eq!(gdt.descriptors()[2], descriptor);
    assert_eq!(gdt.selectors().code_selector.0, 0x08);
    assert_eq!(gdt.selectors().data_selector.0, 0x10);
    assert_eq!(gdt.selectors().tss_selector.0, 0x18);
}

#[test]
fn activation_lists_the_six_loads_in_order() {
    let (_, gdt) = built_table();
    assert_eq!(
        init(&gdt),
        [
            ActivationStep::LoadTable,
            ActivationStep::SetCodeSegment(SegmentSelector(0x08)),
            ActivationStep::LoadDataSegment(SegmentSelector(0x10)),
            ActivationStep::LoadExtraSegment(SegmentSelector(0x10)),
            ActivationStep::LoadStackSegment(SegmentSelector(0x10)),
            ActivationStep::LoadTaskRegister(SegmentSelector(0x18)),
        ]
    );
}

#[test]
fn activation_loads_the_table_before_any_segment() {
    let (_, gdt) = built_table();
    let mut cpu = RecordingCpu::default();
    for step in init(&gdt) {
        cpu.perform(step);
    }
    assert_eq!(
        cpu,
        RecordingCpu {
            table_loads: 1,
            cs: Some(0x08),
            ds: Some(0x10),
            es: Some(0x10),
            ss: Some(0x10),
            tr: Some(0x18),
        }
    );
}

#[test]
fn activating_twice_leaves_the_tables_alone() {
    let (tss, gdt) = built_table();
    let slots = gdt.slots();
    let first = init(&gdt);
    let second = init(&gdt);
    assert_eq!(first, second);
    assert_eq!(gdt.descriptors().len(), 3);
    assert_eq!(gdt.slots(), slots);
    assert_eq!(gdt.slots().len(), 5);
    assert_eq!(interrupt_stack(tss, 0), Some(STACK_START + 20480));
    assert_eq!(gdt.selectors().tss_selector, SegmentSelector(0x18));
}

#[test]
fn repeated_reads_of_the_table_agree() {
    let (_, gdt) = built_table();
    assert_eq!(gdt.selectors(), gdt.selectors());
    assert_eq!(gdt.slots(), gdt.slots());
    assert_eq!(gdt.descriptors(), gdt.descriptors());
    assert_eq!(gdt.table().as_raw_slice(), gdt.table().as_raw_slice());
}

#[test]
fn selectors_decode_to_positions_in_append_order() {
    let (_, gdt) = built_table();
    let selectors = gdt.selectors();
    assert_eq!(gdt.position(selectors.code_selector), Some(0));
    assert_eq!(gdt.position(selectors.data_selector), Some(1));
    assert_eq!(gdt.position(selectors.tss_selector), Some(2));
}

#[test]
fn selectors_of_no_descriptor_have_no_position() {
    let (_, gdt) = built_table();
    assert_eq!(gdt.position(SegmentSelector(0x00)), None);
    assert_eq!(gdt.position(SegmentSelector(0x20)), None);
    assert_eq!(gdt.position(SegmentSelector(0x28)), None);
    assert_eq!(gdt.position(SegmentSelector(0xfff8)), None);
    assert_eq!(gdt.position(SegmentSelector(0x0c)), None);
    assert_eq!(gdt.position(SegmentSelector(0x1c)), None);
    assert_eq!(gdt.position(SegmentSelector(0x1b)), Some(2));
}
