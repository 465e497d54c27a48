//! The global descriptor table of the kernel and the selectors into it.

use vstd::prelude::*;
use x86_64::structures::gdt::GlobalDescriptorTable;
use x86_64::structures::tss::TaskStateSegment;
use crate::descriptor::{
    kernel_code_segment, kernel_data_segment, lemma_tss_descriptor_is_of_its_base, tss_descriptor,
    Descriptor, KERNEL_CODE64, KERNEL_DATA,
};
use crate::selector::{SegmentSelector, Selectors};

verus! {

/// Number of slots of a global descriptor table, the null slot included.
pub const GDT_CAPACITY: usize = 8;

/// Number of descriptors that the kernel's table holds.
pub const KERNEL_DESCRIPTORS: usize = 3;

/// Number of slots that the kernel's table uses: the null slot, one slot each
/// for the code and the data segment, two for the task state segment.
pub const KERNEL_SLOTS: usize = 5;

/// The global descriptor table of x86_64, carried as an opaque value.
#[verifier::external_type_specification]
#[verifier::external_body]
pub struct ExGlobalDescriptorTable(GlobalDescriptorTable);

/// The slots of a table that are in use, slot 0 first. A user segment fills one
/// slot, a system segment two.
pub uninterp spec fn table_slots(table: GlobalDescriptorTable) -> Seq<u64>;

/// `GlobalDescriptorTable::new` of x86_64: a table whose only slot in use is
/// the null descriptor in slot 0.
#[verifier::external_body]
fn new_table() -> (table: GlobalDescriptorTable)
    ensures
        table_slots(table) == seq![0u64],
{
    GlobalDescriptorTable::new()
}

/// `GlobalDescriptorTable::add_entry` of x86_64, which panics when the
/// descriptor's words do not fit in the eight slots. It writes the words into
/// the first free slots and returns the selector of the first of them, with the
/// descriptor's own privilege level as the requested one.
#[verifier::external_body]
fn add_entry(table: &mut GlobalDescriptorTable, entry: Descriptor) -> (selector: SegmentSelector)
    requires
        table_slots(*old(table)).len() + entry.words().len() <= GDT_CAPACITY,
    ensures
        table_slots(*final(table)) == table_slots(*old(table)) + entry.words(),
        selector == SegmentSelector::encode(
            table_slots(*old(table)).len() as int,
            entry.privilege(),
        ),
{
    let selector = table.add_entry(
        match entry {
            Descriptor::UserSegment(bits) => x86_64::structures::gdt::Descriptor::UserSegment(bits),
            Descriptor::SystemSegment(low, high) => {
                x86_64::structures::gdt::Descriptor::SystemSegment(low, high)
            },
        },
    );
    SegmentSelector(selector.0)
}

/// One element of `GlobalDescriptorTable::as_raw_slice` of x86_64, the slice of
/// the slots in use.
#[verifier::external_body]
fn read_slot(table: &GlobalDescriptorTable, slot: usize) -> (word: u64)
    requires
        slot < table_slots(*table).len(),
    ensures
        word == table_slots(*table)[slot as int],
{
    table.as_raw_slice()[slot]
}

/// The selectors of the kernel's table: the code segment in slot 1, the data
/// segment in slot 2, the task state segment in slots 3 and 4, all at
/// privilege level 0.
pub open spec fn kernel_selectors() -> Selectors {
    Selectors {
        code_selector: SegmentSelector(0x08),
        data_selector: SegmentSelector(0x10),
        tss_selector: SegmentSelector(0x18),
    }
}

/// The slots of the kernel's table when its task state segment descriptor is
/// `tss`: the null descriptor, the code segment, the data segment, then the two
/// words of `tss`.
pub open spec fn kernel_table_image(tss: Descriptor) -> Seq<u64> {
    seq![0u64, KERNEL_CODE64, KERNEL_DATA] + tss.words()
}

/// The slot in which descriptor number `position` of `entries` starts, when
/// the descriptors follow the null slot in order.
pub open spec fn slot_of(entries: Seq<Descriptor>, position: int) -> int
    decreases position,
{
    if position <= 0 {
        1
    } else {
        slot_of(entries, position - 1) + entries[position - 1].words().len()
    }
}

/// The position, in append order, of the descriptor of `entries` that starts
/// in slot `slot`; `None` where no descriptor starts there.
pub open spec fn position_in(entries: Seq<Descriptor>, slot: int) -> Option<int> {
    if exists|position: int| 0 <= position < entries.len() && slot_of(entries, position) == slot {
        Some(
            choose|position: int|
                0 <= position < entries.len() && slot_of(entries, position) == slot,
        )
    } else {
        None
    }
}

/// Whether `selector` names, in a table with the slots `image`, the slots that
/// hold `descriptor`.
pub open spec fn refers_to(image: Seq<u64>, selector: SegmentSelector, descriptor: Descriptor) -> bool {
    &&& 0 < selector.slot()
    &&& selector.slot() + descriptor.words().len() <= image.len()
    &&& image.subrange(selector.slot(), selector.slot() + descriptor.words().len())
        == descriptor.words()
}

/// The kernel's descriptor table together with the selectors that were captured
/// while it was assembled. The two cannot be taken apart or changed, so a
/// selector always names a descriptor of this very table.
pub struct KernelGdt {
    table: GlobalDescriptorTable,
    selectors: Selectors,
}

impl View for KernelGdt {
    type V = Seq<u64>;

    /// The slots of the table that are in use.
    closed spec fn view(&self) -> Seq<u64> {
        table_slots(self.table)
    }
}

impl KernelGdt {
    /// The selectors that were captured.
    pub closed spec fn captured(&self) -> Selectors {
        self.selectors
    }

    /// The descriptors of the table in the order in which they were appended.
    pub open spec fn entries(&self) -> Seq<Descriptor> {
        seq![
            Descriptor::UserSegment(self@[1]),
            Descriptor::UserSegment(self@[2]),
            Descriptor::SystemSegment(self@[3], self@[4]),
        ]
    }

    /// What holds of every table of this type: it is the null slot followed by
    /// the code segment, the data segment and a task state segment descriptor,
    /// and the selectors are those of that layout.
    pub open spec fn wf(&self) -> bool {
        &&& self@.len() == KERNEL_SLOTS
        &&& self.entries()[2].is_tss()
        &&& self@ == kernel_table_image(self.entries()[2])
        &&& self.captured() == kernel_selectors()
    }

    #[verifier::type_invariant]
    spec fn inv(&self) -> bool {
        self.wf()
    }

    /// The table itself, to be handed to the processor.
    pub fn table(&self) -> (table: &GlobalDescriptorTable)
        ensures
            table_slots(*table) == self@,
            self.wf(),
    {
        proof {
            use_type_invariant(self);
        }
        &self.table
    }

    /// The selectors of the code segment, the data segment and the task state
    /// segment.
    pub fn selectors(&self) -> (selectors: Selectors)
        ensures
            selectors == self.captured(),
            selectors == kernel_selectors(),
            self.wf(),
    {
        proof {
            use_type_invariant(self);
        }
        self.selectors
    }

    /// The slots of the table that are in use, slot 0 first.
    pub fn slots(&self) -> (slots: [u64; KERNEL_SLOTS])
        ensures
            slots@ == self@,
            self.wf(),
    {
        proof {
            use_type_invariant(self);
        }
        let slots = [
            read_slot(&self.table, 0),
            read_slot(&self.table, 1),
            read_slot(&self.table, 2),
            read_slot(&self.table, 3),
            read_slot(&self.table, 4),
        ];
        assert(slots@ =~= self@);
        slots
    }

    /// The position, in append order, of the descriptor that `selector` names
    /// in this table; `None` for a selector into the local table, and for one
    /// of a slot in which no descriptor of this table starts.
    pub open spec fn position_of(&self, selector: SegmentSelector) -> Option<int> {
        if selector.is_local() {
            None
        } else {
            position_in(self.entries(), selector.slot())
        }
    }

    /// The position, in append order, of the descriptor that `selector` names
    /// in this table: 0 for the code segment, 1 for the data segment, 2 for the
    /// task state segment. `None` for a selector into the local table, and for
    /// one of a slot in which no descriptor of this table starts.
    pub fn position(&self, selector: SegmentSelector) -> (position: Option<usize>)
        ensures
            self.wf(),
            position is Some <==> !selector.is_local() && 1 <= selector.slot()
                <= KERNEL_DESCRIPTORS,
            position matches Some(found) ==> found + 1 == selector.slot() && self.position_of(
                selector,
            ) == Some(found as int),
            position is None ==> self.position_of(selector) is None,
    {
        proof {
            use_type_invariant(self);
            lemma_kernel_slots(self.entries());
        }
        if selector.in_local_table() {
            return None;
        }
        let slot: u16 = selector.index();
        if 1 <= slot && slot <= 3 {
            let found: usize = (slot - 1) as usize;
            assert(slot_of(self.entries(), found as int) == slot);
            Some(found)
        } else {
            None
        }
    }

    /// The descriptors of the table in the order in which they were appended:
    /// code segment, data segment, task state segment.
    pub fn descriptors(&self) -> (descriptors: [Descriptor; KERNEL_DESCRIPTORS])
        ensures
            descriptors@ == self.entries(),
            descriptors@[0] == Descriptor::UserSegment(KERNEL_CODE64),
            descriptors@[1] == Descriptor::UserSegment(KERNEL_DATA),
            descriptors@[2].is_tss(),
            self.wf(),
    {
        proof {
            use_type_invariant(self);
        }
        let descriptors = [
            Descriptor::UserSegment(read_slot(&self.table, 1)),
            Descriptor::UserSegment(read_slot(&self.table, 2)),
            Descriptor::SystemSegment(read_slot(&self.table, 3), read_slot(&self.table, 4)),
        ];
        assert(descriptors@ =~= self.entries());
        descriptors
    }
}

/// Assembles the kernel's table around the task state segment descriptor
/// `tss`: appends the code segment, the data segment and `tss`, in that order,
/// and captures the selector of each.
pub fn assemble_gdt(tss: Descriptor) -> (gdt: KernelGdt)
    requires
        tss.is_tss(),
    ensures
        gdt.wf(),
        gdt@ == kernel_table_image(tss),
        gdt.entries() == seq![
            Descriptor::UserSegment(KERNEL_CODE64),
            Descriptor::UserSegment(KERNEL_DATA),
            tss,
        ],
        gdt.captured() == kernel_selectors(),
{
    let mut table = new_table();
    let code_selector = add_entry(&mut table, kernel_code_segment());
    let data_selector = add_entry(&mut table, kernel_data_segment());
    proof {
        lemma_tss_descriptor_is_of_its_base(tss);
    }
    let tss_selector = add_entry(&mut table, tss);
    let selectors = Selectors { code_selector, data_selector, tss_selector };
    proof {
        let image = table_slots(table);
        assert(image =~= kernel_table_image(tss));
        assert(Descriptor::SystemSegment(image[3], image[4]) == tss);
        assert(selectors == kernel_selectors());
    }
    let gdt = KernelGdt { table, selectors };
    assert(gdt.entries() =~= seq![
        Descriptor::UserSegment(KERNEL_CODE64),
        Descriptor::UserSegment(KERNEL_DATA),
        tss,
    ]);
    gdt
}

/// Builds the kernel's table for the task state segment `tss`.
pub fn build_gdt(tss: &'static TaskStateSegment) -> (gdt: KernelGdt)
    ensures
        gdt.wf(),
        gdt.captured() == kernel_selectors(),
        gdt.entries()[0] == Descriptor::UserSegment(KERNEL_CODE64),
        gdt.entries()[1] == Descriptor::UserSegment(KERNEL_DATA),
        gdt.entries()[2].is_tss(),
{
    assemble_gdt(tss_descriptor(tss))
}

/// Where two single-slot descriptors are followed by a third descriptor, the
/// three start in slots 1, 2 and 3, and no descriptor starts in any other slot.
pub proof fn lemma_kernel_slots(entries: Seq<Descriptor>)
    requires
        entries.len() == KERNEL_DESCRIPTORS,
        entries[0] is UserSegment,
        entries[1] is UserSegment,
    ensures
        slot_of(entries, 0) == 1,
        slot_of(entries, 1) == 2,
        slot_of(entries, 2) == 3,
        position_in(entries, 1) == Some(0int),
        position_in(entries, 2) == Some(1int),
        position_in(entries, 3) == Some(2int),
        forall|slot: int| slot < 1 || slot > 3 ==> position_in(entries, slot) is None,
{
    reveal_with_fuel(slot_of, 3);
    assert(slot_of(entries, 0) == 1 && slot_of(entries, 1) == 2 && slot_of(entries, 2) == 3);
    assert forall|position: int| 0 <= position < entries.len() implies #[trigger] slot_of(
        entries,
        position,
    ) == position + 1 by {
        if position == 0 {
        } else if position == 1 {
        } else {
            assert(position == 2);
        }
    }
}

/// In every table of the kernel the descriptors stand in the order code, data,
/// task state segment, and each captured selector names, at privilege level 0
/// and in the global table, the slots of the descriptor that it was captured
/// for: the slot that follows the slots of the descriptors appended before it.
pub proof fn lemma_selectors_follow_append_order(gdt: KernelGdt)
    requires
        gdt.wf(),
    ensures
        gdt.entries().len() == KERNEL_DESCRIPTORS,
        gdt.entries()[0] == Descriptor::UserSegment(KERNEL_CODE64),
        gdt.entries()[1] == Descriptor::UserSegment(KERNEL_DATA),
        gdt.entries()[2].is_tss(),
        gdt.captured().code_selector.slot() == slot_of(gdt.entries(), 0) == 1,
        gdt.captured().data_selector.slot() == slot_of(gdt.entries(), 1) == 2,
        gdt.captured().tss_selector.slot() == slot_of(gdt.entries(), 2) == 3,
        gdt.position_of(gdt.captured().code_selector) == Some(0int),
        gdt.position_of(gdt.captured().data_selector) == Some(1int),
        gdt.position_of(gdt.captured().tss_selector) == Some(2int),
        refers_to(gdt@, gdt.captured().code_selector, gdt.entries()[0]),
        refers_to(gdt@, gdt.captured().data_selector, gdt.entries()[1]),
        refers_to(gdt@, gdt.captured().tss_selector, gdt.entries()[2]),
        gdt.captured().code_selector.privilege() == 0 && !gdt.captured().code_selector.is_local(),
        gdt.captured().data_selector.privilege() == 0 && !gdt.captured().data_selector.is_local(),
        gdt.captured().tss_selector.privilege() == 0 && !gdt.captured().tss_selector.is_local(),
{
    let image = gdt@;
    let entries = gdt.entries();
    lemma_kernel_slots(entries);
    assert(image.subrange(1, 2) =~= entries[0].words());
    assert(image.subrange(2, 3) =~= entries[1].words());
    assert(image.subrange(3, 5) =~= entries[2].words());
}

/// Any two tables of the kernel carry the same selectors and agree in the null
/// slot, the code segment and the data segment. They differ at most in the
/// base address of the task state segment, and are equal where that agrees.
pub proof fn lemma_kernel_tables_agree(first: KernelGdt, second: KernelGdt)
    requires
        first.wf(),
        second.wf(),
    ensures
        first.captured() == second.captured(),
        first@.len() == second@.len(),
        first@.subrange(0, 3) == second@.subrange(0, 3),
        first.entries()[2].base() == second.entries()[2].base() ==> first@ == second@,
{
    assert(first@.subrange(0, 3) =~= second@.subrange(0, 3));
    if first.entries()[2].base() == second.entries()[2].base() {
        lemma_tss_descriptor_is_of_its_base(first.entries()[2]);
        lemma_tss_descriptor_is_of_its_base(second.entries()[2]);
        assert(first@ =~= second@);
    }
}

} // verus!
