//! Segment descriptors and the flag bits that this crate sets in them.

use vstd::prelude::*;
use x86_64::structures::tss::TaskStateSegment;

verus! {

/// Bit 41: a data segment may be written.
pub const WRITABLE: u64 = 0x0000_0200_0000_0000;

/// Bit 43: the segment holds code.
pub const EXECUTABLE: u64 = 0x0000_0800_0000_0000;

/// Bit 44: a code or data segment, as opposed to a system segment. Kernel
/// segments carry it too: it tells the descriptor's shape, not its privilege.
pub const USER_SEGMENT: u64 = 0x0000_1000_0000_0000;

/// Bits 45 and 46: the descriptor privilege level.
pub const DPL_RING_3: u64 = 0x0000_6000_0000_0000;

/// Bit 47: the segment is present.
pub const PRESENT: u64 = 0x0000_8000_0000_0000;

/// Bit 53: a 64-bit segment.
pub const LONG_MODE: u64 = 0x0020_0000_0000_0000;

/// The 64-bit kernel code segment: flat, accessed, readable, executable,
/// present, long mode, privilege level 0.
pub const KERNEL_CODE64: u64 = 0x00af_9b00_0000_ffff;

/// The kernel data segment of this crate: present, writable, long mode, with
/// the user-segment bit, privilege level 0.
pub const KERNEL_DATA: u64 = 0x0020_9200_0000_0000;

/// What the first word of every descriptor of an available 64-bit task state
/// segment holds besides the base address: present, type 0b1001 in bits 40 to
/// 43, and the limit 0x67, one less than the size of the segment.
pub const TSS_FIXED_BITS: u64 = 0x0000_8900_0000_0067;

/// The bits of a system descriptor's first word that hold bits 0 to 31 of the
/// base address.
pub const TSS_BASE_BITS: u64 = 0xff00_00ff_ffff_0000;

/// A descriptor of the global descriptor table.
#[derive(Clone, Copy, Debug, PartialEq, Eq, Structural)]
pub enum Descriptor {
    /// A code or data segment: one table slot.
    UserSegment(u64),
    /// A system segment, such as a task state segment: two table slots, the low
    /// word first.
    SystemSegment(u64, u64),
}

/// Whether every bit of `flag` is set in `bits`.
pub open spec fn has_flag(bits: u64, flag: u64) -> bool {
    bits & flag == flag
}

impl Descriptor {
    /// The first, or only, word of the descriptor.
    pub open spec fn low(self) -> u64 {
        match self {
            Descriptor::UserSegment(bits) => bits,
            Descriptor::SystemSegment(low, _) => low,
        }
    }

    /// The table slots that the descriptor fills, in order.
    pub open spec fn words(self) -> Seq<u64> {
        match self {
            Descriptor::UserSegment(bits) => seq![bits],
            Descriptor::SystemSegment(low, high) => seq![low, high],
        }
    }

    /// The descriptor privilege level, 0 to 3.
    pub open spec fn privilege(self) -> int {
        ((self.low() & DPL_RING_3) >> 45) as int
    }

    /// Whether this is the descriptor of an available 64-bit task state segment
    /// of 0x68 bytes at privilege level 0, at whatever base address.
    pub open spec fn is_tss(self) -> bool {
        match self {
            Descriptor::UserSegment(_) => false,
            Descriptor::SystemSegment(low, high) => {
                low & !TSS_BASE_BITS == TSS_FIXED_BITS && high <= u32::MAX
            },
        }
    }

    /// The base address that a system descriptor holds.
    pub open spec fn base(self) -> u64 {
        match self {
            Descriptor::UserSegment(_) => 0,
            Descriptor::SystemSegment(low, high) => {
                ((low >> 16) & 0xff_ffff) | ((low >> 56) << 24) | (high << 32)
            },
        }
    }

    /// The descriptor of a task state segment that lies at `base`.
    pub open spec fn tss_at(base: u64) -> Descriptor {
        Descriptor::SystemSegment(
            TSS_FIXED_BITS | ((base & 0xff_ffff) << 16) | (((base >> 24) & 0xff) << 56),
            base >> 32,
        )
    }

    /// Tells whether this is the descriptor of a task state segment.
    pub fn is_tss_descriptor(&self) -> (tss: bool)
        ensures
            tss == self.is_tss(),
    {
        match *self {
            Descriptor::UserSegment(_) => false,
            Descriptor::SystemSegment(low, high) => {
                low & !TSS_BASE_BITS == TSS_FIXED_BITS && high <= 0xffff_ffff
            },
        }
    }

    /// The descriptor privilege level.
    pub fn dpl(&self) -> (level: u8)
        ensures
            level == self.privilege(),
            level < 4,
    {
        let low: u64 = match *self {
            Descriptor::UserSegment(bits) => bits,
            Descriptor::SystemSegment(low, _) => low,
        };
        assert((low & 0x0000_6000_0000_0000) >> 45 < 4) by (bit_vector);
        ((low & DPL_RING_3) >> 45) as u8
    }
}

/// `DescriptorFlags::USER_SEGMENT` of x86_64, as the integer that its `bits`
/// gives: bit 44.
#[verifier::external_body]
fn user_segment_flag() -> (bits: u64)
    ensures
        bits == USER_SEGMENT,
{
    x86_64::structures::gdt::DescriptorFlags::USER_SEGMENT.bits()
}

/// `DescriptorFlags::PRESENT` of x86_64, as the integer that its `bits` gives:
/// bit 47.
#[verifier::external_body]
fn present_flag() -> (bits: u64)
    ensures
        bits == PRESENT,
{
    x86_64::structures::gdt::DescriptorFlags::PRESENT.bits()
}

/// `DescriptorFlags::WRITABLE` of x86_64, as the integer that its `bits` gives:
/// bit 41.
#[verifier::external_body]
fn writable_flag() -> (bits: u64)
    ensures
        bits == WRITABLE,
{
    x86_64::structures::gdt::DescriptorFlags::WRITABLE.bits()
}

/// `DescriptorFlags::LONG_MODE` of x86_64, as the integer that its `bits`
/// gives: bit 53.
#[verifier::external_body]
fn long_mode_flag() -> (bits: u64)
    ensures
        bits == LONG_MODE,
{
    x86_64::structures::gdt::DescriptorFlags::LONG_MODE.bits()
}

/// `Descriptor::kernel_code_segment` of x86_64: a user segment whose word is
/// the crate's constant `KERNEL_CODE64`, 0x00af9b000000ffff.
#[verifier::external_body]
fn code_segment() -> (descriptor: Descriptor)
    ensures
        descriptor == Descriptor::UserSegment(KERNEL_CODE64),
{
    match x86_64::structures::gdt::Descriptor::kernel_code_segment() {
        x86_64::structures::gdt::Descriptor::UserSegment(bits) => Descriptor::UserSegment(bits),
        x86_64::structures::gdt::Descriptor::SystemSegment(low, high) => {
            Descriptor::SystemSegment(low, high)
        },
    }
}

/// `Descriptor::tss_segment` of x86_64. The result is a system segment made
/// from the address of `tss`, which differs from run to run: its first word
/// holds the present bit, the type 0b1001, the limit 0x67 and bits 0 to 31 of
/// the address, its second word bits 32 to 63 of the address. The contract
/// states what holds at every address.
#[verifier::external_body]
fn tss_segment(tss: &'static TaskStateSegment) -> (descriptor: Descriptor)
    ensures
        descriptor.is_tss(),
{
    match x86_64::structures::gdt::Descriptor::tss_segment(tss) {
        x86_64::structures::gdt::Descriptor::UserSegment(bits) => Descriptor::UserSegment(bits),
        x86_64::structures::gdt::Descriptor::SystemSegment(low, high) => {
            Descriptor::SystemSegment(low, high)
        },
    }
}

/// The descriptor of the 64-bit kernel code segment.
pub fn kernel_code_segment() -> (descriptor: Descriptor)
    ensures
        descriptor == Descriptor::UserSegment(KERNEL_CODE64),
        has_flag(descriptor.low(), EXECUTABLE),
        has_flag(descriptor.low(), PRESENT),
        has_flag(descriptor.low(), LONG_MODE),
        has_flag(descriptor.low(), USER_SEGMENT),
        descriptor.privilege() == 0,
{
    let descriptor = code_segment();
    proof {
        lemma_kernel_code_flags();
    }
    descriptor
}

/// The descriptor of the kernel data segment: present, writable, long mode and
/// structurally a user segment, at privilege level 0.
pub fn kernel_data_segment() -> (descriptor: Descriptor)
    ensures
        descriptor == Descriptor::UserSegment(KERNEL_DATA),
        has_flag(descriptor.low(), USER_SEGMENT),
        has_flag(descriptor.low(), PRESENT),
        has_flag(descriptor.low(), WRITABLE),
        has_flag(descriptor.low(), LONG_MODE),
        !has_flag(descriptor.low(), EXECUTABLE),
        descriptor.privilege() == 0,
{
    let user_segment: u64 = user_segment_flag();
    let present: u64 = present_flag();
    let writable: u64 = writable_flag();
    let long_mode: u64 = long_mode_flag();
    let flags: u64 = user_segment | present | writable | long_mode;
    proof {
        assert(0x0000_1000_0000_0000u64 | 0x0000_8000_0000_0000u64 | 0x0000_0200_0000_0000u64
            | 0x0020_0000_0000_0000u64 == 0x0020_9200_0000_0000u64) by (bit_vector);
        lemma_kernel_data_flags();
    }
    Descriptor::UserSegment(flags)
}

/// The descriptor of the task state segment `tss`, for the address at which it
/// lies.
pub fn tss_descriptor(tss: &'static TaskStateSegment) -> (descriptor: Descriptor)
    ensures
        descriptor.is_tss(),
        descriptor == Descriptor::tss_at(descriptor.base()),
        descriptor.privilege() == 0,
        has_flag(descriptor.low(), PRESENT),
        !has_flag(descriptor.low(), USER_SEGMENT),
{
    let descriptor = tss_segment(tss);
    proof {
        lemma_tss_descriptor_is_of_its_base(descriptor);
    }
    descriptor
}

/// The kernel code segment is executable, present, a long-mode user segment,
/// at privilege level 0.
pub proof fn lemma_kernel_code_flags()
    ensures
        has_flag(KERNEL_CODE64, EXECUTABLE),
        has_flag(KERNEL_CODE64, PRESENT),
        has_flag(KERNEL_CODE64, LONG_MODE),
        has_flag(KERNEL_CODE64, USER_SEGMENT),
        Descriptor::UserSegment(KERNEL_CODE64).privilege() == 0,
{
    assert(0x00af_9b00_0000_ffffu64 & 0x0000_0800_0000_0000u64 == 0x0000_0800_0000_0000u64)
        by (bit_vector);
    assert(0x00af_9b00_0000_ffffu64 & 0x0000_8000_0000_0000u64 == 0x0000_8000_0000_0000u64)
        by (bit_vector);
    assert(0x00af_9b00_0000_ffffu64 & 0x0020_0000_0000_0000u64 == 0x0020_0000_0000_0000u64)
        by (bit_vector);
    assert(0x00af_9b00_0000_ffffu64 & 0x0000_1000_0000_0000u64 == 0x0000_1000_0000_0000u64)
        by (bit_vector);
    assert((0x00af_9b00_0000_ffffu64 & 0x0000_6000_0000_0000u64) >> 45 == 0) by (bit_vector);
}

/// The kernel data segment is a present, writable, long-mode user segment that
/// is not executable, at privilege level 0.
pub proof fn lemma_kernel_data_flags()
    ensures
        has_flag(KERNEL_DATA, USER_SEGMENT),
        has_flag(KERNEL_DATA, PRESENT),
        has_flag(KERNEL_DATA, WRITABLE),
        has_flag(KERNEL_DATA, LONG_MODE),
        !has_flag(KERNEL_DATA, EXECUTABLE),
        Descriptor::UserSegment(KERNEL_DATA).privilege() == 0,
{
    assert(0x0020_9200_0000_0000u64 & 0x0000_1000_0000_0000u64 == 0x0000_1000_0000_0000u64)
        by (bit_vector);
    assert(0x0020_9200_0000_0000u64 & 0x0000_8000_0000_0000u64 == 0x0000_8000_0000_0000u64)
        by (bit_vector);
    assert(0x0020_9200_0000_0000u64 & 0x0000_0200_0000_0000u64 == 0x0000_0200_0000_0000u64)
        by (bit_vector);
    assert(0x0020_9200_0000_0000u64 & 0x0020_0000_0000_0000u64 == 0x0020_0000_0000_0000u64)
        by (bit_vector);
    assert(0x0020_9200_0000_0000u64 & 0x0000_0800_0000_0000u64 == 0) by (bit_vector);
    assert((0x0020_9200_0000_0000u64 & 0x0000_6000_0000_0000u64) >> 45 == 0) by (bit_vector);
}

/// A task state segment descriptor is fixed by the base address that it holds:
/// it is the descriptor of a segment at that base, it is present, a system
/// segment, and at privilege level 0.
pub proof fn lemma_tss_descriptor_is_of_its_base(descriptor: Descriptor)
    requires
        descriptor.is_tss(),
    ensures
        descriptor == Descriptor::tss_at(descriptor.base()),
        descriptor.privilege() == 0,
        has_flag(descriptor.low(), PRESENT),
        !has_flag(descriptor.low(), USER_SEGMENT),
{
    match descriptor {
        Descriptor::UserSegment(_) => {},
        Descriptor::SystemSegment(low, high) => {
            let base = ((low >> 16) & 0xff_ffff) | ((low >> 56) << 24) | (high << 32);
            let rebuilt = 0x0000_8900_0000_0067u64 | ((base & 0xff_ffff) << 16) | (((base >> 24)
                & 0xff) << 56);
            assert(base >> 32 == high && rebuilt == low) by (bit_vector)
                requires
                    low & !0xff00_00ff_ffff_0000u64 == 0x0000_8900_0000_0067u64,
                    high <= 0xffff_ffffu64,
                    base == ((low >> 16) & 0xff_ffff) | ((low >> 56) << 24) | (high << 32),
                    rebuilt == 0x0000_8900_0000_0067u64 | ((base & 0xff_ffff) << 16) | (((base
                        >> 24) & 0xff) << 56),
            ;
            assert((low & 0x0000_6000_0000_0000u64) >> 45 == 0) by (bit_vector)
                requires
                    low & !0xff00_00ff_ffff_0000u64 == 0x0000_8900_0000_0067u64,
            ;
            assert(low & 0x0000_8000_0000_0000u64 == 0x0000_8000_0000_0000u64) by (bit_vector)
                requires
                    low & !0xff00_00ff_ffff_0000u64 == 0x0000_8900_0000_0067u64,
            ;
            assert(low & 0x0000_1000_0000_0000u64 == 0) by (bit_vector)
                requires
                    low & !0xff00_00ff_ffff_0000u64 == 0x0000_8900_0000_0067u64,
            ;
        },
    }
}

/// The descriptor of a segment at any base address is a task state segment
/// descriptor, and holds that base.
pub proof fn lemma_tss_at_is_tss(base: u64)
    ensures
        Descriptor::tss_at(base).is_tss(),
        Descriptor::tss_at(base).base() == base,
{
    let low = 0x0000_8900_0000_0067u64 | ((base & 0xff_ffff) << 16) | (((base >> 24) & 0xff) << 56);
    let high = base >> 32;
    assert(low & !0xff00_00ff_ffff_0000u64 == 0x0000_8900_0000_0067u64) by (bit_vector)
        requires
            low == 0x0000_8900_0000_0067u64 | ((base & 0xff_ffff) << 16) | (((base >> 24) & 0xff)
                << 56),
    ;
    assert(high <= 0xffff_ffffu64) by (bit_vector)
        requires
            high == base >> 32,
    ;
    assert(((low >> 16) & 0xff_ffff) | ((low >> 56) << 24) | (high << 32) == base) by (bit_vector)
        requires
            low == 0x0000_8900_0000_0067u64 | ((base & 0xff_ffff) << 16) | (((base >> 24) & 0xff)
                << 56),
            high == base >> 32,
    ;
}

} // verus!
