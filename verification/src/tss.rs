//! The task state segment and its interrupt stack table.

use vstd::prelude::*;
use x86_64::structures::tss::TaskStateSegment;
use crate::address::is_canonical;
use crate::stack::{
    exception_stack_top, stack_end_of, stack_is_addressable, DOUBLE_FAULT_IST_INDEX,
    STACK_ALIGNMENT, STACK_SIZE,
};

verus! {

/// Number of slots in the interrupt stack table.
pub const IST_SLOTS: usize = 7;

/// The task state segment of x86_64, carried as an opaque value.
#[verifier::external_type_specification]
#[verifier::external_body]
pub struct ExTaskStateSegment(TaskStateSegment);

/// The interrupt stack table of a task state segment: the stack-top address of
/// each slot, slot 0 first.
pub uninterp spec fn interrupt_stacks(tss: TaskStateSegment) -> Seq<u64>;

/// `TaskStateSegment::new` of x86_64, which zeroes every slot of the interrupt
/// stack table.
#[verifier::external_body]
fn new_tss() -> (tss: TaskStateSegment)
    ensures
        interrupt_stacks(tss) == Seq::new(IST_SLOTS as nat, |slot: int| 0u64),
{
    TaskStateSegment::new()
}

/// Assignment to one element of the public field `interrupt_stack_table` of
/// x86_64's `TaskStateSegment`. The address is made with `VirtAddr::new`, which
/// keeps a canonical value unchanged; the other slots are not touched.
#[verifier::external_body]
fn set_interrupt_stack(tss: &mut TaskStateSegment, slot: usize, top: u64)
    requires
        slot < IST_SLOTS,
        is_canonical(top as int),
    ensures
        interrupt_stacks(*final(tss)) == interrupt_stacks(*old(tss)).update(slot as int, top),
{
    tss.interrupt_stack_table[slot] = x86_64::VirtAddr::new(top);
}

/// Read of one element of the public field `interrupt_stack_table` of x86_64's
/// `TaskStateSegment`, turned into an integer with `VirtAddr::as_u64`.
#[verifier::external_body]
fn get_interrupt_stack(tss: &TaskStateSegment, slot: usize) -> (top: u64)
    requires
        slot < IST_SLOTS,
    ensures
        top == interrupt_stacks(*tss)[slot as int],
{
    let table = tss.interrupt_stack_table;
    table[slot].as_u64()
}

/// The interrupt stack table of a segment built for the exception stack that
/// starts at `stack_start`: the double-fault slot holds the top of that stack,
/// every other slot is unset.
pub open spec fn built_interrupt_stacks(stack_start: u64) -> Seq<u64> {
    Seq::new(
        IST_SLOTS as nat,
        |slot: int|
            if slot == DOUBLE_FAULT_IST_INDEX {
                stack_end_of(stack_start as int) as u64
            } else {
                0u64
            },
    )
}

/// Builds the task state segment for the exception stack that starts at
/// `stack_start`.
pub fn build_tss(stack_start: u64) -> (tss: TaskStateSegment)
    requires
        stack_is_addressable(stack_start as int),
    ensures
        interrupt_stacks(tss) == built_interrupt_stacks(stack_start),
        interrupt_stacks(tss).len() == IST_SLOTS,
        interrupt_stacks(tss)[DOUBLE_FAULT_IST_INDEX as int] == stack_start + STACK_SIZE,
        interrupt_stacks(tss)[DOUBLE_FAULT_IST_INDEX as int] != 0,
        stack_start % STACK_ALIGNMENT == 0 ==> interrupt_stacks(tss)[DOUBLE_FAULT_IST_INDEX as int]
            % STACK_ALIGNMENT == 0,
        forall|slot: int|
            0 <= slot < IST_SLOTS && slot != DOUBLE_FAULT_IST_INDEX
                ==> #[trigger] interrupt_stacks(tss)[slot] == 0,
{
    let mut tss = new_tss();
    let stack_end = exception_stack_top(stack_start);
    set_interrupt_stack(&mut tss, DOUBLE_FAULT_IST_INDEX as usize, stack_end);
    assert(interrupt_stacks(tss) =~= built_interrupt_stacks(stack_start));
    tss
}

/// The stack-top address in slot `slot` of the interrupt stack table, or `None`
/// when the table has no such slot.
pub fn interrupt_stack(tss: &TaskStateSegment, slot: usize) -> (top: Option<u64>)
    ensures
        slot < IST_SLOTS ==> top == Some(interrupt_stacks(*tss)[slot as int]),
        slot >= IST_SLOTS ==> top is None,
{
    if slot < IST_SLOTS {
        Some(get_interrupt_stack(tss, slot))
    } else {
        None
    }
}

/// Whichever build made it, a task state segment built for the stack that
/// starts at `stack_start` holds the same interrupt stack table: two builds for
/// one stack agree in every slot.
pub proof fn lemma_built_tss_is_determined(
    stack_start: u64,
    first: TaskStateSegment,
    second: TaskStateSegment,
)
    requires
        interrupt_stacks(first) == built_interrupt_stacks(stack_start),
        interrupt_stacks(second) == built_interrupt_stacks(stack_start),
    ensures
        interrupt_stacks(first) == interrupt_stacks(second),
        forall|slot: int|
            0 <= slot < IST_SLOTS
                ==> #[trigger] interrupt_stacks(first)[slot] == interrupt_stacks(second)[slot],
{
}

} // verus!
