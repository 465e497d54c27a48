//! Activation: the ordered register loads that make the kernel's table live.

use vstd::prelude::*;
use crate::selector::{SegmentSelector, Selectors};
use crate::table::{kernel_selectors, lemma_selectors_follow_append_order, refers_to, KernelGdt};

verus! {

/// Number of register loads of one activation.
pub const ACTIVATION_STEPS: usize = 6;

/// One register load of the activation. The caller executes it on the
/// processor; nothing here touches the hardware.
#[derive(Clone, Copy, Debug, PartialEq, Eq, Structural)]
pub enum ActivationStep {
    /// Load the table register from the kernel's table.
    LoadTable,
    /// Reload the code segment register.
    SetCodeSegment(SegmentSelector),
    /// Load the data segment register.
    LoadDataSegment(SegmentSelector),
    /// Load the extra segment register.
    LoadExtraSegment(SegmentSelector),
    /// Load the stack segment register.
    LoadStackSegment(SegmentSelector),
    /// Load the task register.
    LoadTaskRegister(SegmentSelector),
}

impl ActivationStep {
    /// Whether the step loads the data, extra or stack segment register.
    pub open spec fn is_data_load(self) -> bool {
        self is LoadDataSegment || self is LoadExtraSegment || self is LoadStackSegment
    }
}

/// The activation for the selectors `selectors`: the table register first, then
/// the code segment, then the data, extra and stack segments with the data
/// selector, and the task register last.
pub open spec fn activation_steps(selectors: Selectors) -> Seq<ActivationStep> {
    seq![
        ActivationStep::LoadTable,
        ActivationStep::SetCodeSegment(selectors.code_selector),
        ActivationStep::LoadDataSegment(selectors.data_selector),
        ActivationStep::LoadExtraSegment(selectors.data_selector),
        ActivationStep::LoadStackSegment(selectors.data_selector),
        ActivationStep::LoadTaskRegister(selectors.tss_selector),
    ]
}

/// Lays out the activation of the kernel's table `gdt` on the current core: the
/// register loads to execute, in order, each with the selector that was
/// captured from this table. The table itself is not changed.
pub fn init(gdt: &KernelGdt) -> (steps: [ActivationStep; ACTIVATION_STEPS])
    ensures
        steps@ == activation_steps(gdt.captured()),
        gdt.wf(),
        refers_to(gdt@, gdt.captured().code_selector, gdt.entries()[0]),
        refers_to(gdt@, gdt.captured().data_selector, gdt.entries()[1]),
        refers_to(gdt@, gdt.captured().tss_selector, gdt.entries()[2]),
{
    let selectors = gdt.selectors();
    proof {
        lemma_selectors_follow_append_order(*gdt);
    }
    let steps = [
        ActivationStep::LoadTable,
        ActivationStep::SetCodeSegment(selectors.code_selector),
        ActivationStep::LoadDataSegment(selectors.data_selector),
        ActivationStep::LoadExtraSegment(selectors.data_selector),
        ActivationStep::LoadStackSegment(selectors.data_selector),
        ActivationStep::LoadTaskRegister(selectors.tss_selector),
    ];
    assert(steps@ =~= activation_steps(gdt.captured()));
    steps
}

/// In every activation the table register is loaded exactly once and before the
/// code segment is reloaded, the code segment is reloaded exactly once and
/// before any data, extra or stack segment load, and the task register is
/// loaded last.
pub proof fn lemma_activation_order(selectors: Selectors)
    ensures
        activation_steps(selectors).len() == ACTIVATION_STEPS,
        forall|i: int, j: int|
            #![trigger activation_steps(selectors)[i], activation_steps(selectors)[j]]
            0 <= i < ACTIVATION_STEPS && 0 <= j < ACTIVATION_STEPS && activation_steps(
                selectors,
            )[i] is LoadTable && activation_steps(selectors)[j] is SetCodeSegment ==> i < j,
        forall|i: int, j: int|
            #![trigger activation_steps(selectors)[i], activation_steps(selectors)[j]]
            0 <= i < ACTIVATION_STEPS && 0 <= j < ACTIVATION_STEPS && activation_steps(
                selectors,
            )[i] is SetCodeSegment && activation_steps(selectors)[j].is_data_load() ==> i < j,
        forall|i: int, j: int|
            #![trigger activation_steps(selectors)[i], activation_steps(selectors)[j]]
            0 <= i < ACTIVATION_STEPS && 0 <= j < ACTIVATION_STEPS && activation_steps(
                selectors,
            )[j] is LoadTaskRegister && i != j ==> i < j,
        forall|i: int|
            0 <= i < ACTIVATION_STEPS ==> (#[trigger] activation_steps(selectors)[i] is LoadTable
                <==> i == 0),
        forall|i: int|
            0 <= i < ACTIVATION_STEPS ==> (#[trigger] activation_steps(selectors)[i]
                is SetCodeSegment <==> i == 1),
{
}

/// Every table of the kernel is activated by the same six loads: the code
/// segment from selector 0x08, the data, extra and stack segments from 0x10,
/// the task register from 0x18.
pub proof fn lemma_activation_is_fixed(gdt: KernelGdt)
    requires
        gdt.wf(),
    ensures
        activation_steps(gdt.captured()) == activation_steps(kernel_selectors()),
        activation_steps(gdt.captured()) == seq![
            ActivationStep::LoadTable,
            ActivationStep::SetCodeSegment(SegmentSelector(0x08)),
            ActivationStep::LoadDataSegment(SegmentSelector(0x10)),
            ActivationStep::LoadExtraSegment(SegmentSelector(0x10)),
            ActivationStep::LoadStackSegment(SegmentSelector(0x10)),
            ActivationStep::LoadTaskRegister(SegmentSelector(0x18)),
        ],
{
}

} // verus!
