//! Segmentation setup for an x86-64 kernel in long mode.
//!
//! The crate builds a task state segment whose first interrupt stack points at
//! the top of a dedicated exception stack, assembles a global descriptor table
//! with a kernel code segment, a kernel data segment and the descriptor of that
//! task state segment, and lays out the ordered register loads that make the
//! table live on a core. Addresses and the privileged instructions themselves
//! are supplied and executed by the caller. The tables are made with the
//! `x86_64` crate; what this crate decides is verified against the contracts
//! that it states for the functions of `x86_64` that it calls.

pub mod address;
pub mod stack;
pub mod tss;
pub mod selector;
pub mod descriptor;
pub mod table;
pub mod activation;

pub use activation::{init, ActivationStep};
pub use descriptor::Descriptor;
pub use selector::{SegmentSelector, Selectors};
pub use stack::{DOUBLE_FAULT_IST_INDEX, STACK_SIZE};
pub use table::{build_gdt, KernelGdt};
pub use tss::build_tss;
