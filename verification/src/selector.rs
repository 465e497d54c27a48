//! Segment selectors: the 16-bit values that segment registers hold.

use vstd::prelude::*;

verus! {

/// A segment selector. Bits 3 to 15 hold the slot of a descriptor in its table,
/// bit 2 tells the local table from the global one, and bits 0 and 1 hold the
/// requested privilege level.
#[derive(Clone, Copy, Debug, PartialEq, Eq, Structural)]
pub struct SegmentSelector(pub u16);

/// The selectors captured while the descriptor table was assembled.
#[derive(Clone, Copy, Debug, PartialEq, Eq, Structural)]
pub struct Selectors {
    pub code_selector: SegmentSelector,
    pub data_selector: SegmentSelector,
    pub tss_selector: SegmentSelector,
}

impl SegmentSelector {
    /// The selector of slot `slot` in the global table, at privilege `rpl`:
    /// eight times the slot, plus the privilege bits.
    pub open spec fn encode(slot: int, rpl: int) -> SegmentSelector {
        SegmentSelector((slot * 8 + rpl) as u16)
    }

    /// The table slot that the selector names.
    pub open spec fn slot(self) -> int {
        self.0 as int / 8
    }

    /// The requested privilege level, 0 to 3.
    pub open spec fn privilege(self) -> int {
        self.0 as int % 4
    }

    /// Whether the selector points into the local descriptor table.
    pub open spec fn is_local(self) -> bool {
        (self.0 as int / 4) % 2 == 1
    }

    /// The table slot that the selector names.
    pub fn index(self) -> (slot: u16)
        ensures
            slot == self.slot(),
    {
        let bits: u16 = self.0;
        assert(bits >> 3 == bits / 8) by (bit_vector);
        bits >> 3
    }

    /// The requested privilege level.
    pub fn rpl(self) -> (level: u16)
        ensures
            level == self.privilege(),
    {
        let bits: u16 = self.0;
        assert(bits & 3 == bits % 4) by (bit_vector);
        bits & 3
    }

    /// Whether the selector points into the local descriptor table.
    pub fn in_local_table(self) -> (local: bool)
        ensures
            local == self.is_local(),
    {
        let bits: u16 = self.0;
        assert((bits & 4 != 0) == ((bits / 4) % 2 == 1)) by (bit_vector);
        bits & 4 != 0
    }
}

/// A selector made of a slot and a privilege level gives both back, and names
/// the global table.
pub proof fn lemma_encode_decodes(slot: int, rpl: int)
    requires
        0 <= slot < 8192,
        0 <= rpl < 4,
    ensures
        SegmentSelector::encode(slot, rpl).slot() == slot,
        SegmentSelector::encode(slot, rpl).privilege() == rpl,
        !SegmentSelector::encode(slot, rpl).is_local(),
{
}

} // verus!
