//! The part of segment setup that the interrupt layer depends on.

use vstd::prelude::*;

verus! {

/// Slot of the interrupt stack table that holds the stack reserved for the
/// double-fault handler.
pub const DOUBLE_FAULT_IST_INDEX: u16 = 0;

/// Number of slots in the interrupt stack table.
pub const IST_SLOTS: u16 = 7;

/// The reserved slot exists.
pub proof fn lemma_double_fault_slot_in_table()
    ensures
        DOUBLE_FAULT_IST_INDEX < IST_SLOTS,
{
}

} // verus!
