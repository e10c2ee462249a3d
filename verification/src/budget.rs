//! The byte budget an ordinary block offers its transactions: control
//! transactions are selected first, regular transactions get what remains.

use vstd::prelude::*;

verus! {

/// What remains of a byte budget after a selection consumed `used` bytes,
/// clamped at zero (a selection never reports more than it was offered, but
/// the rule is total).
pub open spec fn remaining_budget_of(available: int, used: int) -> int {
    if used <= available {
        available - used
    } else {
        0
    }
}

/// The byte budget left for regular transactions after the
/// control-transaction selection consumed `used` bytes.
pub fn remaining_budget(available: usize, used: usize) -> (r: usize)
    ensures
        r == remaining_budget_of(available as int, used as int),
{
    if used <= available {
        available - used
    } else {
        0
    }
}

/// Byte budget: when each selection stays within the budget it was offered —
/// the transaction source's contract — the bytes of both selections together
/// stay within the block's available budget.
pub proof fn lemma_byte_budget(available: int, control_bytes: int, regular_bytes: int)
    requires
        0 <= control_bytes,
        0 <= regular_bytes,
        control_bytes <= available,
        regular_bytes <= remaining_budget_of(available, control_bytes),
    ensures
        control_bytes + regular_bytes <= available,
{
}

} // verus!
