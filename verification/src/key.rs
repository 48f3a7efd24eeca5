//! Row locators and their encoding as hash-table keys.

use vstd::prelude::*;

verus! {

/// Locates a row of the host table: the storage block that holds it and the
/// slot of the row within that block. Two keys are the same row exactly when
/// both fields agree.
#[derive(Clone, Copy, Debug, PartialEq, Eq, Hash, Structural)]
pub struct RowKey {
    pub block: u32,
    pub offset: u16,
}

/// Number of slots that one block can address.
pub const SLOTS_PER_BLOCK: u64 = 65536;

impl RowKey {
    /// The single integer that stands for this key inside a hash table:
    /// the block above the sixteen bits of the slot. It takes 48 bits at
    /// most, so nothing is lost in the conversion to `u64`.
    pub open spec fn code(self) -> u64 {
        (self.block * SLOTS_PER_BLOCK + self.offset) as u64
    }

    /// Different rows never share a code.
    pub proof fn lemma_code_injective(a: RowKey, b: RowKey)
        requires
            a.code() == b.code(),
        ensures
            a == b,
    {
    }

    /// Computes `code`.
    pub fn encode(self) -> (c: u64)
        ensures
            c == self.code(),
            c == self.block * SLOTS_PER_BLOCK + self.offset,
    {
        self.block as u64 * SLOTS_PER_BLOCK + self.offset as u64
    }
}

} // verus!
