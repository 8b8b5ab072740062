//! Shared parameter cells.
//!
//! A control parameter (a frequency, a gain) is one 32-bit word: the raw
//! encoding of the floating-point control value. Storing and loading the
//! word whole is what makes the cell tear-free: a load never observes a
//! mix of two stores' bits. The atomic slot that shares the word across
//! threads, and the conversion between the word and the floating-point
//! value, live outside the verified core; here the cell is the word itself
//! with exact store/load semantics.

use vstd::prelude::*;

verus! {

/// A parameter cell holding the raw 32-bit word of one control value.
///
/// Writers replace the word whole; readers get back exactly the word most
/// recently stored, bit for bit.
pub struct AtomicF32 {
    bits: u32,
}

impl View for AtomicF32 {
    type V = u32;

    closed spec fn view(&self) -> u32 {
        self.bits
    }
}

impl AtomicF32 {
    /// The cell as it stands after a store of `bits`.
    pub closed spec fn stored_spec(&self, bits: u32) -> AtomicF32 {
        AtomicF32 { bits }
    }

    /// Creates a cell holding `bits`.
    pub fn new(bits: u32) -> (cell: AtomicF32)
        ensures
            cell@ == bits,
    {
        AtomicF32 { bits }
    }

    /// Replaces the cell's word with `bits`, whole.
    pub fn store(&mut self, bits: u32)
        ensures
            *final(self) == old(self).stored_spec(bits),
            final(self)@ == bits,
    {
        self.bits = bits;
    }

    /// Returns the word most recently stored, bit for bit.
    pub fn load(&self) -> (bits: u32)
        ensures
            bits == self@,
    {
        self.bits
    }
}

/// A round trip through a cell is exact: after a store of `bits`, with no
/// store in between, a load returns exactly `bits` — bit equality, never
/// a mix of two stores' words.
pub proof fn lemma_store_then_load_exact(cell: AtomicF32, bits: u32)
    ensures
        cell.stored_spec(bits)@ == bits,
{
}

} // verus!
