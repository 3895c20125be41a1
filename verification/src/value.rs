use vstd::prelude::*;

verus! {

/// A runtime value.
///
/// The execution core never computes with a value: the chunk's constant pool
/// stores values, `Constant` instructions load them, and `Return` pops one and
/// hands it back. The current value domain is double-precision numbers, kept
/// here as their raw IEEE 754 bit pattern so the core itself stays independent
/// of floating-point semantics. Callers that produce or display numbers
/// convert through `f64::to_bits` / `f64::from_bits`, which lose nothing.
///
/// This type is the seam where a tagged value representation (numbers,
/// booleans, objects) would later replace the single numeric kind without
/// changing the chunk's or the machine's structural contracts.
#[derive(Clone, Copy, PartialEq, Eq, Structural, Debug)]
pub struct Value {
    bits: u64,
}

impl View for Value {
    type V = u64;

    closed spec fn view(&self) -> u64 {
        self.bits
    }
}

impl Value {
    /// Builds the value whose payload is the given bit pattern.
    pub fn from_bits(bits: u64) -> (v: Value)
        ensures
            v@ == bits,
    {
        Value { bits }
    }

    /// The value's payload, bit for bit.
    pub fn bits(&self) -> (b: u64)
        ensures
            b == self@,
    {
        self.bits
    }
}

} // verus!
