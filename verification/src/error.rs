use vstd::prelude::*;

verus! {

/// The failure modes of the circuit layer. Both arise only from malformed
/// input at a boundary: a digit built from a symbol that is neither `'0'`
/// nor `'1'`, or an adder operand whose length is not the adder's width.
#[derive(Copy, Clone, Debug, PartialEq, Eq, Structural)]
pub enum CircuitError {
    /// A digit was constructed from a symbol other than `'0'` or `'1'`.
    InvalidDigitSymbol,
    /// An operand handed to the fixed-width adder does not have exactly
    /// the adder's width.
    InvalidOperandWidth,
}

} // verus!
