use vstd::prelude::*;

use crate::error::CircuitError;

verus! {

/// A single binary logic cell. Its state is the character `'0'` or `'1'`;
/// every gate operation is a pure function that yields a new digit.
#[derive(Copy, Clone, Debug, PartialEq, Eq, Structural)]
pub struct Digit(pub char);

impl Digit {
    /// A digit is well formed when its state is one of the two valid symbols.
    pub open spec fn valid(self) -> bool {
        self.0 == '0' || self.0 == '1'
    }

    /// The boolean a well-formed digit stands for: `'1'` is true, `'0'` is false.
    pub open spec fn value(self) -> bool {
        self.0 == '1'
    }

    /// Builds a digit from a symbol. Anything but `'0'` or `'1'` is rejected
    /// here, before any gate ever sees the digit.
    pub fn new(symbol: char) -> (r: Result<Digit, CircuitError>)
        ensures
            r is Ok <==> (symbol == '0' || symbol == '1'),
            r matches Ok(d) ==> d.valid() && d.0 == symbol,
            r matches Err(e) ==> e == CircuitError::InvalidDigitSymbol,
    {
        if symbol == '0' || symbol == '1' {
            Ok(Digit(symbol))
        } else {
            Err(CircuitError::InvalidDigitSymbol)
        }
    }

    /// AND gate: the result is `'1'` iff both operands are `'1'`.
    pub fn and(self, rhs: Digit) -> (r: Digit)
        requires
            self.valid(),
            rhs.valid(),
        ensures
            r.valid(),
            r.value() == (self.value() && rhs.value()),
    {
        match self.0 {
            '0' => Digit('0'),
            _ => match rhs.0 {
                '0' => Digit('0'),
                _ => Digit('1'),
            },
        }
    }

    /// OR gate: the result is `'0'` iff both operands are `'0'`.
    pub fn or(self, rhs: Digit) -> (r: Digit)
        requires
            self.valid(),
            rhs.valid(),
        ensures
            r.valid(),
            r.value() == (self.value() || rhs.value()),
    {
        match self.0 {
            '0' => match rhs.0 {
                '0' => Digit('0'),
                _ => Digit('1'),
            },
            _ => Digit('1'),
        }
    }

    /// XOR gate: the result is `'1'` iff the operands differ.
    pub fn xor(self, rhs: Digit) -> (r: Digit)
        requires
            self.valid(),
            rhs.valid(),
        ensures
            r.valid(),
            r.value() == (self.value() != rhs.value()),
    {
        match self.0 {
            '0' => match rhs.0 {
                '0' => Digit('0'),
                _ => Digit('1'),
            },
            _ => match rhs.0 {
                '0' => Digit('1'),
                _ => Digit('0'),
            },
        }
    }

    /// NOT gate: flips the operand, `'0'` to `'1'` and `'1'` to `'0'`.
    pub fn not(self) -> (r: Digit)
        requires
            self.valid(),
        ensures
            r.valid(),
            r.value() == !self.value(),
    {
        match self.0 {
            '0' => Digit('1'),
            _ => Digit('0'),
        }
    }
}

/// Equality on digits is structural: every digit equals itself, and two
/// digits with different states are never equal.
pub proof fn lemma_digit_equality(d1: Digit, d2: Digit)
    ensures
        d1 == d1,
        d1.0 != d2.0 ==> d1 != d2,
        d1.0 == d2.0 ==> d1 == d2,
{
}

} // verus!
