use vstd::prelude::*;

use crate::digit::Digit;
use crate::error::CircuitError;

verus! {

/// A carry digit: the secondary output of an adder stage, representing
/// overflow into the next bit position. Shares representation and
/// operations with an ordinary digit.
pub type Carry = Digit;

/// The outputs of one adder stage: the sum digit and the outgoing carry.
#[derive(Copy, Clone, Debug, PartialEq, Eq, Structural)]
pub struct AdderResult(pub Digit, pub Carry);

impl AdderResult {
    /// A stage result is well formed when both of its digits are.
    pub open spec fn valid(self) -> bool {
        self.0.valid() && self.1.valid()
    }
}

/// What a half adder yields on boolean inputs: the sum is the exclusive or,
/// the carry is the conjunction.
pub open spec fn spec_half_adder(a: bool, b: bool) -> (bool, bool) {
    (a != b, a && b)
}

/// The majority of three booleans: true iff at least two of them are true.
/// This is the carry-out rule of a full adder.
pub open spec fn majority(a: bool, b: bool, c: bool) -> bool {
    (a && b) || (a && c) || (b && c)
}

/// What a full adder yields on boolean inputs: the sum is the exclusive or
/// of all three, the carry-out is their majority.
pub open spec fn spec_full_adder(a: bool, b: bool, c: bool) -> (bool, bool) {
    ((a != b) != c, majority(a, b, c))
}

/// Adds two digits with no carry-in: the stage used for the least
/// significant bit position.
pub fn single_digit_half_adder(a: &Digit, b: &Digit) -> (r: AdderResult)
    requires
        a.valid(),
        b.valid(),
    ensures
        r.valid(),
        (r.0.value(), r.1.value()) == spec_half_adder(a.value(), b.value()),
{
    let s: Digit = a.xor(*b);
    let c: Carry = a.and(*b);
    AdderResult(s, c)
}

/// Adds two digits and a carry-in: the stage used for every bit position
/// above the least significant one.
pub fn single_digit_adder(a: &Digit, b: &Digit, c_in: &Carry) -> (r: AdderResult)
    requires
        a.valid(),
        b.valid(),
        c_in.valid(),
    ensures
        r.valid(),
        (r.0.value(), r.1.value()) == spec_full_adder(a.value(), b.value(), c_in.value()),
{
    let s: Digit = a.xor(*b).xor(*c_in);
    let c_out: Carry = a.and(*b).or(a.and(*c_in)).or(b.and(*c_in));
    AdderResult(s, c_out)
}

/// The stage results a four-digit ripple-carry adder owes on well-formed
/// operands: a half adder at position 0, and at each higher position a full
/// adder whose carry-in is the carry-out of the position below.
pub open spec fn ripple_carry_ok(a: Seq<Digit>, b: Seq<Digit>, results: Seq<AdderResult>) -> bool {
    &&& results.len() == 4
    &&& (results[0].0.value(), results[0].1.value()) == spec_half_adder(
        a[0].value(),
        b[0].value(),
    )
    &&& forall|i: int|
        1 <= i < 4 ==> (#[trigger] results[i].0.value(), results[i].1.value())
            == spec_full_adder(a[i].value(), b[i].value(), results[i - 1].1.value())
}

/// The numeric weight of one digit: 1 when it is set, 0 when it is not.
pub open spec fn bit_weight(b: bool) -> int {
    if b {
        1
    } else {
        0
    }
}

/// The number a four-digit operand denotes, least significant digit first.
pub open spec fn operand_value(s: Seq<Digit>) -> int
    recommends
        s.len() == 4,
{
    bit_weight(s[0].value()) + 2 * bit_weight(s[1].value()) + 4 * bit_weight(s[2].value()) + 8
        * bit_weight(s[3].value())
}

/// The number the four sum digits of a stage-result sequence denote,
/// least significant digit first.
pub open spec fn sum_value(results: Seq<AdderResult>) -> int
    recommends
        results.len() == 4,
{
    bit_weight(results[0].0.value()) + 2 * bit_weight(results[1].0.value()) + 4 * bit_weight(
        results[2].0.value(),
    ) + 8 * bit_weight(results[3].0.value())
}

/// The ripple-carry stages compute binary addition: the number the sum
/// digits denote, plus sixteen times the final carry, equals the sum of the
/// numbers the two operands denote.
pub proof fn lemma_ripple_carry_adds(a: Seq<Digit>, b: Seq<Digit>, results: Seq<AdderResult>)
    requires
        a.len() == 4,
        b.len() == 4,
        ripple_carry_ok(a, b, results),
    ensures
        sum_value(results) + 16 * bit_weight(results[3].1.value()) == operand_value(a)
            + operand_value(b),
{
    assert((results[1].0.value(), results[1].1.value()) == spec_full_adder(
        a[1].value(),
        b[1].value(),
        results[0].1.value(),
    ));
    assert((results[2].0.value(), results[2].1.value()) == spec_full_adder(
        a[2].value(),
        b[2].value(),
        results[1].1.value(),
    ));
    assert((results[3].0.value(), results[3].1.value()) == spec_full_adder(
        a[3].value(),
        b[3].value(),
        results[2].1.value(),
    ));
}

/// Adds two four-digit operands, least significant digit first, by rippling
/// each stage's carry into the next. An operand of any other length is
/// rejected before any digit is read; on success the result holds exactly
/// one stage output per bit position, and the carry of the last stage is
/// the overflow out of the four-bit range.
pub fn four_digits_adder(a: &[Digit], b: &[Digit]) -> (r: Result<
    [AdderResult; 4],
    CircuitError,
>)
    requires
        forall|i: int| 0 <= i < a@.len() ==> (#[trigger] a@[i]).valid(),
        forall|i: int| 0 <= i < b@.len() ==> (#[trigger] b@[i]).valid(),
    ensures
        r is Ok <==> (a@.len() == 4 && b@.len() == 4),
        r matches Ok(results) ==> {
            &&& forall|i: int| 0 <= i < 4 ==> (#[trigger] results@[i]).valid()
            &&& ripple_carry_ok(a@, b@, results@)
        },
        r matches Ok(results) ==> sum_value(results@) + 16 * bit_weight(results@[3].1.value())
            == operand_value(a@) + operand_value(b@),
        r matches Err(e) ==> e == CircuitError::InvalidOperandWidth,
{
    if a.len() != 4 || b.len() != 4 {
        return Err(CircuitError::InvalidOperandWidth);
    }
    let r0: AdderResult = single_digit_half_adder(&a[0], &b[0]);
    let r1: AdderResult = single_digit_adder(&a[1], &b[1], &r0.1);
    let r2: AdderResult = single_digit_adder(&a[2], &b[2], &r1.1);
    let r3: AdderResult = single_digit_adder(&a[3], &b[3], &r2.1);
    let results: [AdderResult; 4] = [r0, r1, r2, r3];
    proof {
        lemma_ripple_carry_adds(a@, b@, results@);
    }
    Ok(results)
}

} // verus!
