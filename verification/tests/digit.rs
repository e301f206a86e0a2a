use ripple_adder::digit::Digit;
use ripple_adder::error::CircuitError;

#[test]
fn digit_and_test() {
    let (zero, one) = (Digit('0'), Digit('1'));

    assert_eq!(zero.and(zero).0, '0');
    assert_eq!(zero.and(one).0, '0');
    assert_eq!(one.and(zero).0, '0');
    assert_eq!(one.and(one).0, '1');
}

#[test]
fn digit_or_test() {
    let (zero, one) = (Digit('0'), Digit('1'));

    assert_eq!(zero.or(zero).0, '0');
    assert_eq!(zero.or(one).0, '1');
    assert_eq!(one.or(zero).0, '1');
    assert_eq!(one.or(one).0, '1');
}

#[test]
fn digit_xor_test() {
    let (zero, one) = (Digit('0'), Digit('1'));

    assert_eq!(zero.xor(zero).0, '0');
    assert_eq!(zero.xor(one).0, '1');
    assert_eq!(one.xor(zero).0, '1');
    assert_eq!(one.xor(one).0, '0');
}

#[test]
fn digit_not_test() {
    let (zero, one) = (Digit('0'), Digit('1'));

    assert_eq!(zero.not().0, '1');
    assert_eq!(one.not().0, '0');
}

#[test]
fn digit_new_accepts_valid_symbols() {
    assert_eq!(Digit::new('0'), Ok(Digit('0')));
    assert_eq!(Digit::new('1'), Ok(Digit('1')));
}

#[test]
fn digit_new_rejects_invalid_symbols() {
    assert_eq!(Digit::new('2'), Err(CircuitError::InvalidDigitSymbol));
    assert_eq!(Digit::new('x'), Err(CircuitError::InvalidDigitSymbol));
    assert_eq!(Digit::new(' '), Err(CircuitError::InvalidDigitSymbol));
}

#[test]
fn digit_equality_is_structural() {
    let (zero, one) = (Digit('0'), Digit('1'));

    assert_eq!(zero, zero);
    assert_eq!(one, one);
    assert_ne!(zero, one);
    assert_ne!(one, zero);
}
