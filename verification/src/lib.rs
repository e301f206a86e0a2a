//! A bit-level model of binary logic: single-bit digits with the four
//! primitive gates (AND, OR, XOR, NOT), composed into half-adder,
//! full-adder and a fixed-width four-digit ripple-carry adder.

pub mod digit;
pub mod error;
pub mod operator;
