//! Entry points of the flipper core: fixed-width arithmetic, the serial-output
//! placeholder, and the model of the core's fault state.
use vstd::prelude::*;

pub mod fault;

verus! {

/// The number of distinct `u32` values: the modulus of 32-bit arithmetic.
pub open spec fn u32_modulus() -> int {
    0x1_0000_0000
}

/// The sum of two 32-bit words taken modulo 2^32, as fixed-width unsigned
/// addition computes it.
pub open spec fn wrapped_sum(a: u32, b: u32) -> int {
    (a as int + b as int) % u32_modulus()
}

/// Adds two 32-bit words with wrap-around: overflow drops the carry and is no
/// error. Defined for every pair of inputs.
pub fn add(a: u32, b: u32) -> (r: u32)
    ensures
        r as int == wrapped_sum(a, b),
{
    a.wrapping_add(b)
}

/// Addition modulo 2^32 does not depend on the order of its operands.
pub proof fn lemma_add_commutative(a: u32, b: u32)
    ensures
        wrapped_sum(a, b) == wrapped_sum(b, a),
{
}

/// Zero is the identity of addition modulo 2^32: adding it gives back the word.
pub proof fn lemma_add_zero_identity(a: u32)
    ensures
        wrapped_sum(a, 0) == a as int,
{
}

/// Writes the core's diagnostic line to the serial port. No device access is
/// wired up yet, so the call returns at once and changes nothing.
pub fn rust_uart_write() {
}

} // verus!
