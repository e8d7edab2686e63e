//! Modular exponentiation on 64-bit unsigned integers.

use vstd::arithmetic::div_mod::{lemma_mul_mod_noop_general, lemma_small_mod};
use vstd::arithmetic::power::{
    lemma_pow0, lemma_pow1, lemma_pow_adds, lemma_pow_mod_noop, lemma_pow_multiplies,
    lemma_square_is_pow2, pow,
};
use vstd::prelude::*;

verus! {

/// The residue of `base` raised to the power `exponent`, modulo `modulus`.
///
/// Meaningful for `modulus > 0`; the result then lies in `0 .. modulus`.
pub open spec fn mod_pow(base: int, exponent: nat, modulus: int) -> int {
    pow(base, exponent) % modulus
}

/// A modular power is a residue: it lies in `0 .. modulus`.
pub proof fn lemma_mod_pow_range(base: int, exponent: nat, modulus: int)
    requires
        modulus > 0,
    ensures
        0 <= mod_pow(base, exponent, modulus) < modulus,
{
}

/// Modulo one every power is zero.
pub proof fn lemma_mod_pow_modulus_one(base: int, exponent: nat)
    ensures
        mod_pow(base, exponent, 1) == 0,
{
}

/// The zeroth power is one, whatever the base, for every modulus above one.
pub proof fn lemma_mod_pow_exponent_zero(base: int, modulus: int)
    requires
        modulus > 1,
    ensures
        mod_pow(base, 0, modulus) == 1,
{
    lemma_pow0(base);
    lemma_small_mod(1, modulus as nat);
}

/// Reducing the base modulo the modulus first does not change the power's
/// residue.
pub proof fn lemma_mod_pow_reduced_base(base: int, exponent: nat, modulus: int)
    requires
        modulus > 0,
    ensures
        mod_pow(base % modulus, exponent, modulus) == mod_pow(base, exponent, modulus),
{
    lemma_pow_mod_noop(base, exponent, modulus);
}

/// Raising a modular power to a further power multiplies the exponents.
pub proof fn lemma_mod_pow_of_mod_pow(base: int, first: nat, second: nat, modulus: int)
    requires
        modulus > 0,
    ensures
        mod_pow(mod_pow(base, first, modulus), second, modulus) == mod_pow(
            base,
            first * second,
            modulus,
        ),
{
    lemma_pow_mod_noop(pow(base, first), second, modulus);
    lemma_pow_multiplies(base, first, second);
}

/// One round of square-and-multiply keeps `acc * base^exponent` unchanged
/// modulo `modulus`: the low bit of the exponent is folded into the
/// accumulator, the base is squared and the exponent halved.
proof fn lemma_square_and_multiply_round(acc: int, base: int, exponent: nat, modulus: int)
    requires
        modulus > 0,
        exponent > 0,
    ensures
        exponent % 2 == 1 ==> (((acc * base) % modulus) * pow(
            (base * base) % modulus,
            exponent / 2,
        )) % modulus == (acc * pow(base, exponent)) % modulus,
        exponent % 2 == 0 ==> (acc * pow((base * base) % modulus, exponent / 2)) % modulus == (acc
            * pow(base, exponent)) % modulus,
{
    let half: nat = exponent / 2;
    let squared: int = base * base;
    // base^(2 * half) == (base * base)^half
    assert(pow(base, 2 * half) == pow(squared, half)) by {
        lemma_square_is_pow2(base);
        lemma_pow_multiplies(base, 2, half);
    }
    // squaring may be reduced modulo `modulus` along the way
    let tail: int = pow(squared % modulus, half);
    assert(tail % modulus == pow(squared, half) % modulus) by {
        lemma_pow_mod_noop(squared, half, modulus);
    }
    if exponent % 2 == 1 {
        assert(exponent == 2 * half + 1);
        assert(pow(base, exponent) == pow(squared, half) * base) by {
            lemma_pow_adds(base, 2 * half, 1);
            lemma_pow1(base);
        }
        let head: int = acc * base;
        assert((head % modulus) * tail % modulus == head * pow(squared, half) % modulus) by {
            lemma_mul_mod_noop_general(head, tail, modulus);
            lemma_mul_mod_noop_general(head, pow(squared, half), modulus);
        }
        let rest: int = pow(squared, half);
        assert((acc * base) * rest == acc * (rest * base)) by (nonlinear_arith);
    } else {
        assert(exponent == 2 * half);
        assert(acc * tail % modulus == acc * pow(squared, half) % modulus) by {
            lemma_mul_mod_noop_general(acc, tail, modulus);
            lemma_mul_mod_noop_general(acc, pow(squared, half), modulus);
        }
    }
}

/// Computes `base` to the power `exponent` modulo `modulus` by the
/// right-to-left binary method, in a number of rounds equal to the bit
/// length of `exponent`.
///
/// Products are formed in 128 bits, so operands near `2^64` are handled
/// exactly.  The result depends on the arguments alone: equal arguments
/// always give equal results.
pub fn modular_pow(base: u64, exponent: u64, modulus: u64) -> (result: u64)
    requires
        modulus > 0,
    ensures
        result == mod_pow(base as int, exponent as nat, modulus as int),
        result < modulus,
        modulus == 1 ==> result == 0,
        exponent == 0 && modulus > 1 ==> result == 1,
{
    proof {
        lemma_mod_pow_range(base as int, exponent as nat, modulus as int);
        lemma_mod_pow_modulus_one(base as int, exponent as nat);
    }
    if modulus == 1 {
        return 0;
    }
    proof {
        lemma_mod_pow_exponent_zero(base as int, modulus as int);
    }
    let wide_modulus: u128 = modulus as u128;
    let mut result: u128 = 1;
    let mut square: u128 = (base % modulus) as u128;
    let mut remaining: u64 = exponent;
    proof {
        lemma_mod_pow_reduced_base(base as int, exponent as nat, modulus as int);
    }
    while remaining > 0
        invariant
            modulus > 1,
            wide_modulus == modulus,
            result < wide_modulus,
            square < wide_modulus,
            (result * pow(square as int, remaining as nat)) % (modulus as int) == mod_pow(
                base as int,
                exponent as nat,
                modulus as int,
            ),
        decreases remaining,
    {
        proof {
            lemma_square_and_multiply_round(
                result as int,
                square as int,
                remaining as nat,
                modulus as int,
            );
            assert(result * square < 0x1_0000_0000_0000_0000_0000_0000_0000_0000)
                by (nonlinear_arith)
                requires
                    result < 0x1_0000_0000_0000_0000,
                    square < 0x1_0000_0000_0000_0000,
            ;
            assert(square * square < 0x1_0000_0000_0000_0000_0000_0000_0000_0000)
                by (nonlinear_arith)
                requires
                    square < 0x1_0000_0000_0000_0000,
            ;
            assert(remaining >> 1 == remaining / 2) by (bit_vector);
        }
        if remaining % 2 == 1 {
            result = (result * square) % wide_modulus;
        }
        remaining = remaining >> 1;
        square = (square * square) % wide_modulus;
    }
    proof {
        lemma_pow0(square as int);
        lemma_small_mod(result as nat, modulus as nat);
    }
    result as u64
}

} // verus!
