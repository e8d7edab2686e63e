//! Key derivation: private keys, public keys and shared secrets.

use crate::modular::{lemma_mod_pow_of_mod_pow, mod_pow, modular_pow};
use crate::random::random_in_range;
use vstd::prelude::*;

verus! {

/// Draws a private key for the prime modulus `prime_number`: an exponent in
/// the closed interval `1 ..= prime_number`.
///
/// The upper bound is the modulus itself, so `prime_number` is a possible
/// key.  The interval is empty for zero, which is therefore excluded.
pub fn private_key(prime_number: u64) -> (key: u64)
    requires
        prime_number >= 1,
    ensures
        1 <= key <= prime_number,
{
    random_in_range(1, prime_number)
}

/// The public key that belongs to `private_key`: `g` raised to it, modulo
/// `p`.
pub fn public_key(p: u64, g: u64, private_key: u64) -> (key: u64)
    requires
        p > 0,
    ensures
        key == mod_pow(g as int, private_key as nat, p as int),
        key < p,
{
    modular_pow(g, private_key, p)
}

/// The secret shared with the owner of `public_key`: the other party's
/// public key raised to one's own `private_key`, modulo `p`.
pub fn secret(p: u64, public_key: u64, private_key: u64) -> (shared: u64)
    requires
        p > 0,
    ensures
        shared == mod_pow(public_key as int, private_key as nat, p as int),
        shared < p,
{
    modular_pow(public_key, private_key, p)
}

/// Key agreement.  For every modulus `p > 0`, generator `g` and private keys
/// `a` and `b`, both parties arrive at the same secret: raising the public
/// key of `a` to `b` gives what raising the public key of `b` to `a` gives.
pub proof fn lemma_shared_secret_agrees(p: int, g: int, a: nat, b: nat)
    requires
        p > 0,
    ensures
        mod_pow(mod_pow(g, a, p), b, p) == mod_pow(mod_pow(g, b, p), a, p),
{
    lemma_mod_pow_of_mod_pow(g, a, b, p);
    lemma_mod_pow_of_mod_pow(g, b, a, p);
    assert(a * b == b * a) by (nonlinear_arith);
}

} // verus!
