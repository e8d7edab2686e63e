//! Two-party Diffie-Hellman key exchange over a prime field, with the
//! arithmetic verified.
//!
//! * [`modular`] holds modular exponentiation and the facts proved about it.
//! * [`keys`] derives private keys, public keys and shared secrets.
//! * [`selection`] picks a modulus or generator from a list of primes.
//! * `random` wraps the random number generator both of them draw from.

pub mod keys;
pub mod modular;
mod random;
pub mod selection;

pub use keys::{private_key, public_key, secret};
pub use modular::modular_pow;
pub use selection::{prime_at_draw, prime_number_selection, SelectionError};
