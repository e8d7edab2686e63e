//! Choosing a modulus or a generator from a list of primes.

use crate::random::random_in_range;
use vstd::prelude::*;

verus! {

/// Why no prime could be selected.
#[derive(Debug, Clone, Copy, PartialEq, Eq, Structural)]
pub enum SelectionError {
    /// The list of primes to choose from holds no element.
    EmptyInput,
}

/// The prime that a draw designates.  Draws count from one: draw `1` is the
/// first element of `primes`, draw `primes.len()` the last.  Any other draw
/// designates nothing.
pub open spec fn drawn_prime(primes: Seq<u64>, draw: int) -> Option<u64> {
    if 1 <= draw <= primes.len() {
        Some(primes[draw - 1])
    } else {
        None
    }
}

/// Looks up the prime that `draw` designates in `primes`.
pub fn prime_at_draw(primes: &Vec<u64>, draw: u64) -> (picked: Option<u64>)
    ensures
        picked == drawn_prime(primes@, draw as int),
{
    if draw == 0 || draw > primes.len() as u64 {
        None
    } else {
        Some(primes[(draw - 1) as usize])
    }
}

/// Picks one element of `primes` at random, by a draw from
/// `1 ..= primes.len()`.
///
/// An empty list is reported as [`SelectionError::EmptyInput`]; every other
/// list yields one of its elements.  Which one is left to chance:
/// [`prime_at_draw`] says what each draw selects.
pub fn prime_number_selection(primes: &Vec<u64>) -> (selected: Result<u64, SelectionError>)
    ensures
        selected is Err <==> primes@.len() == 0,
        selected matches Err(error) ==> error == SelectionError::EmptyInput,
        selected matches Ok(prime) ==> exists|draw: int|
            1 <= draw <= primes@.len() && #[trigger] drawn_prime(primes@, draw) == Some(prime),
{
    let count: usize = primes.len();
    if count == 0 {
        return Err(SelectionError::EmptyInput);
    }
    let draw: u64 = random_in_range(1, count as u64);
    prime_at_draw(primes, draw).ok_or(SelectionError::EmptyInput)
}

} // verus!
