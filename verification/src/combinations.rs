//! The combinatorics utility: `2^(n-1)` for a word of `n` characters.

use vstd::prelude::*;
use vstd::arithmetic::power2::{lemma2_to64, lemma_pow2_strictly_increases, lemma_pow2_unfold, pow2};
use vstd::string::*;
use crate::error::ComputeError;

verus! {

/// The longest word whose count still fits a signed 32-bit integer.
pub const MAX_WORD_LENGTH: usize = 31;

/// The count for a word of `n` characters: `2^(n-1)`. The empty word has no
/// count, and a word of more than `MAX_WORD_LENGTH` characters has one that
/// does not fit.
pub open spec fn combinations(n: nat) -> Result<i32, ComputeError> {
    if n == 0 {
        Err(ComputeError::InvalidInput)
    } else if n > MAX_WORD_LENGTH {
        Err(ComputeError::Overflow)
    } else {
        Ok(pow2((n - 1) as nat) as i32)
    }
}

/// Counts the combinations of `word`, whose length is its number of Unicode
/// scalar values, not of bytes.
pub fn count_combinations(word: &str) -> (count: Result<i32, ComputeError>)
    ensures
        count == combinations(word@.len()),
{
    let n: usize = word.unicode_len();
    if n == 0 {
        return Err(ComputeError::InvalidInput);
    }
    if n > MAX_WORD_LENGTH {
        return Err(ComputeError::Overflow);
    }
    let mut count: i32 = 1;
    let mut length: usize = 1;
    proof {
        lemma2_to64();
    }
    while length < n
        invariant
            1 <= length <= n <= MAX_WORD_LENGTH,
            count == pow2((length - 1) as nat),
        decreases n - length,
    {
        proof {
            lemma2_to64();
            lemma_pow2_unfold(length as nat);
            lemma_pow2_strictly_increases(length as nat, 31);
        }
        count = count * 2;
        length += 1;
    }
    Ok(count)
}

/// Every count is a positive power of two below `2^31`.
pub proof fn lemma_count_in_range(n: nat)
    requires
        1 <= n <= MAX_WORD_LENGTH,
    ensures
        1 <= pow2((n - 1) as nat) < 0x8000_0000,
        combinations(n) matches Ok(count) && count == pow2((n - 1) as nat),
{
    lemma2_to64();
    if n > 1 {
        lemma_pow2_strictly_increases(0, (n - 1) as nat);
    }
    lemma_pow2_strictly_increases((n - 1) as nat, 31);
}

/// One character more doubles the count, as long as it fits.
pub proof fn lemma_count_doubles(n: nat)
    requires
        1 <= n < MAX_WORD_LENGTH,
    ensures
        combinations(n) matches Ok(count) && combinations(n + 1) == Ok::<i32, ComputeError>(
            (2 * count) as i32,
        ),
{
    lemma_count_in_range(n);
    lemma_count_in_range(n + 1);
    lemma_pow2_unfold(n);
}

} // verus!
