//! Token estimation: one token per four characters, rounded half up.
use vstd::prelude::*;
use vstd::string::*;

use super::consts::CHARS_PER_TOKEN;

verus! {

/// Estimated token count of a text of `n` characters: `round(n / 4)` with halves rounded up.
pub open spec fn estimate_tokens(n: nat) -> nat {
    (n + 2) / 4
}

/// Estimated number of tokens in `input`, counting characters (not bytes).
pub fn estimate(input: &str) -> (r: usize)
    ensures
        r == estimate_tokens(input@.len()),
{
    let n = input.unicode_len();
    let q = n / CHARS_PER_TOKEN;
    let rem = n % CHARS_PER_TOKEN;
    if rem >= CHARS_PER_TOKEN / 2 {
        q + 1
    } else {
        q
    }
}

} // verus!
