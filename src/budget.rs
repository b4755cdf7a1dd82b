use vstd::prelude::*;

verus! {

/// Default approximate token budget for the diff.
pub const MAX_TOKENS: usize = 50_000;

/// Default number of characters counted as one token.
pub const CHARS_PER_TOKEN: usize = 4;

/// Approximate token count of a text of `char_count` characters.
pub open spec fn estimate_spec(char_count: nat, chars_per_token: nat) -> nat {
    char_count / chars_per_token
}

/// Approximate number of tokens in `text`: its length in characters divided
/// by `chars_per_token`, truncating.
pub fn estimate(text: &str, chars_per_token: usize) -> (r: usize)
    requires
        chars_per_token > 0,
    ensures
        r == estimate_spec(text@.len(), chars_per_token as nat),
{
    text.unicode_len() / chars_per_token
}

/// Whether `token_count` goes beyond the budget `max_tokens`.
pub fn is_over_budget(token_count: usize, max_tokens: usize) -> (r: bool)
    ensures
        r == (token_count > max_tokens),
{
    token_count > max_tokens
}

} // verus!
