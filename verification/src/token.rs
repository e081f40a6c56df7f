//! Session tokens: opaque strings of fixed length over a fixed alphabet.

use crate::outside::{is_alphanumeric, random_alphanumeric};
use vstd::prelude::*;
use vstd::string::StrSliceExecFns;

verus! {

/// Number of characters in a token.
pub const TOKEN_LENGTH: usize = 50;

/// A well-formed token: `TOKEN_LENGTH` characters, each from `A-Z`, `a-z`,
/// `0-9`.
pub open spec fn is_token(text: Seq<char>) -> bool {
    &&& text.len() == TOKEN_LENGTH
    &&& forall|i: int| 0 <= i < text.len() ==> is_alphanumeric(#[trigger] text[i])
}

/// Whether `text` is a well-formed token.
pub fn is_well_formed(text: &str) -> (ok: bool)
    ensures
        ok == is_token(text@),
{
    if text.unicode_len() != TOKEN_LENGTH {
        return false;
    }
    let mut i: usize = 0;
    while i < TOKEN_LENGTH
        invariant
            i <= TOKEN_LENGTH,
            text@.len() == TOKEN_LENGTH,
            forall|j: int| 0 <= j < i ==> is_alphanumeric(#[trigger] text@[j]),
        decreases TOKEN_LENGTH - i,
    {
        let c = text.get_char(i);
        if !(('A' <= c && c <= 'Z') || ('a' <= c && c <= 'z') || ('0' <= c && c <= '9')) {
            return false;
        }
        i += 1;
    }
    true
}

/// A fresh token. Each call draws its characters anew; nothing relates the
/// tokens of two calls.
pub fn generate() -> (token: String)
    ensures
        is_token(token@),
{
    random_alphanumeric(TOKEN_LENGTH)
}

} // verus!
