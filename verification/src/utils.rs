//! Small helpers: percent-encoding of a continuation for display, and the
//! clock in milliseconds.

use crate::outside::clock_now;
use vstd::prelude::*;
use vstd::string::{StrSliceExecFns, StringExecFns, StringSliceAdditionalSpecFns};
use vstd::utf8::encode_utf8;

verus! {

/// Whether a character passes unescaped: printable ASCII other than space,
/// `"`, `#`, `<`, `>`, `` ` ``, `?`, `{`, `}`, `/`, `:`, `;`, `=`, `@`, `[`,
/// `\`, `]`, `^`, `|` and `&`.
pub open spec fn is_kept(c: char) -> bool {
    &&& ' ' < c <= '~'
    &&& c != '"' && c != '#' && c != '<' && c != '>'
    &&& c != '`' && c != '?' && c != '{' && c != '}'
    &&& c != '/' && c != ':' && c != ';' && c != '=' && c != '@'
    &&& c != '[' && c != '\\' && c != ']' && c != '^' && c != '|' && c != '&'
}

/// The digits of upper-case hexadecimal.
pub open spec fn hex_digits() -> Seq<char> {
    "0123456789ABCDEF"@
}

/// The percent escape of a byte: `%` and the two upper-case hexadecimal
/// digits of its value.
pub open spec fn percent_escape(byte: u8) -> Seq<char> {
    seq!['%', hex_digits()[(byte / 16) as int], hex_digits()[(byte % 16) as int]]
}

/// The percent escapes of `bytes`, one after the other.
pub open spec fn escapes(bytes: Seq<u8>) -> Seq<char>
    decreases bytes.len(),
{
    if bytes.len() == 0 {
        Seq::<char>::empty()
    } else {
        escapes(bytes.drop_last()) + percent_escape(bytes.last())
    }
}

/// What one character becomes: itself where it is kept, else the escapes of
/// the bytes of its UTF-8 encoding.
pub open spec fn encoded_char(c: char) -> Seq<char> {
    if is_kept(c) {
        seq![c]
    } else {
        escapes(encode_utf8(seq![c]))
    }
}

/// The percent-encoding of `text`.
pub open spec fn encoded_url(text: Seq<char>) -> Seq<char>
    decreases text.len(),
{
    if text.len() == 0 {
        Seq::<char>::empty()
    } else {
        encoded_url(text.drop_last()) + encoded_char(text.last())
    }
}

/// Milliseconds since the epoch for a time given as seconds and nanoseconds
/// within the second. A time before the epoch counts as 0; one beyond the
/// range of `u64` as `u64::MAX`.
pub open spec fn millis_of(sec: i64, nsec: u32) -> u64 {
    if sec < 0 {
        0
    } else if sec * 1000 + nsec / 1_000_000 > u64::MAX {
        u64::MAX
    } else {
        (sec * 1000 + nsec / 1_000_000) as u64
    }
}

/// Whether a character passes unescaped.
fn kept(c: char) -> (keep: bool)
    ensures
        keep == is_kept(c),
{
    ' ' < c && c <= '~' && c != '"' && c != '#' && c != '<' && c != '>' && c != '`' && c != '?'
        && c != '{' && c != '}' && c != '/' && c != ':' && c != ';' && c != '=' && c != '@' && c
        != '[' && c != '\\' && c != ']' && c != '^' && c != '|' && c != '&'
}

/// Appends the percent escape of `byte` to `text`.
fn append_escape(text: &mut String, byte: u8)
    ensures
        final(text)@ == old(text)@ + percent_escape(byte),
{
    let digits = "0123456789ABCDEF";
    proof {
        reveal_strlit("0123456789ABCDEF");
        reveal_strlit("%");
    }
    let high: usize = (byte / 16) as usize;
    let low: usize = (byte % 16) as usize;
    let first = digits.substring_char(high, high + 1);
    let second = digits.substring_char(low, low + 1);
    assert(first@ =~= seq![hex_digits()[(byte / 16) as int]]);
    assert(second@ =~= seq![hex_digits()[(byte % 16) as int]]);
    text.append("%");
    text.append(first);
    text.append(second);
    assert(text@ =~= old(text)@ + percent_escape(byte));
}

/// Percent-encodes `url` for use inside another URL or a page.
pub fn encode_url(url: &str) -> (encoded: String)
    ensures
        encoded@ == encoded_url(url@),
{
    let length = url.unicode_len();
    let mut encoded = String::new();
    let mut i: usize = 0;
    while i < length
        invariant
            i <= length,
            length == url@.len(),
            encoded@ == encoded_url(url@.take(i as int)),
        decreases length - i,
    {
        proof {
            let next = url@.take(i as int + 1);
            assert(next.drop_last() =~= url@.take(i as int));
        }
        let c = url.get_char(i);
        let piece = url.substring_char(i, i + 1);
        assert(piece@ =~= seq![c]);
        if kept(c) {
            encoded.append(piece);
        } else {
            let bytes = piece.as_bytes();
            let ghost before = encoded@;
            let mut j: usize = 0;
            while j < bytes.len()
                invariant
                    j <= bytes@.len(),
                    encoded@ == before + escapes(bytes@.take(j as int)),
                decreases bytes@.len() - j,
            {
                proof {
                    let next = bytes@.take(j as int + 1);
                    assert(next.drop_last() =~= bytes@.take(j as int));
                }
                append_escape(&mut encoded, bytes[j]);
                j += 1;
            }
            assert(bytes@.take(bytes@.len() as int) =~= bytes@);
        }
        i += 1;
    }
    assert(url@.take(length as int) =~= url@);
    encoded
}

/// Milliseconds since the epoch for a time given as seconds and nanoseconds
/// within the second.
pub fn millis_since_epoch(sec: i64, nsec: u32) -> (millis: u64)
    ensures
        millis == millis_of(sec, nsec),
{
    if sec < 0 {
        return 0;
    }
    let total: u128 = (sec as u128) * 1000 + ((nsec / 1_000_000) as u128);
    if total > u64::MAX as u128 {
        u64::MAX
    } else {
        total as u64
    }
}

/// The current time in milliseconds since the epoch. The clock is read
/// once; nothing relates the results of two calls.
pub fn current_time_millis() -> u64 {
    let (sec, nsec) = clock_now();
    millis_since_epoch(sec, nsec as u32)
}

} // verus!
