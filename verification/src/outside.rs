//! Everything this library takes on trust.
//!
//! Each item below stands for a function of another crate. Its contract is
//! believed, not proved; the doc comment says which function it is and what is
//! claimed of it. All other code of the library is verified against these
//! contracts.

use crypto::digest::Digest;
use crypto::sha1::Sha1;
use rand::Rng;
use regex::Regex;
use rustc_serialize::base64::{FromBase64, ToBase64, STANDARD};
use url::Url;
use vstd::prelude::*;
use vstd::string::StringSliceAdditionalSpecFns;

verus! {

/// Number of bytes in a SHA-1 digest.
pub const SHA1_LENGTH: usize = 20;

/// Messages of this many bytes or more are beyond what the SHA-1 length
/// counter (64 bits, counting bits) can hold.
pub const SHA1_INPUT_LIMIT: u64 = 0x2000_0000_0000_0000;

/// Longest text, in bytes, that this library hands to the URL parser. The
/// limit is the library's own: the parser keeps offsets as `u32` and fails
/// only near 4 GiB of serialised URL, and a parsed URL can be several times
/// as long as its text, so the limit is set far below that.
pub const URL_INPUT_LIMIT: usize = 0x10_0000;

/// The SHA-1 digest of `message`: what `crypto::sha1::Sha1` yields after the
/// whole message has been fed to a fresh hasher.
pub uninterp spec fn sha1_digest(message: Seq<u8>) -> Seq<u8>;

/// The bytes that `rustc_serialize::base64::FromBase64::from_base64` decodes
/// `text` to, or `None` where it reports an error.
pub uninterp spec fn base64_decoded(text: Seq<char>) -> Option<Seq<u8>>;

/// The text that `rustc_serialize::base64::ToBase64::to_base64` produces for
/// `data` under the `STANDARD` configuration.
pub uninterp spec fn base64_encoded(data: Seq<u8>) -> Seq<char>;

/// Whether `regex::Regex::new` accepts `pattern`.
pub uninterp spec fn regex_compiles(pattern: Seq<char>) -> bool;

/// Whether the regular expression compiled from `pattern` has a match
/// somewhere in `haystack` (`regex::Regex::is_match`).
pub uninterp spec fn regex_matches(pattern: Seq<char>, haystack: Seq<char>) -> bool;

/// The serialisation of the URL parsed from `url` after the query pair
/// `name=value` has been appended to it, or `None` where `url::Url::parse`
/// rejects `url`.
pub uninterp spec fn url_with_pair(url: Seq<char>, name: Seq<char>, value: Seq<char>) -> Option<
    Seq<char>,
>;

/// The string values of the TOML document parsed from `data`, each under the
/// path of keys that leads to it (one key for a value at the top, the table's
/// name and a key for a value inside a table), or `None` where `data` is not
/// a TOML document.
pub uninterp spec fn toml_document(data: Seq<char>) -> Option<Map<Seq<Seq<char>>, Seq<char>>>;

/// The name/value pairs that `url::form_urlencoded::parse` reads from a form
/// body, in the order they occur.
pub uninterp spec fn form_decoded(body: Seq<char>) -> Seq<(Seq<char>, Seq<char>)>;

/// A character of the alphabet `A-Z`, `a-z`, `0-9`.
pub open spec fn is_alphanumeric(c: char) -> bool {
    ||| 'A' <= c <= 'Z'
    ||| 'a' <= c <= 'z'
    ||| '0' <= c <= '9'
}

/// Calls `Sha1::new`, `Digest::input` and `Digest::result` of the `crypto`
/// crate. Claimed: the returned bytes are the SHA-1 digest of `message`, and
/// there are `Digest::output_bytes()` = 20 of them. The hasher panics when the
/// bit length of its input overflows 64 bits; such messages are excluded.
#[verifier::external_body]
pub(crate) fn sha1(message: &[u8]) -> (digest: Vec<u8>)
    requires
        message@.len() < SHA1_INPUT_LIMIT,
    ensures
        digest@ == sha1_digest(message@),
        digest@.len() == SHA1_LENGTH,
{
    let mut hasher = Sha1::new();
    hasher.input(message);
    let mut digest = vec![0u8; hasher.output_bytes()];
    hasher.result(&mut digest);
    digest
}

/// Calls `FromBase64::from_base64` of the `rustc_serialize` crate on a string
/// slice. Claimed: the result is the decoding named by [`base64_decoded`],
/// with every decoding error mapped to `None`.
#[verifier::external_body]
pub(crate) fn base64_decode(text: &str) -> (decoded: Option<Vec<u8>>)
    ensures
        match decoded {
            Some(bytes) => base64_decoded(text@) == Some(bytes@),
            None => base64_decoded(text@) is None,
        },
{
    text.from_base64().ok()
}

/// Calls `ToBase64::to_base64` of the `rustc_serialize` crate with the
/// `STANDARD` configuration. Claimed: the result is the encoding named by
/// [`base64_encoded`], and decoding it with `from_base64` gives `data` back.
/// The encoder computes the output length as `(len + 2) / 3 * 4`, which must
/// fit in `usize`.
#[verifier::external_body]
pub(crate) fn base64_encode(data: &[u8]) -> (text: String)
    requires
        data@.len() <= usize::MAX / 2,
    ensures
        text@ == base64_encoded(data@),
        base64_decoded(text@) == Some(data@),
{
    data.to_base64(STANDARD)
}

/// Calls `rand::thread_rng` and `Rng::gen_ascii_chars` of the `rand` crate and
/// collects the first `length` characters. Claimed of every outcome: there
/// are exactly `length` characters, each from `A-Z`, `a-z`, `0-9`. Nothing is
/// claimed about which ones.
#[verifier::external_body]
pub(crate) fn random_alphanumeric(length: usize) -> (text: String)
    ensures
        text@.len() == length,
        forall|i: int| 0 <= i < text@.len() ==> is_alphanumeric(#[trigger] text@[i]),
{
    rand::thread_rng().gen_ascii_chars().take(length).collect()
}

/// Calls `Regex::new` and, where that succeeds, `Regex::is_match` of the
/// `regex` crate. Claimed: the result is `None` exactly when the pattern is
/// refused, and otherwise tells whether the compiled expression matches
/// somewhere in `haystack`.
#[verifier::external_body]
pub(crate) fn regex_is_match(pattern: &str, haystack: &str) -> (found: Option<bool>)
    ensures
        found == if regex_compiles(pattern@) {
            Some(regex_matches(pattern@, haystack@))
        } else {
            None
        },
{
    match Regex::new(pattern) {
        Ok(compiled) => Some(compiled.is_match(haystack)),
        Err(_) => None,
    }
}

/// Calls `Url::parse`, `Url::query_pairs_mut`, `Serializer::append_pair` and
/// `Url::into_string` of the `url` crate. Claimed: the result is the
/// serialisation named by [`url_with_pair`], `None` where the text is not an
/// absolute URL. The crate keeps offsets into the serialisation as `u32` and
/// panics when one does not fit, so long inputs are excluded.
#[verifier::external_body]
pub(crate) fn url_append_pair(url: &str, name: &str, value: &str) -> (extended: Option<String>)
    requires
        url.spec_bytes().len() + name.spec_bytes().len() + value.spec_bytes().len()
            <= URL_INPUT_LIMIT,
    ensures
        match extended {
            Some(text) => url_with_pair(url@, name@, value@) == Some(text@),
            None => url_with_pair(url@, name@, value@) is None,
        },
{
    match Url::parse(url) {
        Ok(mut parsed) => {
            parsed.query_pairs_mut().append_pair(name, value);
            Some(parsed.into_string())
        },
        Err(_) => None,
    }
}

/// Calls `time::get_time` of the `time` crate. Claimed of every outcome: the
/// nanosecond part lies in `0 .. 1_000_000_000`, which `Timespec::new`
/// asserts. Nothing is claimed about the seconds.
#[verifier::external_body]
pub(crate) fn clock_now() -> (now: (i64, i32))
    ensures
        0 <= now.1 < 1_000_000_000,
{
    let now = time::get_time();
    (now.sec, now.nsec)
}

/// Calls `str::parse::<toml::Table>` of the `toml` crate. Claimed: the result
/// tells whether `data` is a TOML document.
#[verifier::external_body]
pub(crate) fn toml_is_document(data: &str) -> (parsed: bool)
    ensures
        parsed == (toml_document(data@) is Some),
{
    data.parse::<toml::Table>().is_ok()
}

/// Calls `str::parse::<toml::Table>` and `Map::get` of the `toml` crate.
/// Claimed: the result is the string bound to `key` at the top of the
/// document, `None` where `data` is no document, has no such key, or binds
/// it to something that is not a string.
#[verifier::external_body]
pub(crate) fn toml_top_string(data: &str, key: &str) -> (value: Option<String>)
    ensures
        match value {
            Some(text) => toml_document(data@) matches Some(document) && document.contains_key(
                seq![key@],
            ) && document[seq![key@]] == text@,
            None => toml_document(data@) matches Some(document) ==> !document.contains_key(
                seq![key@],
            ),
        },
{
    match data.parse::<toml::Table>().ok()?.get(key) {
        Some(toml::Value::String(text)) => Some(text.clone()),
        _ => None,
    }
}

/// Calls `str::parse::<toml::Table>` and `Map::get` of the `toml` crate.
/// Claimed: the result is the string bound to `key` inside the table named
/// `table`, `None` where `data` is no document, has no such table, or the
/// table does not bind `key` to a string.
#[verifier::external_body]
pub(crate) fn toml_table_string(data: &str, table: &str, key: &str) -> (value: Option<String>)
    ensures
        match value {
            Some(text) => toml_document(data@) matches Some(document) && document.contains_key(
                seq![table@, key@],
            ) && document[seq![table@, key@]] == text@,
            None => toml_document(data@) matches Some(document) ==> !document.contains_key(
                seq![table@, key@],
            ),
        },
{
    match data.parse::<toml::Table>().ok()?.get(table) {
        Some(toml::Value::Table(inner)) => match inner.get(key) {
            Some(toml::Value::String(text)) => Some(text.clone()),
            _ => None,
        },
        _ => None,
    }
}

/// Calls `url::form_urlencoded::parse` of the `url` crate on the bytes of
/// `body` and collects the pairs it yields, each as owned strings. Claimed:
/// the pairs are those named by [`form_decoded`], in the same order.
#[verifier::external_body]
pub(crate) fn form_pairs(body: &str) -> (pairs: Vec<(String, String)>)
    ensures
        pairs@.len() == form_decoded(body@).len(),
        forall|i: int|
            0 <= i < pairs@.len() ==> (#[trigger] pairs@[i]).0@ == form_decoded(body@)[i].0
                && pairs@[i].1@ == form_decoded(body@)[i].1,
{
    url::form_urlencoded::parse(body.as_bytes()).map(
        |(name, value)| (name.into_owned(), value.into_owned()),
    ).collect()
}

} // verus!
