//! Verification of salted SHA-1 credentials.
//!
//! A stored credential has the form `{SSHA}<base64>`, where the base64 text
//! decodes to a 20-byte digest followed by the salt. A password is accepted
//! when the SHA-1 digest of the password bytes followed by the salt equals the
//! stored digest.

use crate::outside::{
    base64_decode, base64_decoded, base64_encode, base64_encoded, sha1, sha1_digest,
    SHA1_INPUT_LIMIT, SHA1_LENGTH,
};
use vstd::prelude::*;
use vstd::string::{StrSliceExecFns, StringExecFns, StringSliceAdditionalSpecFns};

verus! {

/// Number of characters in the algorithm tag.
pub const TAG_LENGTH: usize = 6;

/// The outcome of checking a password against a stored credential.
#[derive(Clone, Copy, Debug, PartialEq, Eq, Structural)]
pub enum CredentialCheck {
    /// The password matches the credential.
    Accepted,
    /// The credential does not begin with `{SSHA}`.
    UnsupportedAlgorithm,
    /// The text after the tag is not base64, or decodes to fewer than 20
    /// bytes.
    MalformedCredential,
    /// The credential is well formed and the password does not match it.
    PasswordMismatch,
}

/// The algorithm tag `{SSHA}`.
pub open spec fn ssha_tag() -> Seq<char> {
    seq!['{', 'S', 'S', 'H', 'A', '}']
}

/// Whether `stored` begins with the algorithm tag.
pub open spec fn has_ssha_tag(stored: Seq<char>) -> bool {
    stored.len() >= TAG_LENGTH && stored.take(TAG_LENGTH as int) == ssha_tag()
}

/// The digest part of a payload: its first 20 bytes.
pub open spec fn payload_digest(payload: Seq<u8>) -> Seq<u8> {
    payload.take(SHA1_LENGTH as int)
}

/// The salt part of a payload: everything after the digest.
pub open spec fn payload_salt(payload: Seq<u8>) -> Seq<u8> {
    payload.skip(SHA1_LENGTH as int)
}

/// Whether the digest of `candidate` followed by the salt of `payload` is the
/// digest of `payload`. A salted message too long for SHA-1 matches nothing.
pub open spec fn payload_accepts(payload: Seq<u8>, candidate: Seq<u8>) -> bool {
    &&& payload.len() >= SHA1_LENGTH
    &&& candidate.len() + payload_salt(payload).len() < SHA1_INPUT_LIMIT
    &&& sha1_digest(candidate + payload_salt(payload)) == payload_digest(payload)
}

/// The outcome of checking the password bytes `candidate` against `stored`.
pub open spec fn credential_check(stored: Seq<char>, candidate: Seq<u8>) -> CredentialCheck {
    if !has_ssha_tag(stored) {
        CredentialCheck::UnsupportedAlgorithm
    } else {
        match base64_decoded(stored.skip(TAG_LENGTH as int)) {
            None => CredentialCheck::MalformedCredential,
            Some(payload) => if payload.len() < SHA1_LENGTH {
                CredentialCheck::MalformedCredential
            } else if payload_accepts(payload, candidate) {
                CredentialCheck::Accepted
            } else {
                CredentialCheck::PasswordMismatch
            },
        }
    }
}

/// Whether `stored` accepts the password bytes `candidate`.
pub open spec fn credential_accepts(stored: Seq<char>, candidate: Seq<u8>) -> bool {
    credential_check(stored, candidate) == CredentialCheck::Accepted
}

/// The credential text for a payload: the tag followed by the base64
/// encoding of the payload.
pub open spec fn ssha_text(payload: Seq<u8>) -> Seq<char> {
    ssha_tag() + base64_encoded(payload)
}

/// Whether a payload of `length` bytes can be encoded on this machine.
pub open spec fn encodable_length(length: int) -> bool {
    length <= usize::MAX / 2
}

/// Whether a password of `password` bytes and a salt of `salt` bytes can be
/// hashed and encoded on this machine.
pub open spec fn hashable_lengths(password: int, salt: int) -> bool {
    password + salt < SHA1_INPUT_LIMIT && encodable_length(salt + SHA1_LENGTH)
}

/// `payload` with one bit of the byte at `index` inverted.
pub open spec fn flip_bit(payload: Seq<u8>, index: int, bit: u8) -> Seq<u8> {
    payload.update(index, payload[index] ^ (1u8 << bit))
}

/// A credential without the `{SSHA}` tag accepts no password.
pub proof fn lemma_untagged_rejected(stored: Seq<char>, candidate: Seq<u8>)
    requires
        !has_ssha_tag(stored),
    ensures
        !credential_accepts(stored, candidate),
        credential_check(stored, candidate) == CredentialCheck::UnsupportedAlgorithm,
{
}

/// Inverting any bit of the digest part of an accepting payload makes it
/// reject the same password.
pub proof fn lemma_flipped_digest_rejected(
    payload: Seq<u8>,
    candidate: Seq<u8>,
    index: int,
    bit: u8,
)
    requires
        payload_accepts(payload, candidate),
        0 <= index < SHA1_LENGTH,
        bit < 8,
    ensures
        !payload_accepts(flip_bit(payload, index, bit), candidate),
{
    let flipped = flip_bit(payload, index, bit);
    let byte = payload[index];
    assert(byte ^ (1u8 << bit) != byte) by (bit_vector)
        requires
            bit < 8,
    ;
    assert(payload_salt(flipped) =~= payload_salt(payload));
    assert(payload_digest(flipped)[index] != payload_digest(payload)[index]);
}

/// Inverting any bit of the salt part of an accepting payload makes it reject
/// the same password, unless the two salted messages have the same SHA-1
/// digest.
pub proof fn lemma_flipped_salt_rejected(payload: Seq<u8>, candidate: Seq<u8>, index: int, bit: u8)
    requires
        payload_accepts(payload, candidate),
        SHA1_LENGTH <= index < payload.len(),
        bit < 8,
        sha1_digest(candidate + payload_salt(flip_bit(payload, index, bit))) != sha1_digest(
            candidate + payload_salt(payload),
        ),
    ensures
        !payload_accepts(flip_bit(payload, index, bit), candidate),
        payload_salt(flip_bit(payload, index, bit)) != payload_salt(payload),
{
    let flipped = flip_bit(payload, index, bit);
    let byte = payload[index];
    assert(byte ^ (1u8 << bit) != byte) by (bit_vector)
        requires
            bit < 8,
    ;
    assert(payload_digest(flipped) =~= payload_digest(payload));
}

/// Tampering seen from the credential text: if one credential accepts a
/// password and another decodes to the same payload with one digest bit
/// inverted, the other rejects that password.
pub proof fn lemma_tampered_credential_rejected(
    stored: Seq<char>,
    tampered: Seq<char>,
    candidate: Seq<u8>,
    index: int,
    bit: u8,
)
    requires
        credential_accepts(stored, candidate),
        has_ssha_tag(tampered),
        0 <= index < SHA1_LENGTH,
        bit < 8,
        base64_decoded(tampered.skip(TAG_LENGTH as int)) == Some(
            flip_bit(base64_decoded(stored.skip(TAG_LENGTH as int)).unwrap(), index, bit),
        ),
    ensures
        credential_check(tampered, candidate) == CredentialCheck::PasswordMismatch,
{
    let payload = base64_decoded(stored.skip(TAG_LENGTH as int)).unwrap();
    lemma_flipped_digest_rejected(payload, candidate, index, bit);
}

/// The bytes of `first` followed by the bytes of `second`.
fn concat_bytes(first: &[u8], second: &[u8]) -> (joined: Vec<u8>)
    ensures
        joined@ == first@ + second@,
{
    let mut joined: Vec<u8> = Vec::new();
    let mut i: usize = 0;
    while i < first.len()
        invariant
            i <= first@.len(),
            joined@ == first@.take(i as int),
        decreases first@.len() - i,
    {
        joined.push(first[i]);
        i += 1;
    }
    let mut j: usize = 0;
    while j < second.len()
        invariant
            j <= second@.len(),
            joined@ == first@ + second@.take(j as int),
        decreases second@.len() - j,
    {
        joined.push(second[j]);
        j += 1;
    }
    joined
}

/// Byte-for-byte comparison.
fn bytes_equal(a: &[u8], b: &[u8]) -> (same: bool)
    ensures
        same == (a@ == b@),
{
    if a.len() != b.len() {
        return false;
    }
    let mut i: usize = 0;
    while i < a.len()
        invariant
            i <= a@.len(),
            a@.len() == b@.len(),
            forall|j: int| 0 <= j < i ==> a@[j] == b@[j],
        decreases a@.len() - i,
    {
        if a[i] != b[i] {
            return false;
        }
        i += 1;
    }
    assert(a@ =~= b@);
    true
}

/// Whether `stored` begins with `{SSHA}`.
fn starts_with_tag(stored: &str) -> (tagged: bool)
    ensures
        tagged == has_ssha_tag(stored@),
{
    let tag = "{SSHA}";
    proof {
        reveal_strlit("{SSHA}");
    }
    if stored.unicode_len() < TAG_LENGTH {
        return false;
    }
    let mut i: usize = 0;
    while i < TAG_LENGTH
        invariant
            i <= TAG_LENGTH,
            stored@.len() >= TAG_LENGTH,
            tag@ == ssha_tag(),
            forall|j: int| 0 <= j < i ==> stored@[j] == ssha_tag()[j],
        decreases TAG_LENGTH - i,
    {
        if stored.get_char(i) != tag.get_char(i) {
            return false;
        }
        i += 1;
    }
    assert(stored@.take(TAG_LENGTH as int) =~= ssha_tag());
    true
}

/// Checks the password bytes `candidate` against a decoded payload of at
/// least 20 bytes: the digest of `candidate` followed by the salt is compared,
/// byte for byte, with the stored digest.
pub fn verify_payload(payload: &[u8], candidate: &[u8]) -> (accepted: bool)
    ensures
        accepted == payload_accepts(payload@, candidate@),
{
    if payload.len() < SHA1_LENGTH {
        return false;
    }
    let (digest, salt) = payload.split_at(SHA1_LENGTH);
    if candidate.len() as u64 >= SHA1_INPUT_LIMIT || salt.len() as u64 >= SHA1_INPUT_LIMIT
        - candidate.len() as u64 {
        return false;
    }
    let message = concat_bytes(candidate, salt);
    let computed = sha1(message.as_slice());
    bytes_equal(computed.as_slice(), digest)
}

/// Checks `candidate` against the stored credential `stored` and says why it
/// was refused, where it was.
pub fn verify_credential(stored: &str, candidate: &str) -> (outcome: CredentialCheck)
    ensures
        outcome == credential_check(stored@, candidate.spec_bytes()),
        !has_ssha_tag(stored@) ==> outcome == CredentialCheck::UnsupportedAlgorithm,
{
    if !starts_with_tag(stored) {
        return CredentialCheck::UnsupportedAlgorithm;
    }
    let length = stored.unicode_len();
    let encoded = stored.substring_char(TAG_LENGTH, length);
    match base64_decode(encoded) {
        None => CredentialCheck::MalformedCredential,
        Some(payload) => {
            if payload.len() < SHA1_LENGTH {
                CredentialCheck::MalformedCredential
            } else if verify_payload(payload.as_slice(), candidate.as_bytes()) {
                CredentialCheck::Accepted
            } else {
                CredentialCheck::PasswordMismatch
            }
        },
    }
}

/// Whether `password` matches the stored credential `challenge_password`. A
/// credential that does not begin with `{SSHA}` matches no password.
pub fn check_password(challenge_password: &str, password: &str) -> (matched: bool)
    ensures
        matched == credential_accepts(challenge_password@, password.spec_bytes()),
        !has_ssha_tag(challenge_password@) ==> !matched,
{
    verify_credential(challenge_password, password) == CredentialCheck::Accepted
}

/// The credential text for a digest and a salt: `{SSHA}` followed by the
/// base64 encoding of the digest and the salt. `None` when the payload is too
/// long to encode on this machine.
pub fn encode_ssha(digest: &[u8], salt: &[u8]) -> (stored: Option<String>)
    ensures
        stored is Some <==> encodable_length(digest@.len() + salt@.len() as int),
        stored matches Some(text) ==> {
            &&& text@ == ssha_text(digest@ + salt@)
            &&& has_ssha_tag(text@)
            &&& base64_decoded(text@.skip(TAG_LENGTH as int)) == Some(digest@ + salt@)
        },
{
    if digest.len() > usize::MAX / 2 || salt.len() > usize::MAX / 2 - digest.len() {
        return None;
    }
    let payload = concat_bytes(digest, salt);
    let encoded = base64_encode(payload.as_slice());
    let tag = "{SSHA}";
    proof {
        reveal_strlit("{SSHA}");
    }
    let text = tag.to_owned().concat(encoded.as_str());
    assert(text@.take(TAG_LENGTH as int) =~= ssha_tag());
    assert(text@.skip(TAG_LENGTH as int) =~= encoded@);
    Some(text)
}

/// A stored credential for `password` under `salt`. The credential accepts
/// `password`. `None` when the salted password is too long to hash or the
/// payload too long to encode.
pub fn ssha_credential(password: &str, salt: &[u8]) -> (stored: Option<String>)
    ensures
        stored is Some <==> hashable_lengths(
            password.spec_bytes().len() as int,
            salt@.len() as int,
        ),
        stored matches Some(text) ==> {
            &&& text@ == ssha_text(sha1_digest(password.spec_bytes() + salt@) + salt@)
            &&& credential_accepts(text@, password.spec_bytes())
        },
{
    let bytes = password.as_bytes();
    if bytes.len() as u64 >= SHA1_INPUT_LIMIT || salt.len() as u64 >= SHA1_INPUT_LIMIT
        - bytes.len() as u64 {
        return None;
    }
    if salt.len() > usize::MAX / 2 - SHA1_LENGTH {
        return None;
    }
    let message = concat_bytes(bytes, salt);
    let digest = sha1(message.as_slice());
    let stored = encode_ssha(digest.as_slice(), salt);
    proof {
        let payload = digest@ + salt@;
        assert(payload_digest(payload) =~= digest@);
        assert(payload_salt(payload) =~= salt@);
    }
    stored
}

} // verus!
