use sso::password::{
    check_password, encode_ssha, ssha_credential, verify_credential, verify_payload,
    CredentialCheck,
};

const EULER: &'static str = "{SSHA}6GgdUiWDqPfk9BFzy4TImjSBn8tzYWx0";
const EULER_DIGEST: [u8; 20] = [
    232, 104, 29, 82, 37, 131, 168, 247, 228, 244, 17, 115, 203, 132, 200, 154, 52, 129, 159, 203,
];

fn payload_of(digest: &[u8], salt: &[u8]) -> Vec<u8> {
    let mut payload = digest.to_vec();
    payload.extend_from_slice(salt);
    payload
}

#[test]
fn known_credential() {
    assert!(check_password(EULER, "mypassword"));
    assert!(!check_password(EULER, "wrongpassword"));
    assert!(!check_password(EULER, "mypassword "));
    assert!(!check_password(EULER, ""));
    assert_eq!(verify_credential(EULER, "mypassword"), CredentialCheck::Accepted);
    assert_eq!(verify_credential(EULER, "Mypassword"), CredentialCheck::PasswordMismatch);
}

#[test]
fn known_encodings() {
    assert_eq!(ssha_credential("mypassword", b"salt"), Some(EULER.to_string()));
    assert_eq!(encode_ssha(&EULER_DIGEST, b"salt"), Some(EULER.to_string()));
    assert_eq!(
        ssha_credential("mypassword", &[1, 2, 3, 4, 5, 6, 7, 8]),
        Some("{SSHA}uSem6wapsEsyx20GVE4zIK/VkZUBAgMEBQYHCA==".to_string())
    );
    assert_eq!(
        ssha_credential("p\u{e4}ssw\u{f6}rd", b"NaCl"),
        Some("{SSHA}XUON4tG7MuuA1bGfueFMxZuyniFOYUNs".to_string())
    );
    assert_eq!(ssha_credential("", b""), Some("{SSHA}2jmj7l5rSw0yVb/vlWAYkK/YBwk=".to_string()));
    let digest: Vec<u8> = (0u8..20).collect();
    assert_eq!(
        encode_ssha(&digest, b"xy"),
        Some("{SSHA}AAECAwQFBgcICQoLDA0ODxAREhN4eQ==".to_string())
    );
}

#[test]
fn round_trip() {
    let passwords = ["", "a", "mypassword", "p\u{e4}ssw\u{f6}rd", "with space and {SSHA}"];
    let salts: [&[u8]; 4] = [b"", b"s", b"salt", &[0, 255, 128, 10, 13, 61, 43, 47, 1]];
    for password in passwords {
        for salt in salts {
            let stored = ssha_credential(password, salt).unwrap();
            assert!(check_password(&stored, password));
            assert_eq!(verify_credential(&stored, password), CredentialCheck::Accepted);
        }
    }
}

#[test]
fn empty_salt() {
    assert!(check_password("{SSHA}2jmj7l5rSw0yVb/vlWAYkK/YBwk=", ""));
    assert!(!check_password("{SSHA}2jmj7l5rSw0yVb/vlWAYkK/YBwk=", "x"));
}

#[test]
fn flipped_bits_are_rejected() {
    let payload = payload_of(&EULER_DIGEST, b"salt");
    assert!(verify_payload(&payload, b"mypassword"));
    for index in 0..payload.len() {
        for bit in 0..8 {
            let mut tampered = payload.clone();
            tampered[index] ^= 1u8 << bit;
            assert!(!verify_payload(&tampered, b"mypassword"));
            let stored = encode_ssha(&tampered[..20], &tampered[20..]).unwrap();
            assert!(!check_password(&stored, "mypassword"));
            assert_eq!(verify_credential(&stored, "mypassword"), CredentialCheck::PasswordMismatch);
        }
    }
}

#[test]
fn untagged_credentials_are_rejected() {
    let untagged = [
        "",
        "{",
        "{SSHA",
        "{SHA}6GgdUiWDqPfk9BFzy4TImjSBn8tzYWx0",
        "{ssha}6GgdUiWDqPfk9BFzy4TImjSBn8tzYWx0",
        " {SSHA}6GgdUiWDqPfk9BFzy4TImjSBn8tzYWx0",
        "6GgdUiWDqPfk9BFzy4TImjSBn8tzYWx0",
        "{CRYPT}$1$salt$hash",
        "\u{e4}\u{e4}\u{e4}\u{e4}\u{e4}\u{e4}\u{e4}",
    ];
    for stored in untagged {
        assert_eq!(verify_credential(stored, "mypassword"), CredentialCheck::UnsupportedAlgorithm);
        assert!(!check_password(stored, "mypassword"));
        assert!(!check_password(stored, ""));
    }
}

#[test]
fn malformed_credentials_are_rejected() {
    // Not base64.
    assert_eq!(verify_credential("{SSHA}!!!!", "x"), CredentialCheck::MalformedCredential);
    assert_eq!(verify_credential("{SSHA}Zm9", "x"), CredentialCheck::MalformedCredential);
    assert_eq!(verify_credential("{SSHA}Z", "x"), CredentialCheck::MalformedCredential);
    // Base64 of fewer than 20 bytes.
    assert_eq!(verify_credential("{SSHA}", "x"), CredentialCheck::MalformedCredential);
    assert_eq!(verify_credential("{SSHA}Zm9v", "x"), CredentialCheck::MalformedCredential);
    let short = encode_ssha(&EULER_DIGEST[..19], &[]).unwrap();
    assert_eq!(verify_credential(&short, "mypassword"), CredentialCheck::MalformedCredential);
    assert!(!check_password(&short, "mypassword"));
    assert!(!verify_payload(&EULER_DIGEST[..19], b"mypassword"));
    assert!(!verify_payload(&[], b""));
}

#[test]
fn line_breaks_in_the_payload_are_ignored() {
    assert!(check_password("{SSHA}6GgdUiWDqPfk9BFz\r\ny4TImjSBn8tzYWx0", "mypassword"));
    assert!(check_password("{SSHA}6GgdUiWDqPfk9BFzy4TImjSBn8tzYWx0\n", "mypassword"));
}
