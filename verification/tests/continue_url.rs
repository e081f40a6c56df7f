use sso::continue_url::{
    build_allow_pattern, classify, classify_matches, escaped_dots, Classification,
    ContinueValidator,
};

fn kind(found: &Classification) -> &'static str {
    match found {
        Classification::AllowedRedirect(_) => "allowed",
        Classification::RejectedExternalUrl => "rejected",
        Classification::Opaque(_) => "opaque",
    }
}

fn classified(continuation: &str) -> Classification {
    match classify(continuation, "example.com") {
        Ok(found) => found,
        Err(refusal) => panic!("{}", refusal.message()),
    }
}

#[test]
fn dots_are_escaped() {
    assert_eq!(escaped_dots("example.com"), r"example\.com");
    assert_eq!(escaped_dots(""), "");
    assert_eq!(escaped_dots("..."), r"\.\.\.");
    assert_eq!(escaped_dots("localhost"), "localhost");
    assert_eq!(escaped_dots("a.b\u{e9}.c"), "a\\.b\u{e9}\\.c");
}

#[test]
fn allow_pattern_of_a_domain() {
    assert_eq!(
        build_allow_pattern("example.com"),
        r"^https?://[a-zA-Z0-9\.\\-_]*(example\.com).*$"
    );
    assert_eq!(build_allow_pattern(""), r"^https?://[a-zA-Z0-9\.\\-_]*().*$");
    let validator = ContinueValidator::new("sso.example.org").ok().unwrap();
    assert_eq!(
        validator.allow_pattern(),
        r"^https?://[a-zA-Z0-9\.\\-_]*(sso\.example\.org).*$"
    );
}

#[test]
fn redirect_classification() {
    match classified("https://app.example.com/cb") {
        Classification::AllowedRedirect(url) => assert_eq!(url, "https://app.example.com/cb"),
        other => panic!("{}", kind(&other)),
    }
    assert_eq!(kind(&classified("https://evil.com/cb")), "rejected");
    match classified("") {
        Classification::Opaque(text) => assert_eq!(text, ""),
        other => panic!("{}", kind(&other)),
    }
}

#[test]
fn allowed_targets() {
    for target in [
        "http://example.com",
        "https://example.com",
        "https://example.com/",
        "https://app.example.com/cb?x=1#top",
        "http://a.b.c.example.com:8080/path",
        "https://a_b.example.com/",
        "https://example.com.evil.net/",
    ] {
        assert_eq!(kind(&classified(target)), "allowed", "{}", target);
    }
}

#[test]
fn rejected_targets() {
    for target in [
        "https://evil.com/cb",
        "http://example.org",
        "https://evil.com/?next=https://example.com",
        "https://user@example.com/",
        "https://my-app.example.com/",
        "https://examplexcom/",
        "https://x",
    ] {
        assert_eq!(kind(&classified(target)), "rejected", "{}", target);
    }
}

#[test]
fn opaque_targets() {
    for target in [
        "",
        "?",
        "/",
        "/home?x=https://example.com",
        "example.com",
        "ftp://example.com/",
        "https://",
        "HTTPS://example.com/",
        " https://example.com/",
        "javascript:alert(1)",
    ] {
        match classified(target) {
            Classification::Opaque(text) => assert_eq!(text, target),
            other => panic!("{}: {}", target, kind(&other)),
        }
    }
}

#[test]
fn the_allow_pattern_decides_first() {
    match classify_matches(true, true, "a") {
        Classification::AllowedRedirect(url) => assert_eq!(url, "a"),
        other => panic!("{}", kind(&other)),
    }
    match classify_matches(true, false, "b") {
        Classification::AllowedRedirect(url) => assert_eq!(url, "b"),
        other => panic!("{}", kind(&other)),
    }
    assert_eq!(kind(&classify_matches(false, true, "c")), "rejected");
    match classify_matches(false, false, "d") {
        Classification::Opaque(text) => assert_eq!(text, "d"),
        other => panic!("{}", kind(&other)),
    }
}

#[test]
fn unusable_domains_are_refused() {
    for domain in ["exa(mple.com", "example.com)", "[", "a{1,", "*"] {
        match ContinueValidator::new(domain) {
            Ok(_) => panic!("{} was accepted", domain),
            Err(refusal) => assert_eq!(
                refusal.message(),
                "Invalid `allowed_continue_domain` format, please check your configuration file."
            ),
        }
        assert!(classify("https://example.com/", domain).is_err());
    }
}

#[test]
fn a_domain_is_part_of_the_pattern() {
    let validator = ContinueValidator::new("example.(com|org)").ok().unwrap();
    assert_eq!(kind(&validator.classify("https://app.example.org/")), "allowed");
    assert_eq!(kind(&validator.classify("https://app.example.com/")), "allowed");
    assert_eq!(kind(&validator.classify("https://app.example.net/")), "rejected");
}
