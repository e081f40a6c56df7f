use sso::utils::{current_time_millis, encode_url, millis_since_epoch};

#[test]
fn kept_characters() {
    let kept = "abcXYZ0189-_.~!$%'()*+,";
    assert_eq!(encode_url(kept), kept);
    assert_eq!(encode_url(""), "");
}

#[test]
fn escaped_characters() {
    assert_eq!(encode_url("/"), "%2F");
    assert_eq!(encode_url("a b"), "a%20b");
    assert_eq!(
        encode_url(" \"#<>`?{}/:;=@[\\]^|&"),
        "%20%22%23%3C%3E%60%3F%7B%7D%2F%3A%3B%3D%40%5B%5C%5D%5E%7C%26"
    );
    assert_eq!(
        encode_url("https://example.com/cb?x=1&y=2"),
        "https%3A%2F%2Fexample.com%2Fcb%3Fx%3D1%26y%3D2"
    );
    assert_eq!(encode_url("\n\t\u{7f}"), "%0A%09%7F");
    assert_eq!(encode_url("\u{e9}"), "%C3%A9");
    assert_eq!(encode_url("\u{20ac}1"), "%E2%82%AC1");
    assert_eq!(encode_url("\u{1f600}"), "%F0%9F%98%80");
}

#[test]
fn milliseconds() {
    assert_eq!(millis_since_epoch(0, 0), 0);
    assert_eq!(millis_since_epoch(1, 500_000_000), 1500);
    assert_eq!(millis_since_epoch(0, 999_999), 0);
    assert_eq!(millis_since_epoch(0, 1_000_000), 1);
    assert_eq!(millis_since_epoch(1_600_000_000, 123_456_789), 1_600_000_000_123);
    assert_eq!(millis_since_epoch(-1, 999_000_000), 0);
    assert_eq!(millis_since_epoch(i64::MIN, 0), 0);
    assert_eq!(millis_since_epoch(i64::MAX, 0), u64::MAX);
    assert_eq!(millis_since_epoch(18_446_744_073_709_551, 615_000_000), u64::MAX);
    assert_eq!(millis_since_epoch(18_446_744_073_709_551, 614_999_999), u64::MAX - 1);
}

#[test]
fn the_clock_is_past_2020() {
    assert!(current_time_millis() > 1_577_836_800_000);
}
