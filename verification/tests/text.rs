use mem5::{decimal_string, ordinal_number, replace_str, ws_url_string};

#[test]
fn decimal_numerals() {
    assert_eq!(decimal_string(0), "0");
    assert_eq!(decimal_string(7), "7");
    assert_eq!(decimal_string(10), "10");
    assert_eq!(decimal_string(12345), "12345");
    assert_eq!(decimal_string(usize::MAX), usize::MAX.to_string());
}

#[test]
fn ordinal_numbers() {
    let cases = [
        (0, "0th"),
        (1, "1st"),
        (2, "2nd"),
        (3, "3rd"),
        (4, "4th"),
        (11, "11th"),
        (12, "12th"),
        (13, "13th"),
        (21, "21st"),
        (22, "22nd"),
        (23, "23rd"),
        (101, "101st"),
        (111, "111th"),
        (112, "112th"),
    ];
    for (n, expected) in cases {
        assert_eq!(ordinal_number(n), expected);
    }
}

#[test]
fn replace_like_str_replace() {
    let cases = [
        ("http://localhost:4000/", "http://", "ws://"),
        ("http://a/http://b", "http://", "ws://"),
        ("https://a/", "http://", "ws://"),
        ("", "http://", "ws://"),
        ("aaaa", "aa", "b"),
        ("aaa", "aa", "b"),
        ("čšž http://ü", "http://", "ws://"),
        ("abc", "abcd", "x"),
    ];
    for (s, pat, rep) in cases {
        assert_eq!(replace_str(s, pat, rep), s.replace(pat, rep), "{} {} {}", s, pat, rep);
    }
}

#[test]
fn websocket_address() {
    assert_eq!(ws_url_string("http://localhost:4000/", 42), "ws://localhost:4000/mem5ws/42");
    assert_eq!(ws_url_string("http://bestia.dev/mem5/", 0), "ws://bestia.dev/mem5/mem5ws/0");
    assert_ne!(ws_url_string("http://x/", 1), ws_url_string("http://x/", 11));
}
