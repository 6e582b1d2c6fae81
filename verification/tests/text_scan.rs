use hyprclock::text::str_contains;

#[test]
fn finds_a_needle_in_the_middle() {
    assert!(str_contains("hello world", "lo wo"));
}

#[test]
fn finds_a_needle_at_the_edges() {
    assert!(str_contains("hello", "he"));
    assert!(str_contains("hello", "llo"));
    assert!(str_contains("hello", "hello"));
}

#[test]
fn misses_an_absent_needle() {
    assert!(!str_contains("hello", "world"));
    assert!(!str_contains("hello", "helloo"));
    assert!(!str_contains("", "a"));
}

#[test]
fn empty_needle_is_always_found() {
    assert!(str_contains("", ""));
    assert!(str_contains("hello", ""));
}

#[test]
fn repeated_prefixes_do_not_confuse_the_scan() {
    assert!(str_contains("aaab", "aab"));
    assert!(!str_contains("aaa", "aab"));
}

#[test]
fn non_ascii_haystacks_scan_by_character() {
    assert!(str_contains("zeit: überall", "über"));
    assert!(!str_contains("zeit", "über"));
}
