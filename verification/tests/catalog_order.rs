use cinema_be::catalog::{listed_before_or_with, listing_order};

fn names(list: &[&str]) -> Vec<String> {
    list.iter().map(|name| name.to_string()).collect()
}

#[test]
fn names_are_listed_in_byte_order() {
    let found = names(&["b/film.m3u8", "a/film.m3u8", "Zoo.m3u8", "a.m3u8", "a/b/c.m3u8"]);
    assert_eq!(
        listing_order(&found),
        names(&["Zoo.m3u8", "a.m3u8", "a/b/c.m3u8", "a/film.m3u8", "b/film.m3u8"])
    );
}

#[test]
fn listing_order_agrees_with_sorting() {
    let found = names(&["delta", "alpha", "", "charlie", "alpha", "é", "z", "Z", "ab", "a", "abc"]);
    let mut expected = found.clone();
    expected.sort();
    assert_eq!(listing_order(&found), expected);
}

#[test]
fn repeated_names_are_kept() {
    assert_eq!(listing_order(&names(&["x", "y", "x"])), names(&["x", "x", "y"]));
}

#[test]
fn nothing_found_lists_nothing() {
    assert!(listing_order(&Vec::new()).is_empty());
}

#[test]
fn shorter_names_come_before_their_extensions() {
    assert!(listed_before_or_with(&"film".to_string(), &"film.m3u8".to_string()));
    assert!(!listed_before_or_with(&"film.m3u8".to_string(), &"film".to_string()));
    assert!(listed_before_or_with(&"same".to_string(), &"same".to_string()));
    assert!(listed_before_or_with(&"".to_string(), &"a".to_string()));
    assert!(!listed_before_or_with(&"b".to_string(), &"a".to_string()));
}

#[test]
fn names_compare_by_utf8_bytes() {
    // U+00E9 is written as the bytes C3 A9, which come after every ASCII byte.
    assert!(listed_before_or_with(&"z".to_string(), &"\u{e9}".to_string()));
    assert!(!listed_before_or_with(&"\u{e9}".to_string(), &"z".to_string()));
    // U+FF5E takes three bytes starting with EF, U+1F600 four starting with F0.
    assert!(listed_before_or_with(&"\u{ff5e}".to_string(), &"\u{1f600}".to_string()));
}
