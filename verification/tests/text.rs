use oauth_callback_page::text::{characters, find_from, lower_case, replace};

#[test]
fn text_is_found_at_its_first_place() {
    let text = characters("abcabc");
    assert_eq!(find_from(&text, &characters("bc"), 0), Some(1));
    assert_eq!(find_from(&text, &characters("bc"), 2), Some(4));
    assert_eq!(find_from(&text, &characters("bc"), 5), None);
    assert_eq!(find_from(&text, &characters(""), 6), Some(6));
    assert_eq!(find_from(&text, &characters("abcabcd"), 0), None);
}

#[test]
fn text_is_replaced_from_the_left() {
    assert_eq!(replace("aaaa", "aa", "b"), "aaaa".replace("aa", "b"));
    assert_eq!(replace("aaa", "aa", "b"), "ba");
    assert_eq!(replace("x\u{20ac}y", "\u{20ac}", "aa"), "xaay");
    assert_eq!(replace("", "a", "b"), "");
    assert_eq!(replace("aba", "a", "aa"), "aabaa");
}

#[test]
fn ascii_letters_alone_are_made_lower_case() {
    assert_eq!(lower_case(&characters("AZ[@\u{c9}z")), characters("az[@\u{c9}z"));
}
