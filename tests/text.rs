use napkin::paths::join_path;
use napkin::text::{chars_of, find, find_line_end, find_nth_break, splice_at};

#[test]
fn find_first_occurrence() {
    let hay = chars_of("abcabc");
    assert_eq!(find(&hay, &chars_of("bc")), Some(1));
    assert_eq!(find(&hay, &chars_of("x")), None);
    assert_eq!(find(&hay, &chars_of("")), Some(0));
    assert_eq!(find(&chars_of("ab"), &chars_of("abc")), None);
}

#[test]
fn line_ends_and_breaks() {
    let s = chars_of("ab\ncd\nef");
    assert_eq!(find_line_end(&s, 0), 2);
    assert_eq!(find_line_end(&s, 4), 5);
    assert_eq!(find_line_end(&s, 7), 8);
    assert_eq!(find_nth_break(&s, 0), Some(2));
    assert_eq!(find_nth_break(&s, 1), Some(5));
    assert_eq!(find_nth_break(&s, 2), None);
}

#[test]
fn splice_inserts() {
    assert_eq!(splice_at("héllo", 2, "--"), "hé--llo");
    assert_eq!(splice_at("ab", 2, "!"), "ab!");
    assert_eq!(splice_at("ab", 0, "!"), "!ab");
}

#[test]
fn join_paths() {
    assert_eq!(join_path("/home/u", ".napkin"), "/home/u/.napkin");
    assert_eq!(join_path("/home/u/", ".napkin"), "/home/u/.napkin");
    assert_eq!(join_path("", "x"), "x");
}
