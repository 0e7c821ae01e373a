use ollama_code::text::{
    byte_len, chars_of, followed_by, contains_text, count_lines, join_lines, push_lines, same_text,
    sort_texts, text_le, to_decimal, trim_text,
};

fn strings(items: &[&str]) -> Vec<String> {
    items.iter().map(|s| s.to_string()).collect()
}

#[test]
fn decimal_of_small_numbers() {
    assert_eq!(to_decimal(0), "0");
    assert_eq!(to_decimal(7), "7");
    assert_eq!(to_decimal(9), "9");
}

#[test]
fn decimal_of_larger_numbers() {
    assert_eq!(to_decimal(10), "10");
    assert_eq!(to_decimal(101), "101");
    assert_eq!(to_decimal(12345), "12345");
    assert_eq!(to_decimal(usize::MAX), usize::MAX.to_string());
}

#[test]
fn chars_of_keeps_order() {
    assert_eq!(chars_of("a\u{e9}z"), vec!['a', '\u{e9}', 'z']);
    assert_eq!(chars_of(""), Vec::<char>::new());
}

#[test]
fn same_text_compares_characters() {
    assert!(same_text("grep", "grep"));
    assert!(!same_text("grep", "grep "));
    assert!(same_text("", ""));
}

#[test]
fn concat_appends() {
    assert_eq!(followed_by("ERR: ", "gone"), "ERR: gone");
    assert_eq!(followed_by("", ""), "");
}

#[test]
fn text_le_is_lexicographic() {
    assert!(text_le("", ""));
    assert!(text_le("", "a"));
    assert!(!text_le("a", ""));
    assert!(text_le("abc", "abd"));
    assert!(!text_le("abd", "abc"));
    assert!(text_le("ab", "abc"));
    assert!(!text_le("abc", "ab"));
    assert!(text_le("same", "same"));
}

#[test]
fn text_le_orders_as_strings_do() {
    let samples = ["", "a", "B", "b", "ab", "a b", "Z", "\u{e9}", "z\u{e9}", "src/", "src"];
    for a in samples.iter() {
        for b in samples.iter() {
            assert_eq!(text_le(a, b), a <= b, "{:?} {:?}", a, b);
        }
    }
}

#[test]
fn contains_text_finds_substrings() {
    assert!(contains_text("let x = localhost;", "localhost"));
    assert!(contains_text("abc", "c"));
    assert!(contains_text("abc", "abc"));
    assert!(!contains_text("abc", "abcd"));
    assert!(!contains_text("abc", "ca"));
    assert!(!contains_text("", "a"));
}

#[test]
fn contains_text_finds_the_empty_text_everywhere() {
    assert!(contains_text("abc", ""));
    assert!(contains_text("", ""));
}

#[test]
fn join_lines_puts_line_feeds_between() {
    assert_eq!(join_lines(&strings(&[])), "");
    assert_eq!(join_lines(&strings(&["one"])), "one");
    assert_eq!(join_lines(&strings(&["one", "two", "three"])), "one\ntwo\nthree");
}

#[test]
fn push_lines_ends_each_line() {
    let mut out = String::from("head:");
    push_lines(&mut out, &strings(&["a", "b"]));
    assert_eq!(out, "head:a\nb\n");
    push_lines(&mut out, &strings(&[]));
    assert_eq!(out, "head:a\nb\n");
}

#[test]
fn sort_texts_sorts_and_keeps_every_name() {
    let sorted = sort_texts(strings(&["src/", "Cargo.toml", "a", "src/", "B", ""]));
    assert_eq!(sorted, strings(&["", "B", "Cargo.toml", "a", "src/", "src/"]));
    assert_eq!(sort_texts(strings(&[])), strings(&[]));
}

#[test]
fn sort_texts_agrees_with_the_standard_sort() {
    let names = strings(&["zeta", "alpha", "Alpha", "beta/", "beta", "\u{e9}t\u{e9}", "10", "9"]);
    let mut expected = names.clone();
    expected.sort();
    assert_eq!(sort_texts(names), expected);
}

#[test]
fn trim_text_drops_white_space_at_both_ends() {
    assert_eq!(trim_text("  /home/me \n"), "/home/me");
    assert_eq!(trim_text("\t a b \u{a0}\u{3000}"), "a b");
    assert_eq!(trim_text("   "), "");
    assert_eq!(trim_text(""), "");
    assert_eq!(trim_text("x"), "x");
}

#[test]
fn trim_text_agrees_with_the_standard_trim() {
    let samples = ["", " ", "a", " a", "a ", "\n\ta b\r\n", "\u{2003}x\u{2028}", "\u{200b}x "];
    for s in samples.iter() {
        assert_eq!(trim_text(s), s.trim(), "{:?}", s);
    }
}

#[test]
fn count_lines_counts_as_lines_does() {
    let samples = ["", "a", "a\n", "a\nb", "a\nb\n", "\n", "\n\n", "a\r\nb", "a\n\nb\n"];
    for s in samples.iter() {
        assert_eq!(count_lines(s), s.lines().count(), "{:?}", s);
    }
    assert_eq!(count_lines("one\ntwo\nthree"), 3);
}

#[test]
fn byte_len_counts_bytes() {
    assert_eq!(byte_len(""), 0);
    assert_eq!(byte_len("abc"), 3);
    assert_eq!(byte_len("\u{e9}"), 2);
    assert_eq!(byte_len("\u{1F4C1}"), 4);
}
