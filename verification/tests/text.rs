use tenzin::client::{client_step, force_change, ClientStep};
use tenzin::student::MarkerFile;
use tenzin::text::{
    chars_of, find_pair, push_decimal, range_equals, skip_leading, skip_trailing, trim, CharClass,
};

fn chars(s: &str) -> Vec<char> {
    s.chars().collect()
}

#[test]
fn whitespace_is_the_unicode_property() {
    for code in 0..=0x10FFFFu32 {
        if let Some(c) = char::from_u32(code) {
            assert_eq!(CharClass::Whitespace.has(c), c.is_whitespace(), "U+{:04X}", code);
        }
    }
}

#[test]
fn classes_of_one_character() {
    assert!(CharClass::Only('<').has('<'));
    assert!(!CharClass::Only('<').has('>'));
    assert!(CharClass::AllBut(' ').has('x'));
    assert!(!CharClass::AllBut(' ').has(' '));
    assert!(CharClass::AllBut(' ').has('\t'));
}

#[test]
fn trim_takes_whitespace_from_both_ends() {
    let samples = [
        "",
        " ",
        "a",
        "  a@b.c \n",
        "\t\r\n x y \u{3000}",
        "\u{a0}\u{2003}word\u{2028}\u{2029}\u{85}",
        "\u{200b}a\u{200b}",
        "\u{feff} a",
        "   ",
        "a  b",
        "\u{1680}\u{202f}\u{205f}x\u{2000}\u{200a}",
        "\u{1c}\u{1f}x\u{b}\u{c}",
    ];
    for sample in samples {
        assert_eq!(trim(sample), sample.trim(), "{:?}", sample);
    }
    assert_eq!(trim("  a@b.c \n"), "a@b.c");
}

#[test]
fn chars_of_lists_the_characters() {
    assert_eq!(chars_of(""), Vec::<char>::new());
    assert_eq!(chars_of("aé学😀"), vec!['a', 'é', '学', '😀']);
}

#[test]
fn leading_and_trailing_characters_are_skipped() {
    let text = chars("<<a<b>>>");
    assert_eq!(skip_leading(&text, 0, text.len(), CharClass::Only('<')), 2);
    assert_eq!(skip_trailing(&text, 0, text.len(), CharClass::Only('>')), 5);
    assert_eq!(skip_leading(&text, 3, text.len(), CharClass::Only('<')), 4);
    assert_eq!(skip_leading(&text, 0, 1, CharClass::Only('<')), 1);
    assert_eq!(skip_leading(&text, 0, 0, CharClass::Only('<')), 0);
    assert_eq!(skip_trailing(&text, 6, 8, CharClass::Only('>')), 6);
    assert_eq!(skip_trailing(&text, 0, text.len(), CharClass::AllBut('<')), 4);
    let none = chars("abc");
    assert_eq!(skip_leading(&none, 0, 3, CharClass::Whitespace), 0);
    assert_eq!(skip_trailing(&none, 0, 3, CharClass::Whitespace), 3);
    assert_eq!(skip_trailing(&none, 0, 3, CharClass::AllBut(' ')), 0);
}

#[test]
fn pairs_are_found_at_their_first_place() {
    let text = chars("a: b: c\r\n\r\nx");
    assert_eq!(find_pair(&text, 0, text.len(), ':', ' '), Some(1));
    assert_eq!(find_pair(&text, 2, text.len(), ':', ' '), Some(4));
    assert_eq!(find_pair(&text, 5, text.len(), ':', ' '), None);
    assert_eq!(find_pair(&text, 0, text.len(), '\r', '\n'), Some(7));
    assert_eq!(find_pair(&text, 8, text.len(), '\r', '\n'), Some(9));
    assert_eq!(find_pair(&text, 0, 8, '\r', '\n'), None);
    assert_eq!(find_pair(&text, 0, 9, '\r', '\n'), Some(7));
    assert_eq!(find_pair(&text, 0, 0, 'a', ':'), None);
    assert_eq!(find_pair(&text, 0, 1, 'a', ':'), None);
    assert_eq!(find_pair(&text, 0, 2, 'a', ':'), Some(0));
    let twice = chars("\r\r\n");
    assert_eq!(find_pair(&twice, 0, 3, '\r', '\n'), Some(1));
    let same = chars("aaa");
    assert_eq!(find_pair(&same, 0, 3, 'a', 'a'), Some(0));
}

#[test]
fn ranges_are_compared_with_words() {
    let text = chars("From: me");
    assert!(range_equals(&text, 0, 4, &chars("From")));
    assert!(!range_equals(&text, 0, 4, &chars("from")));
    assert!(!range_equals(&text, 0, 3, &chars("From")));
    assert!(!range_equals(&text, 0, 5, &chars("From")));
    assert!(range_equals(&text, 3, 3, &chars("")));
    assert!(range_equals(&text, 6, 8, &chars("me")));
}

#[test]
fn numbers_are_written_in_decimal() {
    for n in [0u64, 1, 9, 10, 11, 99, 100, 101, 65535, 4294967295, 1_000_000_007, u64::MAX] {
        let mut out = String::from("n=");
        push_decimal(&mut out, n);
        assert_eq!(out, format!("n={}", n));
    }
    let mut out = String::new();
    push_decimal(&mut out, 120);
    assert_eq!(out, "120");
}

#[test]
fn a_change_is_forced_by_an_argument_that_begins_with_c() {
    let args = |list: &[&str]| list.iter().map(|s| s.to_string()).collect::<Vec<String>>();
    assert!(!force_change(&args(&[])));
    assert!(force_change(&args(&["-c"])));
    assert!(force_change(&args(&["-change"])));
    assert!(force_change(&args(&["x", "-c", "y"])));
    assert!(!force_change(&args(&["c", "--c", " -c", "-", "-C", ""])));
}

#[test]
fn the_client_asks_unless_an_address_is_registered() {
    let good = MarkerFile::Content(" student@bupt.edu.cn\n".to_string());
    let bad = MarkerFile::Content("nobody".to_string());
    match client_step(false, &good) {
        ClientStep::Show(email) => assert_eq!(email, "student@bupt.edu.cn"),
        ClientStep::Ask => panic!("asked though an address is registered"),
    }
    assert!(matches!(client_step(true, &good), ClientStep::Ask));
    assert!(matches!(client_step(false, &bad), ClientStep::Ask));
    assert!(matches!(client_step(false, &MarkerFile::Missing), ClientStep::Ask));
    assert!(matches!(client_step(false, &MarkerFile::Unreadable), ClientStep::Ask));
    assert!(matches!(client_step(true, &MarkerFile::Missing), ClientStep::Ask));
}
