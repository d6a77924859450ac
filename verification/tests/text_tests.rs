use safeguard::text::{
    chars_of, contains, i64_to_string, is_ascii_alphabetic, is_ascii_digit,
    is_blank, is_whitespace, parse_i64, remove_all, replace_char, split_char, split_whitespace,
    starts_with, str_eq, strip_prefix, take_chars, trim, trim_start_char,
    trim_start_str, u64_to_string, usize_to_string,
};

fn samples() -> Vec<&'static str> {
    vec![
        "",
        " ",
        "abc",
        "  abc  ",
        "\t\n hello world \r\n",
        "\u{00A0}x\u{3000}",
        "سلام دنیا",
        "  بات  ",
        "a  b\tc\nd",
        "//lock link",
        "@@user",
        "\u{2028}\u{2029}z\u{205F}",
        "\u{1F600} emoji \u{1F600}",
    ]
}

#[test]
fn whitespace_class_matches_std_on_every_char() {
    let mut n: u32 = 0;
    while n <= 0x10FFFF {
        if let Some(c) = char::from_u32(n) {
            assert_eq!(is_whitespace(c), c.is_whitespace(), "char {:#x}", n);
            assert_eq!(is_ascii_digit(c), c.is_ascii_digit());
            assert_eq!(is_ascii_alphabetic(c), c.is_ascii_alphabetic());
        }
        n += 1;
    }
}

#[test]
fn trim_and_split_match_std() {
    for s in samples() {
        assert_eq!(trim(s), s.trim());
        assert_eq!(is_blank(s), s.trim().is_empty());
        let ours = split_whitespace(s);
        let theirs: Vec<String> = s.split_whitespace().map(|w| w.to_string()).collect();
        assert_eq!(ours, theirs);
        let ours_colon = split_char(s, ' ');
        let theirs_colon: Vec<String> = s.split(' ').map(|w| w.to_string()).collect();
        assert_eq!(ours_colon, theirs_colon);
        assert_eq!(chars_of(s), s.chars().collect::<Vec<char>>());
    }
}

#[test]
fn split_char_on_callback_data() {
    assert_eq!(split_char("model:gemini:42", ':'), vec!["model", "gemini", "42"]);
    assert_eq!(split_char("a::b", ':'), vec!["a", "", "b"]);
    assert_eq!(split_char("", ':'), vec![""]);
}

#[test]
fn prefixes_and_search_match_std() {
    let pats = ["", "a", "ab", "/", "lock ", "@", "سلام", "world"];
    for s in samples() {
        for p in pats.iter() {
            assert_eq!(starts_with(s, p), s.starts_with(p));
            assert_eq!(contains(s, p), s.contains(p));
            assert_eq!(strip_prefix(s, p), s.strip_prefix(p).map(|x| x.to_string()));
            assert_eq!(str_eq(s, p), s == *p);
            assert_eq!(trim_start_str(s, p), s.trim_start_matches(p).to_string());
            if !p.is_empty() {
                assert_eq!(remove_all(s, p), s.replace(p, ""));
            }
        }
        assert_eq!(trim_start_char(s, '@'), s.trim_start_matches('@'));
        assert_eq!(replace_char(s, '\n', ' '), s.replace('\n', " "));
    }
}

#[test]
fn remove_all_of_bot_username() {
    assert_eq!(remove_all("@Bot hi @Bot", "@Bot"), " hi ");
    assert_eq!(remove_all("aaaa", "aa"), "");
    assert_eq!(remove_all("xyz", "q"), "xyz");
}

#[test]
fn concatenation_and_take() {
    assert_eq!(safeguard::text::concat("ab", "cd"), "abcd");
    assert_eq!(safeguard::text::concat3("a", "", "c"), "ac");
    assert_eq!(take_chars("سلام دنیا", 4), "سلام");
    assert_eq!(take_chars("ab", 10), "ab");
}

#[test]
fn parse_i64_matches_std() {
    let inputs = [
        "0",
        "-0",
        "+7",
        "42",
        "-42",
        "007",
        "",
        "-",
        "+",
        " 1",
        "1 ",
        "1a",
        "9223372036854775807",
        "9223372036854775808",
        "-9223372036854775808",
        "-9223372036854775809",
        "99999999999999999999999",
        "١٢",
        "--1",
    ];
    for s in inputs.iter() {
        assert_eq!(parse_i64(s), s.parse::<i64>().ok(), "input {:?}", s);
    }
}

#[test]
fn decimal_formatting_matches_std() {
    let values: [i64; 7] = [0, 7, -7, 10, 1234567890, i64::MAX, i64::MIN];
    for v in values.iter() {
        assert_eq!(i64_to_string(*v), v.to_string());
    }
    assert_eq!(u64_to_string(u64::MAX), u64::MAX.to_string());
    assert_eq!(usize_to_string(250), "250");
}

#[test]
fn command_words_are_lowered() {
    assert_eq!(safeguard::protection::command_word_of("LoCk LINK"), "lock link");
    assert_eq!(safeguard::protection::command_word_of("ÀB"), "àb");
    assert_ne!(safeguard::protection::command_word_of("ABC"), "ABC");
}

#[test]
fn formatting_then_parsing_gives_the_number() {
    let values: [i64; 9] = [0, 1, -1, 9, 10, -10, 123456789, i64::MAX, i64::MIN];
    for v in values.iter() {
        assert_eq!(parse_i64(&i64_to_string(*v)), Some(*v));
    }
}
