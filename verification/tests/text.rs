use query_rs::text::chars_of;
use query_rs::text::find;
use query_rs::text::matches_ignoring_ascii_case;
use query_rs::text::parse_numeral;
use query_rs::text::same_text;
use query_rs::text::to_ascii_lower;

fn chars(text: &str) -> Vec<char> {
    text.chars().collect()
}

#[test]
fn chars_of_lists_the_characters() {
    assert_eq!(chars_of(""), Vec::<char>::new());
    assert_eq!(chars_of("a>1"), vec!['a', '>', '1']);
    assert_eq!(chars_of("héllo"), vec!['h', 'é', 'l', 'l', 'o']);
}

#[test]
fn same_text_compares_character_by_character() {
    assert!(same_text(&chars("http"), &chars("http")));
    assert!(!same_text(&chars("http"), &chars("httq")));
    assert!(!same_text(&chars("http"), &chars("https")));
    assert!(same_text(&chars(""), &chars("")));
}

#[test]
fn find_gives_the_first_occurrence() {
    assert_eq!(find(&chars("age>10"), &chars(">")), Some(3));
    assert_eq!(find(&chars("a=b=c"), &chars("=")), Some(1));
    assert_eq!(find(&chars("a>=1"), &chars(">=")), Some(1));
    assert_eq!(find(&chars("aab"), &chars("ab")), Some(1));
    assert_eq!(find(&chars("abc"), &chars("c")), Some(2));
    assert_eq!(find(&chars("abc"), &chars("abc")), Some(0));
    assert_eq!(find(&chars("abc"), &chars("d")), None);
    assert_eq!(find(&chars("ab"), &chars("abc")), None);
    assert_eq!(find(&chars(""), &chars("a")), None);
    assert_eq!(find(&chars("abc"), &chars("")), Some(0));
    assert_eq!(find(&chars(""), &chars("")), Some(0));
}

#[test]
fn find_agrees_with_std() {
    let texts = ["", "a", "ab", "aab", "abab", "a=b", "x>=y<=z", "===", "é=ü", "newdeaths>5"];
    let patterns = ["", "a", "b", "ab", "=", ">", ">=", "<", "<=", "ba", "é", "ü"];
    for text in texts {
        for pattern in patterns {
            let expected = text.find(pattern).map(|at| text[..at].chars().count());
            assert_eq!(find(&chars(text), &chars(pattern)), expected, "{:?} in {:?}", pattern, text);
        }
    }
}

#[test]
fn ascii_capitals_fold_to_small_letters() {
    assert_eq!(to_ascii_lower('A'), 'a');
    assert_eq!(to_ascii_lower('Z'), 'z');
    assert_eq!(to_ascii_lower('a'), 'a');
    assert_eq!(to_ascii_lower('@'), '@');
    assert_eq!(to_ascii_lower('['), '[');
    assert_eq!(to_ascii_lower('É'), 'É');
    for code in 0u32..0x300 {
        let ch = char::from_u32(code).unwrap();
        assert_eq!(to_ascii_lower(ch), ch.to_ascii_lowercase());
    }
}

#[test]
fn case_of_ascii_letters_is_ignored() {
    assert!(matches_ignoring_ascii_case(&chars("COUNT"), &chars("count")));
    assert!(matches_ignoring_ascii_case(&chars("Json"), &chars("jSON")));
    assert!(!matches_ignoring_ascii_case(&chars("csv"), &chars("csvx")));
    assert!(!matches_ignoring_ascii_case(&chars("csv"), &chars("cs")));
    assert!(!matches_ignoring_ascii_case(&chars("É"), &chars("é")));
    let words = ["", "csv", "CSV", "CsV", "json", "c5v", "K", "k", "\u{212A}", "ſ", "S"];
    for a in words {
        for b in words {
            assert_eq!(
                matches_ignoring_ascii_case(&chars(a), &chars(b)),
                a.eq_ignore_ascii_case(b),
                "{:?} {:?}",
                a,
                b
            );
        }
    }
}

#[test]
fn numerals_are_read() {
    assert_eq!(parse_numeral(&chars("0"), 100), Some(0));
    assert_eq!(parse_numeral(&chars("5"), 100), Some(5));
    assert_eq!(parse_numeral(&chars("007"), 100), Some(7));
    assert_eq!(parse_numeral(&chars("+42"), 100), Some(42));
    assert_eq!(parse_numeral(&chars("100"), 100), Some(100));
    assert_eq!(parse_numeral(&chars("101"), 100), None);
    assert_eq!(parse_numeral(&chars("18446744073709551615"), u64::MAX), Some(u64::MAX));
    assert_eq!(parse_numeral(&chars("18446744073709551616"), u64::MAX), None);
    assert_eq!(parse_numeral(&chars("99999999999999999999999"), u64::MAX), None);
}

#[test]
fn other_texts_are_no_numerals() {
    for text in ["", "+", "-", "-5", "5.5", "1e3", " 5", "5 ", "abc", "12a", "++1", "٥", "0x10"] {
        assert_eq!(parse_numeral(&chars(text), u64::MAX), None, "{:?}", text);
    }
}

#[test]
fn numerals_are_read_as_std_reads_unsigned_integers() {
    let texts = [
        "", "0", "1", "+1", "-1", "-0", "+0", "00", "255", "256", "65535", "65536", "4294967295",
        "4294967296", "18446744073709551615", "18446744073709551616", "1.0", "1e1", "a", "+", "-",
        "12 ", " 12", "1_000", "٣", "9223372036854775807", "9223372036854775808",
    ];
    for text in texts {
        assert_eq!(parse_numeral(&chars(text), u64::MAX), text.parse::<u64>().ok(), "{:?}", text);
        assert_eq!(
            parse_numeral(&chars(text), u32::MAX as u64),
            text.parse::<u32>().ok().map(|v| v as u64),
            "{:?}",
            text
        );
        assert_eq!(
            parse_numeral(&chars(text), u8::MAX as u64),
            text.parse::<u8>().ok().map(|v| v as u64),
            "{:?}",
            text
        );
    }
}
