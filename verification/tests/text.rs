use shuttlings_cch24::text::{chars_of, parse_numeral, push_decimal, same_text, split_at};

fn numeral(text: &str, max: u64) -> Option<u64> {
    parse_numeral(&chars_of(text), max)
}

fn decimal(n: u64) -> String {
    let mut out = String::new();
    push_decimal(&mut out, n);
    out
}

fn parts(text: &str, separator: char) -> Vec<String> {
    split_at(&chars_of(text), separator)
        .into_iter()
        .map(|part| part.into_iter().collect())
        .collect()
}

#[test]
fn same_text_compares_characters() {
    assert!(same_text("cookie", "cookie"));
    assert!(same_text("", ""));
    assert!(!same_text("cookie", "Cookie"));
    assert!(!same_text("cookie", "cookies"));
    assert!(same_text("🍪", "🍪"));
}

#[test]
fn chars_of_keeps_every_character() {
    assert_eq!(chars_of("a⬜b"), vec!['a', '⬜', 'b']);
    assert_eq!(chars_of(""), Vec::<char>::new());
}

#[test]
fn decimal_writes_numbers_without_leading_zeros() {
    assert_eq!(decimal(0), "0");
    assert_eq!(decimal(7), "7");
    assert_eq!(decimal(10), "10");
    assert_eq!(decimal(255), "255");
    assert_eq!(decimal(1_000_000), "1000000");
    assert_eq!(decimal(u64::MAX), "18446744073709551615");
    let mut out = String::from("n = ");
    push_decimal(&mut out, 42);
    assert_eq!(out, "n = 42");
}

#[test]
fn decimal_agrees_with_the_standard_library() {
    let mut n: u64 = 0;
    while n < 5_000 {
        assert_eq!(decimal(n), n.to_string());
        n += 1;
    }
    let mut n: u64 = 1;
    for _ in 0..19 {
        n *= 10;
        assert_eq!(decimal(n - 1), (n - 1).to_string());
        assert_eq!(decimal(n), n.to_string());
    }
}

#[test]
fn numerals_are_digits_after_an_optional_plus() {
    assert_eq!(numeral("0", 255), Some(0));
    assert_eq!(numeral("7", 255), Some(7));
    assert_eq!(numeral("255", 255), Some(255));
    assert_eq!(numeral("256", 255), None);
    assert_eq!(numeral("+12", 255), Some(12));
    assert_eq!(numeral("007", 255), Some(7));
    assert_eq!(numeral("+000", 255), Some(0));
    assert_eq!(numeral("", 255), None);
    assert_eq!(numeral("+", 255), None);
    assert_eq!(numeral("-1", 255), None);
    assert_eq!(numeral("-0", 255), None);
    assert_eq!(numeral("++1", 255), None);
    assert_eq!(numeral("1+", 255), None);
    assert_eq!(numeral(" 1", 255), None);
    assert_eq!(numeral("1 ", 255), None);
    assert_eq!(numeral("1.0", 255), None);
    assert_eq!(numeral("१", 255), None);
    assert_eq!(numeral("18446744073709551615", u64::MAX), Some(u64::MAX));
    assert_eq!(numeral("18446744073709551616", u64::MAX), None);
    assert_eq!(numeral("99999999999999999999999999", u64::MAX), None);
    assert_eq!(numeral("0000000000000000000000000001", 1), Some(1));
}

#[test]
fn numerals_agree_with_the_standard_library() {
    let alphabet = ['0', '1', '2', '5', '9', '+', '-', ' ', 'x'];
    let mut texts = vec![String::new()];
    for _ in 0..4 {
        let mut longer = Vec::new();
        for text in &texts {
            for c in alphabet {
                let mut next = text.clone();
                next.push(c);
                longer.push(next);
            }
        }
        for text in &longer {
            assert_eq!(
                numeral(text, 255),
                text.parse::<u8>().ok().map(u64::from),
                "{:?}",
                text
            );
            assert_eq!(numeral(text, u64::MAX), text.parse::<u64>().ok(), "{:?}", text);
        }
        texts = longer;
    }
}

#[test]
fn split_gives_a_part_for_each_side_of_a_separator() {
    assert_eq!(parts("10.0.0.1", '.'), vec!["10", "0", "0", "1"]);
    assert_eq!(parts("", '.'), vec![""]);
    assert_eq!(parts("abc", '.'), vec!["abc"]);
    assert_eq!(parts(".", '.'), vec!["", ""]);
    assert_eq!(parts("1..2", '.'), vec!["1", "", "2"]);
    assert_eq!(parts(".1.", '.'), vec!["", "1", ""]);
}

#[test]
fn split_agrees_with_the_standard_library() {
    let alphabet = ['.', '1', 'a'];
    let mut texts = vec![String::new()];
    for _ in 0..6 {
        let mut longer = Vec::new();
        for text in &texts {
            for c in alphabet {
                let mut next = text.clone();
                next.push(c);
                longer.push(next);
            }
        }
        for text in &longer {
            let expected: Vec<String> = text.split('.').map(String::from).collect();
            assert_eq!(parts(text, '.'), expected);
            assert_eq!(parts(text, '.').join("."), *text);
        }
        texts = longer;
    }
}
