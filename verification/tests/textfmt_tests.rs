use tradedoc::textfmt::{format_date, format_decimal, signed_string, truncate_string, unsigned_string};
use tradedoc::types::{DateTime, Money};

#[test]
fn truncation_cuts_to_the_budget_with_ellipsis() {
    let input = "abcdefghijklmnopqrstuvwxyz1234"; // 30 characters
    assert_eq!(input.chars().count(), 30);
    let out = truncate_string(input, 25);
    assert_eq!(out.chars().count(), 25);
    assert!(out.ends_with("..."));
    assert_eq!(&out[0..22], &input[0..22]);
}

#[test]
fn truncation_keeps_short_strings_unchanged() {
    assert_eq!(truncate_string("short", 25), "short");
    assert_eq!(truncate_string("", 3), "");
    // A string within the budget needs no room for the ellipsis.
    assert_eq!(truncate_string("ab", 2), "ab");
    assert_eq!(truncate_string("", 0), "");
    // Truncating twice is the same as truncating once.
    let long = "abcdefghijklmnopqrstuvwxyz1234";
    let once = truncate_string(long, 25);
    assert_eq!(truncate_string(&once, 25), once);
    let exact = "exactly25exactly25exactly";
    assert_eq!(exact.chars().count(), 25);
    assert_eq!(truncate_string(exact, 25), exact);
}

#[test]
fn truncation_counts_characters_not_bytes() {
    let thai = "สวัสดีสวัสดีสวัสดีสวัสดีสวัสดี"; // 30 Thai characters
    assert_eq!(thai.chars().count(), 30);
    let out = truncate_string(thai, 25);
    assert_eq!(out.chars().count(), 25);
    assert!(out.ends_with("..."));
}

#[test]
fn money_formats_with_two_fraction_digits() {
    assert_eq!(format_decimal(Money { cents: 15000 }, "€"), "€ 150.00");
    assert_eq!(format_decimal(Money { cents: 55500 }, "USD"), "USD 555.00");
    assert_eq!(format_decimal(Money { cents: 7 }, "$"), "$ 0.07");
    assert_eq!(format_decimal(Money { cents: 0 }, "$"), "$ 0.00");
    assert_eq!(format_decimal(Money { cents: -1234 }, "$"), "$ -12.34");
    assert_eq!(
        format_decimal(Money { cents: i64::MIN }, "$"),
        "$ -92233720368547758.08"
    );
}

#[test]
fn dates_format_zero_padded() {
    let d = DateTime { year: 2023, month: 1, day: 1, hour: 12, minute: 0, second: 0 };
    assert_eq!(format_date(d), "2023-01-01");
    let d = DateTime { year: 476, month: 9, day: 4, hour: 0, minute: 0, second: 0 };
    assert_eq!(format_date(d), "0476-09-04");
    let d = DateTime { year: 2024, month: 12, day: 31, hour: 23, minute: 59, second: 59 };
    assert_eq!(format_date(d), "2024-12-31");
}

#[test]
fn plain_integer_strings() {
    assert_eq!(unsigned_string(0), "0");
    assert_eq!(unsigned_string(90210), "90210");
    assert_eq!(signed_string(-42), "-42");
    assert_eq!(signed_string(3), "3");
}
