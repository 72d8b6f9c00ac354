use freegames::clock::today;
use freegames::date::{month_from_name, parse_iso_chars, rollover, Date};

fn chars(s: &str) -> Vec<char> {
    s.chars().collect()
}

#[test]
fn parses_exact_iso_dates() {
    assert_eq!(
        parse_iso_chars(&chars("2025-06-15")),
        Some(Date { year: 2025, month: 6, day: 15 })
    );
    assert_eq!(
        parse_iso_chars(&chars("2024-02-29")),
        Some(Date { year: 2024, month: 2, day: 29 })
    );
}

#[test]
fn rejects_malformed_or_impossible_dates() {
    assert_eq!(parse_iso_chars(&chars("2025-13-01")), None);
    assert_eq!(parse_iso_chars(&chars("2025-00-10")), None);
    assert_eq!(parse_iso_chars(&chars("2025-02-29")), None);
    assert_eq!(parse_iso_chars(&chars("2025-6-15")), None);
    assert_eq!(parse_iso_chars(&chars("2025-06-15T")), None);
    assert_eq!(parse_iso_chars(&chars("25-06-151")), None);
}

#[test]
fn formats_with_zero_padding() {
    let d = Date { year: 987, month: 3, day: 4 };
    let text: String = d.format_iso().into_iter().collect();
    assert_eq!(text, "0987-03-04");
}

#[test]
fn format_then_parse_gives_the_date_back() {
    let d = Date { year: 2025, month: 12, day: 20 };
    assert_eq!(parse_iso_chars(&d.format_iso()), Some(d));
}

#[test]
fn recognizes_month_names_in_any_ascii_case() {
    assert_eq!(month_from_name(&chars("Jan")), Some(1));
    assert_eq!(month_from_name(&chars("january")), Some(1));
    assert_eq!(month_from_name(&chars("DECEMBER")), Some(12));
    assert_eq!(month_from_name(&chars("sep")), Some(9));
    assert_eq!(month_from_name(&chars("Janx")), None);
    assert_eq!(month_from_name(&chars("")), None);
}

#[test]
fn rollover_keeps_dates_not_yet_passed() {
    let today_d = Date { year: 2025, month: 6, day: 1 };
    let naive = Date { year: 2025, month: 6, day: 15 };
    assert_eq!(rollover(naive, today_d), Some(naive));
    assert_eq!(rollover(today_d, today_d), Some(today_d));
}

#[test]
fn rollover_moves_past_dates_one_year_forward() {
    let today_d = Date { year: 2025, month: 12, day: 20 };
    let naive = Date { year: 2025, month: 1, day: 5 };
    assert_eq!(rollover(naive, today_d), Some(Date { year: 2026, month: 1, day: 5 }));
}

#[test]
fn rollover_drops_a_day_missing_from_the_next_year() {
    let today_d = Date { year: 2024, month: 3, day: 1 };
    let naive = Date { year: 2024, month: 2, day: 29 };
    assert_eq!(rollover(naive, today_d), None);
}

#[test]
fn the_clock_yields_a_valid_date() {
    let d = today().expect("the clock should name a date in the supported range");
    assert!(1 <= d.month && d.month <= 12);
    assert!(1 <= d.day && d.day <= 31);
    assert!(d.year >= 2024);
}
