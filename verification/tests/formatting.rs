use rewards::formatting::{decimal_string, format_secs_short, human_format_duration};
use rewards::text::trim_to;

#[test]
fn secs_short_words() {
    assert_eq!(format_secs_short(0), "0 seconds");
    assert_eq!(format_secs_short(1), "1 second");
    assert_eq!(format_secs_short(59), "59 seconds");
    assert_eq!(format_secs_short(60), "1 minute");
    assert_eq!(format_secs_short(125), "2 minutes");
    assert_eq!(format_secs_short(3600), "1 hour");
    assert_eq!(format_secs_short(3 * 3600), "3 hours");
    assert_eq!(format_secs_short(86400), "1 day");
    assert_eq!(format_secs_short(5 * 86400), "5 days");
}

#[test]
fn decimals() {
    assert_eq!(decimal_string(0), "0");
    assert_eq!(decimal_string(1234567890), "1234567890");
    assert_eq!(decimal_string(u64::MAX), u64::MAX.to_string());
}

#[test]
fn human_duration_is_symmetric_in_sign() {
    assert_eq!(human_format_duration(90), "1 minute ago");
    assert_eq!(human_format_duration(-90), "in 1 minute");
    assert_eq!(human_format_duration(0), "now");
    assert_eq!(human_format_duration(-7200), "in 2 hours");
}

#[test]
fn trim_to_keeps_short_text() {
    assert_eq!(trim_to("hello".to_string(), 10), "hello");
    assert_eq!(trim_to("hello".to_string(), 8), "hello");
}

#[test]
fn trim_to_cuts_long_text() {
    assert_eq!(trim_to("hello world".to_string(), 8), "hello...");
    let once = trim_to("abcdefghijklmnop".to_string(), 10);
    assert_eq!(once, "abcdefg...");
    assert_eq!(once.len(), 10);
    assert_eq!(trim_to(once.clone(), 10), once);
}
