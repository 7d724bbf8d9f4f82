use demo_things::clock::{Span, Timestamp};
use demo_things::text::decimal_text;

fn at(unix_nanos: i128) -> Timestamp {
    Timestamp { unix_nanos }
}

#[test]
fn spans_are_counted() {
    assert_eq!(Span::from_millis(3).nanos, 3_000_000);
    assert_eq!(Span::from_secs(3).as_millis(), 3000);
    assert_eq!(Span { nanos: 1_999_999_999 }.as_secs(), 1);
    assert_eq!(Span { nanos: 1_999_999 }.as_millis(), 1);
}

#[test]
fn spans_do_not_get_negative() {
    let (long, short) = (Span::from_secs(5), Span::from_secs(3));
    assert_eq!(long.saturating_sub(short), Span::from_secs(2));
    assert_eq!(short.saturating_sub(long), Span::from_secs(0));
}

#[test]
fn elapsed_time() {
    assert_eq!(at(7).elapsed_since(at(5)).nanos, 2);
    assert_eq!(at(5).elapsed_since(at(7)).nanos, 0);
    assert_eq!(at(2).elapsed_since(at(-3)).nanos, 5);
    assert_eq!(at(-3).elapsed_since(at(-5)).nanos, 2);
    assert_eq!(at(i128::MAX).elapsed_since(at(i128::MIN)).nanos, u128::MAX);
}

#[test]
fn decimal_numbers() {
    for n in [0, 7, 10, 99, 100, 3000, 65535] {
        assert_eq!(decimal_text(n), n.to_string());
    }
}
