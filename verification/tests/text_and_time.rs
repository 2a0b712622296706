//! Texts and spans of time.

use agent_turns::clock::{reading_of, span_of, MonotonicClock};
use agent_turns::duration::Duration;
use agent_turns::json::JsonValue;
use agent_turns::text::{contains, is_blank_text, joined, same_text, starts_with, trim};

#[test]
fn white_space_is_what_unicode_says() {
    for code in 0..=0x10ffffu32 {
        let Some(c) = char::from_u32(code) else {
            continue;
        };
        let text = c.to_string();
        assert_eq!(is_blank_text(&text), c.is_whitespace(), "{code:x}");
    }
    assert!(is_blank_text(""));
    assert!(!is_blank_text("  a "));
}

#[test]
fn texts_are_trimmed_like_strings() {
    for text in ["", " ", "a", " a ", "\u{2003}a b\u{85}\n", "\u{200b} x"] {
        assert_eq!(trim(text), text.trim());
    }
}

#[test]
fn texts_are_searched_like_strings() {
    let texts = ["", "a", "ab", "aab", "abab", "äb", "b"];
    for text in texts {
        for piece in texts {
            assert_eq!(contains(text, piece), text.contains(piece), "{text} {piece}");
            assert_eq!(starts_with(text, piece), text.starts_with(piece));
            assert_eq!(same_text(text, piece), text == piece);
            assert_eq!(joined(text, piece), format!("{text}{piece}"));
        }
    }
}

#[test]
fn spans_are_made_and_read() {
    assert!(Duration::from_parts(1, 1_000_000_000).is_none());
    let span = Duration::from_parts(1, 999_999_999).expect("span");
    assert_eq!(span.as_secs(), 1);
    assert_eq!(span.subsec_nanos(), 999_999_999);
    assert_eq!(span.as_millis(), 1_999);
    assert_eq!(
        Duration::from_millis(1_500),
        Duration::from_parts(1, 500_000_000).expect("span")
    );
    assert!(Duration::default().is_zero());
    assert!(!Duration::from_millis(1).is_zero());
}

#[test]
fn spans_are_added_and_subtracted() {
    let long = Duration::from_parts(u64::MAX, 999_999_999).expect("span");
    let nano = Duration::from_parts(0, 1).expect("span");
    assert!(long.checked_add(&nano).is_none());
    assert_eq!(long.checked_add(&Duration::zero()), Some(long));
    assert_eq!(
        Duration::from_millis(700).checked_add(&Duration::from_millis(800)),
        Some(Duration::from_millis(1_500))
    );
    assert_eq!(
        Duration::from_millis(1_500).saturating_sub(&Duration::from_millis(700)),
        Duration::from_millis(800)
    );
    assert_eq!(
        Duration::from_millis(700).saturating_sub(&Duration::from_millis(800)),
        Duration::zero()
    );
}

#[test]
fn spans_are_written_like_the_standard_library_writes_them() {
    for (secs, nanos) in [
        (0, 0),
        (0, 1),
        (0, 1_500),
        (0, 100_000_000),
        (1, 500_000_000),
        (45, 0),
        (u64::MAX, 999_999_999),
    ] {
        let span = Duration::from_parts(secs, nanos).expect("span");
        let expected = std::time::Duration::new(secs, nanos);
        assert_eq!(span.debug_string(), format!("{expected:?}"));
    }
}

#[test]
fn the_clock_moves_forward() {
    let clock = MonotonicClock::start();
    let first = clock.now();
    let second = clock.now();
    assert!(first.as_secs() < 60);
    assert!(first.saturating_sub(&second).is_zero());
}

#[test]
fn what_a_clock_gives_is_kept() {
    let span = span_of((7, 250_000_001));
    assert_eq!((span.as_secs(), span.subsec_nanos()), (7, 250_000_001));
    let longest = span_of((u64::MAX, 999_999_999));
    assert_eq!(longest.as_millis(), 18_446_744_073_709_551_615_999);
    assert_eq!(reading_of(Some((7, 250_000_001))), Some(span));
    assert_eq!(reading_of(None), None);
}

#[test]
fn null_is_no_value() {
    assert_eq!(JsonValue::Null.non_null(), None);
    let document = JsonValue::Document("1".to_string());
    assert_eq!(document.non_null(), Some(document));
}
