use regressiva::countdown::{Countdown, Status};
use regressiva::controls::{handle_enter, handle_text_input, Rect};
use regressiva::text_entry::TextEntry;

fn typed(parts: &[&str]) -> TextEntry {
    let mut t = TextEntry::new();
    for p in parts {
        t.append(p);
    }
    t
}

#[test]
fn colon_inserted_before_third_character() {
    let mut t = TextEntry::new();
    t.append("1");
    t.append("2");
    assert_eq!(t.as_str(), "12");
    t.append("3");
    assert_eq!(t.as_str(), "12:3");
}

#[test]
fn backspace_sequence_strips_dangling_colon() {
    let mut t = typed(&["1", "2", "3"]);
    assert_eq!(t.as_str(), "12:3");
    t.backspace();
    assert_eq!(t.as_str(), "12:");
    t.backspace();
    assert_eq!(t.as_str(), "12");
    t.backspace();
    assert_eq!(t.as_str(), "1");
}

#[test]
fn backspace_on_empty_is_noop() {
    let mut t = TextEntry::new();
    t.backspace();
    assert!(t.is_empty());
}

#[test]
fn backspace_to_two_ending_in_colon_drops_colon() {
    let mut t = typed(&["1:2"]);
    t.backspace();
    assert_eq!(t.as_str(), "1");
}

#[test]
fn append_truncates_to_five() {
    let t = typed(&["12", "345", "6"]);
    assert_eq!(t.as_str(), "12:34");
    let u = typed(&["123456"]);
    assert_eq!(u.as_str(), "12345");
}

#[test]
fn no_colon_when_one_is_present() {
    let t = typed(&["1:", "2"]);
    assert_eq!(t.as_str(), "1:2");
}

#[test]
fn commit_reads_minutes_and_seconds() {
    let mut t = typed(&["05", "30"]);
    assert_eq!(t.as_str(), "05:30");
    assert_eq!(t.commit(), Some(330));
    assert!(t.is_empty());
}

#[test]
fn commit_without_colon_is_noop() {
    let mut t = typed(&["0530"]);
    assert_eq!(t.as_str(), "0530");
    assert_eq!(t.commit(), None);
    assert_eq!(t.as_str(), "0530");
}

#[test]
fn commit_with_non_numeric_half_is_noop() {
    let mut t = typed(&["1a", "2"]);
    assert_eq!(t.as_str(), "1a:2");
    assert_eq!(t.commit(), None);
    assert_eq!(t.as_str(), "1a:2");
    let mut e = typed(&["12", ""]);
    e.append(":");
    assert_eq!(e.as_str(), "12::");
    assert_eq!(e.commit(), None);
    let mut empty_half = typed(&[":5"]);
    assert_eq!(empty_half.commit(), None);
    assert_eq!(empty_half.as_str(), ":5");
}

#[test]
fn commit_accepts_plus_sign_and_large_halves() {
    let mut t = typed(&["+1:+2"]);
    assert_eq!(t.commit(), Some(62));
    let mut u = typed(&["9999:"]);
    assert_eq!(u.as_str(), "9999:");
    assert_eq!(u.commit(), None);
    let mut v = typed(&["99", "99"]);
    assert_eq!(v.commit(), Some(99 * 60 + 99));
}

#[test]
fn enter_sets_countdown_and_clears_buffer() {
    let mut t = typed(&["01", "15"]);
    let mut c = Countdown::new(30, 0);
    c.start(0);
    handle_enter(&mut t, &mut c);
    assert!(t.is_empty());
    assert_eq!(c.remaining_secs(), 75);
    assert_eq!(c.status(), Status::Stopped);
}

#[test]
fn enter_on_malformed_entry_changes_nothing() {
    let mut t = typed(&["0530"]);
    let mut c = Countdown::new(30, 0);
    c.start(0);
    handle_enter(&mut t, &mut c);
    assert_eq!(t.as_str(), "0530");
    assert_eq!(c.remaining_secs(), 30);
    assert!(c.is_running());
}

#[test]
fn text_input_only_over_entry_field() {
    let field = Rect { x: 160, y: 475, w: 960, h: 72 };
    let mut t = TextEntry::new();
    handle_text_input("1", &mut t, 200, 500, &field);
    assert_eq!(t.as_str(), "1");
    handle_text_input("2", &mut t, 10, 10, &field);
    assert_eq!(t.as_str(), "1");
    handle_text_input("2", &mut t, 1120, 500, &field);
    assert_eq!(t.as_str(), "1");
    handle_text_input("2", &mut t, 1119, 546, &field);
    assert_eq!(t.as_str(), "12");
}
