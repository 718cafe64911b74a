use iced_native::widget::text_input::Value;
use iced_raqote::{AnimationState, Cursor, Moment, State};

#[test]
fn state_is_clamped_to_the_value() {
    let value = Value::new("hello");
    let c = Cursor::new(State::Index(9), Moment { nanos: 0 });
    assert_eq!(c.state(&value), State::Index(5));
    let c = Cursor::new(State::Selection { start: 7, end: 9 }, Moment { nanos: 0 });
    assert_eq!(c.state(&value), State::Index(5));
    let c = Cursor::new(State::Selection { start: 1, end: 9 }, Moment { nanos: 0 });
    assert_eq!(c.state(&value), State::Selection { start: 1, end: 5 });
}

#[test]
fn default_cursor_is_at_the_start() {
    let value = Value::new("abc");
    assert_eq!(Cursor::default().state(&value), State::Index(0));
}

#[test]
fn moves_left_and_right() {
    let value = Value::new("abc");
    let mut c = Cursor::default();
    c.move_left(&value);
    assert_eq!(c.state(&value), State::Index(0));
    c.move_right(&value);
    c.move_right(&value);
    assert_eq!(c.state(&value), State::Index(2));
    c.move_right_by_amount(&value, usize::MAX);
    assert_eq!(c.state(&value), State::Index(3));
    c.move_left(&value);
    assert_eq!(c.state(&value), State::Index(2));
}

#[test]
fn selections_collapse_when_moving() {
    let value = Value::new("abcdef");
    let mut c = Cursor::default();
    c.select_range(4, 1);
    c.move_left(&value);
    assert_eq!(c.state(&value), State::Index(1));
    c.select_range(4, 1);
    c.move_right(&value);
    assert_eq!(c.state(&value), State::Index(4));
}

#[test]
fn selects_by_one() {
    let value = Value::new("ab");
    let mut c = Cursor::default();
    c.select_left(&value);
    assert_eq!(c.state(&value), State::Index(0));
    c.select_right(&value);
    assert_eq!(c.state(&value), State::Selection { start: 0, end: 1 });
    c.select_right(&value);
    c.select_right(&value);
    assert_eq!(c.state(&value), State::Selection { start: 0, end: 2 });
    c.select_left(&value);
    c.select_left(&value);
    assert_eq!(c.state(&value), State::Index(0));
    assert_eq!(c.selection(&value), None);
}

#[test]
fn selects_all_and_reports_ordered_bounds() {
    let value = Value::new("hello");
    let mut c = Cursor::default();
    c.select_all(&value);
    assert_eq!(c.selection(&value), Some((0, 5)));
    c.select_range(4, 2);
    assert_eq!(c.selection(&value), Some((2, 4)));
    assert_eq!(c.start(&value), 4);
    assert_eq!(c.end(&value), 2);
    c.select_range(8, 9);
    assert_eq!(c.start(&value), 5);
    assert_eq!(c.end(&value), 5);
}

#[test]
fn moves_and_selects_by_words() {
    let value = Value::new("hello world");
    assert_eq!(value.len(), 11);
    let mut c = Cursor::default();
    c.move_right_by_words(&value);
    assert_eq!(c.state(&value), State::Index(5));
    c.move_to(11);
    c.move_left_by_words(&value);
    assert_eq!(c.state(&value), State::Index(6));
    c.move_to(0);
    c.select_right_by_words(&value);
    assert_eq!(c.state(&value), State::Selection { start: 0, end: 5 });
    c.move_to(11);
    c.select_left_by_words(&value);
    assert_eq!(c.state(&value), State::Selection { start: 11, end: 6 });
}

#[test]
fn blinks_in_half_second_phases_for_ten_seconds() {
    let c = Cursor::new(State::Index(0), Moment { nanos: 1_000_000_000 });
    assert!(c.blink_visible_at(Moment { nanos: 1_000_000_000 }));
    assert!(c.blink_visible_at(Moment { nanos: 1_499_000_000 }));
    assert!(!c.blink_visible_at(Moment { nanos: 1_600_000_000 }));
    assert!(c.blink_visible_at(Moment { nanos: 2_100_000_000 }));
    assert!(c.blink_visible_at(Moment { nanos: 12_700_000_000 }));
    assert!(c.blink_visible_at(Moment { nanos: 0 }));
}

#[test]
fn animates_only_while_blinking() {
    let c = Cursor::new(State::Index(0), Moment { nanos: 0 });
    assert_eq!(
        c.next_animation_at(Moment { nanos: 1_000 }),
        AnimationState::AnimateIn(Moment { nanos: 500_001_000 })
    );
    assert_eq!(c.next_animation_at(Moment { nanos: 10_000_000_001 }), AnimationState::NotAnimating);
    let s = Cursor::new(State::Selection { start: 0, end: 2 }, Moment { nanos: 0 });
    assert_eq!(s.next_animation_at(Moment { nanos: 1_000 }), AnimationState::NotAnimating);
    assert_eq!(s.next_animation(), AnimationState::NotAnimating);
}

#[test]
fn click_keeps_the_state() {
    let value = Value::new("abc");
    let mut c = Cursor::new(State::Index(2), Moment { nanos: 0 });
    c.on_click();
    assert_eq!(c.state(&value), State::Index(2));
}

#[test]
fn previous_word_start_never_passes_the_start() {
    let value = Value::new("\u{600} ");
    assert_eq!(value.len(), 1);
    let mut c = Cursor::new(State::Index(1), Moment { nanos: 0 });
    c.move_left_by_words(&value);
    assert_eq!(c.state(&value), State::Index(0));
    let mut s = Cursor::new(State::Index(1), Moment { nanos: 0 });
    s.select_left_by_words(&value);
    assert_eq!(s.state(&value), State::Selection { start: 1, end: 0 });
}

#[test]
fn previous_word_start_counts_trailing_blanks() {
    let value = Value::new("one two  ");
    assert_eq!(iced_raqote::value::previous_start_of_word(&value, 9), 4);
    assert_eq!(iced_raqote::value::previous_start_of_word(&value, 3), 0);
    assert_eq!(iced_raqote::value::previous_start_of_word(&value, 0), 0);
    assert_eq!(iced_raqote::value::previous_start_of_word(&Value::new("   "), 3), 0);
}
