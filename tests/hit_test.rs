use iced_raqote::{HitTestResult, Vector};

fn delta(x: f32) -> Vector {
    Vector { x_bits: x.to_bits(), y_bits: 0.0f32.to_bits() }
}

#[test]
fn char_offset_is_the_cursor() {
    assert_eq!(HitTestResult::CharOffset(3).cursor(), 3);
}

#[test]
fn nearest_to_the_right_moves_past_the_character() {
    assert_eq!(HitTestResult::NearestCharOffset(3, delta(0.5)).cursor(), 4);
    assert_eq!(HitTestResult::NearestCharOffset(3, delta(f32::INFINITY)).cursor(), 4);
}

#[test]
fn nearest_not_to_the_right_stays() {
    assert_eq!(HitTestResult::NearestCharOffset(3, delta(0.0)).cursor(), 3);
    assert_eq!(HitTestResult::NearestCharOffset(3, delta(f32::EPSILON)).cursor(), 3);
    assert_eq!(HitTestResult::NearestCharOffset(3, delta(-2.0)).cursor(), 3);
    assert_eq!(HitTestResult::NearestCharOffset(3, delta(f32::NAN)).cursor(), 3);
}
