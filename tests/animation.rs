use iced_raqote::{AnimationState, Moment};

#[test]
fn ordering() {
    let now = Moment { nanos: 5_000_000_000 };
    let (less, more) = (
        now.checked_add_nanos(1_000_000).unwrap(),
        now.checked_add_nanos(10_000_000).unwrap(),
    );

    // Eq
    assert_eq!(AnimationState::NotAnimating, AnimationState::NotAnimating);
    assert_eq!(AnimationState::AnimateIn(now), AnimationState::AnimateIn(now));

    // PartialOrd
    assert!(AnimationState::AnimateIn(now) < AnimationState::NotAnimating);
    assert!(AnimationState::NotAnimating > AnimationState::AnimateIn(now));
    assert!(AnimationState::AnimateIn(less) < AnimationState::AnimateIn(more));
    assert!(AnimationState::AnimateIn(more) > AnimationState::AnimateIn(less));

    // Ord
    assert!(AnimationState::AnimateIn(now) <= AnimationState::NotAnimating);
    assert!(AnimationState::NotAnimating >= AnimationState::AnimateIn(now));
    assert!(AnimationState::AnimateIn(less) <= AnimationState::AnimateIn(more));
    assert!(AnimationState::AnimateIn(more) >= AnimationState::AnimateIn(more));
    assert!(AnimationState::AnimateIn(now) <= AnimationState::AnimateIn(now));
    assert!(AnimationState::AnimateIn(now) >= AnimationState::AnimateIn(now));
}

#[test]
fn soonest_animation_is_the_minimum() {
    let a = AnimationState::AnimateIn(Moment::from_millis(10));
    let b = AnimationState::AnimateIn(Moment::from_millis(20));
    let states = vec![AnimationState::NotAnimating, b, a];
    assert_eq!(states.iter().min().copied(), Some(a));
    assert_eq!(
        std::cmp::min(AnimationState::NotAnimating, AnimationState::NotAnimating),
        AnimationState::NotAnimating
    );
}

#[test]
fn moment_arithmetic() {
    assert_eq!(Moment::from_millis(3).nanos, 3_000_000);
    assert_eq!(Moment { nanos: u64::MAX }.checked_add_nanos(1), None);
    let a = Moment { nanos: 100 };
    let b = Moment { nanos: 250 };
    assert_eq!(b.saturating_since(a), 150);
    assert_eq!(a.saturating_since(b), 0);
}
