use zoom_control::zoom::ZoomState;
use zoom_control::zoom::INITIAL_ZOOM;
use zoom_control::zoom::MAX_ZOOM;
use zoom_control::zoom::MIN_ZOOM;
use zoom_control::zoom::ZOOM_STEP;

#[test]
fn new_state_starts_at_initial_zoom() {
    let z = ZoomState::new();
    assert_eq!(z.value(), 100);
    assert_eq!(z.value(), INITIAL_ZOOM);
}

#[test]
fn decrement_clicks_never_drop_below_min() {
    let mut z = ZoomState::new();
    for _ in 0..100 {
        z.decrement();
        assert!(z.value() >= MIN_ZOOM);
    }
    assert_eq!(z.value(), MIN_ZOOM);
}

#[test]
fn increment_clicks_never_exceed_max() {
    let mut z = ZoomState::new();
    for _ in 0..100 {
        z.increment();
        assert!(z.value() <= MAX_ZOOM);
    }
    assert_eq!(z.value(), MAX_ZOOM);
}

#[test]
fn decrement_from_twenty_floors_at_min() {
    let mut z = ZoomState { percentage: 20 };
    z.decrement();
    assert_eq!(z.value(), 10);
    z.decrement();
    assert_eq!(z.value(), 10);
}

#[test]
fn increment_from_four_ninety_caps_at_max() {
    let mut z = ZoomState { percentage: 490 };
    z.increment();
    assert_eq!(z.value(), 500);
    z.increment();
    assert_eq!(z.value(), 500);
}

#[test]
fn decrement_moves_by_one_step() {
    let mut z = ZoomState::new();
    z.decrement();
    assert_eq!(z.value(), INITIAL_ZOOM - ZOOM_STEP);
    assert_eq!(z.value(), 90);
}

#[test]
fn increment_moves_by_one_step() {
    let mut z = ZoomState::new();
    z.increment();
    assert_eq!(z.value(), INITIAL_ZOOM + ZOOM_STEP);
    assert_eq!(z.value(), 110);
}

#[test]
fn mixed_clicks_stay_in_range_and_on_grid() {
    let mut z = ZoomState::new();
    for round in 0..25 {
        if round % 3 == 0 {
            z.increment();
        } else {
            z.decrement();
        }
        assert!(z.value() >= MIN_ZOOM);
        assert!(z.value() <= MAX_ZOOM);
        assert_eq!(z.value() % ZOOM_STEP, 0);
    }
}

#[test]
fn states_with_equal_percentage_are_equal() {
    let mut a = ZoomState::new();
    let b = ZoomState { percentage: 90 };
    a.decrement();
    assert_eq!(a, b);
}
