use refractor::color::Color;
use refractor::shading::{accumulate, depth_exhausted, sky_color, MAX_DEPTH};

#[test]
fn sky_color_value() {
    assert_eq!(sky_color(), Color::new(68, 142, 228));
}

#[test]
fn depth_four_is_cut_off() {
    assert!(depth_exhausted(4));
    assert!(depth_exhausted(100));
    assert!(depth_exhausted(u32::MAX));
}

#[test]
fn depth_up_to_three_is_traced() {
    assert_eq!(MAX_DEPTH, 3);
    for d in 0..=3 {
        assert!(!depth_exhausted(d));
    }
}

#[test]
fn accumulate_adds_in_turn() {
    let c = accumulate(
        Color::new(10, 0, 0),
        Color::new(20, 1, 0),
        Color::new(30, 2, 0),
        Color::new(40, 3, 5),
    );
    assert_eq!(c, Color::new(100, 6, 5));
}

#[test]
fn accumulate_saturates() {
    let c = accumulate(
        Color::new(200, 250, 0),
        Color::new(100, 10, 0),
        Color::new(0, 0, 0),
        Color::new(0, 0, 255),
    );
    assert_eq!(c, Color::new(255, 255, 255));
}
