use raspbot::color::{Color, MAX_DISTANCE};

#[test]
fn distance_between_extremes_is_the_maximum() {
    let black = Color::new(0, 0, 0);
    let white = Color::new(255, 255, 255);
    assert_eq!(black.abs_diff(&white), 195_075);
    assert_eq!(MAX_DISTANCE, 3 * 255 * 255);
}

#[test]
fn distance_is_the_sum_of_squared_channel_gaps() {
    let a = Color::new(10, 200, 30);
    let b = Color::new(13, 196, 42);
    // 3*3 + 4*4 + 12*12
    assert_eq!(a.abs_diff(&b), 169);
    let c = Color::new(32, 32, 32);
    assert_eq!(c.abs_diff(&Color::new(16, 16, 16)), 768);
    assert_eq!(c.abs_diff(&Color::new(255, 0, 0)), 51_777);
}

#[test]
fn distance_does_not_depend_on_argument_order() {
    let samples = [
        Color::new(0, 0, 0),
        Color::new(255, 255, 255),
        Color::new(255, 0, 0),
        Color::new(1, 2, 3),
        Color::new(200, 100, 50),
        Color::new(16, 16, 16),
    ];
    for a in samples.iter() {
        for b in samples.iter() {
            assert_eq!(a.abs_diff(b), b.abs_diff(a));
        }
    }
}

#[test]
fn distance_is_zero_exactly_between_equal_colors() {
    let samples = [
        Color::new(0, 0, 0),
        Color::new(0, 0, 1),
        Color::new(0, 1, 0),
        Color::new(1, 0, 0),
        Color::new(255, 255, 255),
        Color::new(254, 255, 255),
    ];
    for a in samples.iter() {
        for b in samples.iter() {
            assert_eq!(a.abs_diff(b) == 0, a == b);
        }
    }
}

#[test]
fn distance_never_exceeds_the_maximum() {
    let mut v: u32 = 0;
    while v < 256 {
        let a = Color::new(v as u8, (255 - v) as u8, 0);
        let b = Color::new((255 - v) as u8, v as u8, 255);
        assert!(a.abs_diff(&b) <= MAX_DISTANCE);
        v += 5;
    }
}

#[test]
fn new_keeps_the_channels() {
    let c = Color::new(7, 8, 9);
    assert_eq!((c.r, c.g, c.b), (7, 8, 9));
    assert_eq!(c, Color { r: 7, g: 8, b: 9 });
}
