use pong::fixed::{Fixed, HALF, ONE};
use pong::geometry::{Point, Rect, Vec2};

fn fx(raw: i32) -> Fixed {
    Fixed::from_raw(raw)
}

fn v(x: i32, y: i32) -> Vec2 {
    Vec2::new(fx(x), fx(y))
}

#[test]
fn whole_numbers_shift_by_eight_bits() {
    assert_eq!(Fixed::new(5).to_raw(), 1280);
    assert_eq!(Fixed::new(-3).to_raw(), -768);
    assert_eq!(ONE, 256);
    assert_eq!(HALF, 128);
}

#[test]
fn add_sub_neg_abs() {
    assert_eq!(fx(300).add(fx(-500)).to_raw(), -200);
    assert_eq!(fx(300).sub(fx(-500)).to_raw(), 800);
    assert_eq!(fx(300).neg().to_raw(), -300);
    assert_eq!(fx(-1408).abs().to_raw(), 1408);
    assert_eq!(fx(1408).abs().to_raw(), 1408);
}

#[test]
fn multiplication_rounds_down() {
    // 1.5 * 2 = 3
    assert_eq!(fx(384).mul(fx(512)).to_raw(), 768);
    // times -1 negates exactly
    assert_eq!(fx(-300).mul(Fixed::new(-1)).to_raw(), 300);
    // 1/256 * 1/2 = 1/512, which rounds down to 0; its negative rounds down to -1/256
    assert_eq!(fx(1).mul(fx(128)).to_raw(), 0);
    assert_eq!(fx(-1).mul(fx(128)).to_raw(), -1);
}

#[test]
fn division_by_integer_truncates_towards_zero() {
    assert_eq!(fx(100).div_int(32).to_raw(), 3);
    assert_eq!(fx(-100).div_int(32).to_raw(), -3);
    assert_eq!(fx(-1024).div_int(32).to_raw(), -32);
}

#[test]
fn round_goes_to_nearest_with_halves_up() {
    assert_eq!(fx(51).round(), 0); // 0.2
    assert_eq!(fx(1152).round(), 5); // 4.5
    assert_eq!(fx(2496).round(), 10); // 9.75
    assert_eq!(fx(-2355).round(), -9); // -9.2
    assert_eq!(fx(-3021).round(), -12); // -11.8
    assert_eq!(fx(-640).round(), -2); // -2.5
    assert_eq!(fx(-128).round(), 0); // -0.5
}

#[test]
fn vector_add_and_round() {
    let s = v(100, -50).add(v(28, 306));
    assert_eq!(s, v(128, 256));
    assert_eq!(v(399, -563).round(), Point::new(2, -2));
    assert_eq!(Point::new(3, 4).add(Point::new(0, 16)), Point::new(3, 20));
}

#[test]
fn rects_sharing_an_edge_do_not_touch() {
    let a = Rect::new(v(0, 0), v(10, 10));
    let right = Rect::new(v(10, 0), v(10, 10));
    let below = Rect::new(v(0, 10), v(10, 10));
    assert!(!a.touches(right));
    assert!(!right.touches(a));
    assert!(!a.touches(below));
}

#[test]
fn overlapping_rects_touch() {
    let r = Rect::new(v(256, 256), v(768, 768));
    assert!(r.touches(Rect::new(v(512, 768), v(768, 768))));
    assert!(r.touches(Rect::new(v(0, 0), v(10000, 10000))));
    assert!(!r.touches(Rect::new(v(-2560, -2560), v(768, 768))));
}

#[test]
fn centre_is_position_plus_half_size() {
    let r = Rect::new(v(2560, 2560), v(2560, 2560));
    assert_eq!(r.centre(), v(3840, 3840));
    let odd = Rect::new(v(0, 0), v(3, -3));
    assert_eq!(odd.centre(), v(1, -1));
}
