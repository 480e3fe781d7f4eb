use solar_shaders::color::Color;
use solar_shaders::color::blend;
use solar_shaders::color::lerp;

#[test]
fn packed_roundtrip() {
    let c = Color::new(0x12, 0x34, 0x56);
    assert_eq!(c.to_hex(), 0x123456);
    assert_eq!(Color::from_hex(0x123456), c);
    // bits above the low 24 are ignored
    assert_eq!(Color::from_hex(0xFF123456), c);
    assert_eq!(Color::from_hex(0xFFFFFF).to_hex(), 0xFFFFFF);
    assert_eq!(Color::from_hex(0).to_hex(), 0);
}

#[test]
fn lerp_returns_first_at_zero_and_second_at_one() {
    let a = Color::new(10, 200, 33);
    let b = Color::new(255, 0, 128);
    assert_eq!(lerp(&a, &b, 0), a);
    assert_eq!(lerp(&a, &b, 1000), b);
    // out-of-range factors clamp to the endpoints
    assert_eq!(lerp(&a, &b, -500), a);
    assert_eq!(lerp(&a, &b, 5000), b);
}

#[test]
fn lerp_of_color_with_itself_is_identity() {
    let a = Color::new(77, 0, 255);
    for t in [0i64, 1, 250, 333, 500, 999, 1000] {
        assert_eq!(lerp(&a, &a, t), a);
    }
}

#[test]
fn lerp_midpoint_truncates() {
    let a = Color::new(0, 0, 0);
    let b = Color::new(255, 101, 1);
    let m = lerp(&a, &b, 500);
    // (0 * 500 + ch * 500) / 1000, truncated toward zero
    assert_eq!(m, Color::new(127, 50, 0));
}

#[test]
fn blend_is_monotone_when_overlay_dominates() {
    let base = Color::new(10, 20, 30);
    let overlay = Color::new(200, 220, 240);
    let mut prev = blend(&base, &overlay, 0);
    for f in [100i64, 200, 300, 450, 600, 777, 900, 1000] {
        let next = blend(&base, &overlay, f);
        assert!(prev.r <= next.r);
        assert!(prev.g <= next.g);
        assert!(prev.b <= next.b);
        prev = next;
    }
}

#[test]
fn blend_factor_zero_keeps_base() {
    let base = Color::new(1, 2, 3);
    let overlay = Color::new(254, 253, 252);
    assert_eq!(blend(&base, &overlay, 0), base);
}

#[test]
fn scale_modulates_channels() {
    let c = Color::new(200, 100, 50);
    assert_eq!(c.scale(1000), c);
    assert_eq!(c.scale(0), Color::new(0, 0, 0));
    assert_eq!(c.scale(500), Color::new(100, 50, 25));
    // factors outside the unit interval clamp
    assert_eq!(c.scale(5000), c);
    assert_eq!(c.scale(-3), Color::new(0, 0, 0));
}
