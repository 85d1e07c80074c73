use frender::color::{Color, BLACK, GRAY, RED, TRANSPARENT, WHITE};

#[test]
fn packed_value_round_trips() {
    for value in [0u32, 1, 0xFF, 0x1234_5678, 0xFFFF_FFFF, 0x8000_0000] {
        assert_eq!(Color::from_u32(value).as_u32(), value);
        assert_eq!(Color::from(value).as_u32(), value);
        assert_eq!(Color::from(value), Color(value));
    }
}

#[test]
fn channels_sit_at_fixed_offsets() {
    let color = Color(0x12_34_56_78);
    assert_eq!(color.r(), 0x34);
    assert_eq!(color.g(), 0x56);
    assert_eq!(color.b(), 0x78);
    assert_eq!(color.as_u32() >> 24, 0x12);
}

#[test]
fn channels_of_the_named_colors() {
    assert_eq!((Color(RED).r(), Color(RED).g(), Color(RED).b()), (0xFF, 0, 0));
    assert_eq!((Color(WHITE).r(), Color(WHITE).g(), Color(WHITE).b()), (0xFF, 0xFF, 0xFF));
    assert_eq!((Color(GRAY).r(), Color(GRAY).g(), Color(GRAY).b()), (0x33, 0x33, 0x33));
    assert_eq!((Color(BLACK).r(), Color(BLACK).g(), Color(BLACK).b()), (0, 0, 0));
}

#[test]
fn transparent_means_alpha_zero() {
    assert!(Color(TRANSPARENT).is_transparent());
    assert!(Color(0x00_FF_FF_FF).is_transparent());
    assert!(!Color(0x01_00_00_00).is_transparent());
    assert!(!Color(BLACK).is_transparent());
    assert!(!Color(WHITE).is_transparent());
}

#[test]
fn channels_build_the_packed_value() {
    assert_eq!(Color::from_argb(0x12, 0x34, 0x56, 0x78), Color(0x12_34_56_78));
    assert_eq!(Color::from_argb(0xFF, 0xFF, 0, 0), Color(RED));
    assert_eq!(Color::from_argb(0, 0, 0, 0), Color(TRANSPARENT));
}
