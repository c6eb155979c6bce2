use entity_cache::color::Color;

#[test]
fn from_decimal() {
    let decimal: u32 = 16777215;
    let expected = Color::new(255, 255, 255);

    assert_eq!(Color::from_decimal(decimal), expected);
}

#[test]
fn to_decimal() {
    let color = Color::new(255, 255, 255);
    let expected: u32 = 16777215;

    assert_eq!(color.to_decimal(), expected);
}

#[test]
fn channels_read_back() {
    let color = Color::new(12, 34, 56);
    assert_eq!(color.r(), 12);
    assert_eq!(color.g(), 34);
    assert_eq!(color.b(), 56);
}

#[test]
fn decimal_round_trip() {
    let color = Color::new(1, 2, 3);
    assert_eq!(Color::from_decimal(color.to_decimal()), color);
    let decimal: u32 = 0x00_0a_0b_0c;
    assert_eq!(Color::from_decimal(decimal).to_decimal(), decimal);
}

#[test]
fn from_decimal_ignores_high_bits() {
    let decimal: u32 = 0xff_01_02_03;
    assert_eq!(Color::from_decimal(decimal), Color::new(1, 2, 3));
}

#[test]
fn default_is_white() {
    assert_eq!(Color::default(), Color::new(255, 255, 255));
}
