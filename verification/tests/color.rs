use ray_tracing::color::Color;
use ray_tracing::color::ColorParseError;

#[test]
fn new_keeps_channels() {
    let c = Color::new(12, 34, 56);
    assert_eq!(c.r, 12);
    assert_eq!(c.g, 34);
    assert_eq!(c.b, 56);
}

#[test]
fn to_hex_known_values() {
    assert_eq!(Color::new(255, 0, 171).to_hex(), "#ff00ab");
    assert_eq!(Color::new(0, 0, 0).to_hex(), "#000000");
    assert_eq!(Color::new(18, 52, 86).to_hex(), "#123456");
    assert_eq!(Color::new(255, 255, 255).to_hex(), "#ffffff");
}

#[test]
fn from_hex_known_values() {
    assert_eq!(Color::from_hex("#ff00ab"), Ok(Color::new(255, 0, 171)));
    assert_eq!(Color::from_hex("#000000"), Ok(Color::new(0, 0, 0)));
    assert_eq!(Color::from_hex("#0a0B0c"), Ok(Color::new(10, 11, 12)));
}

#[test]
fn from_hex_accepts_uppercase_digits() {
    assert_eq!(Color::from_hex("#FF00AB"), Ok(Color::new(255, 0, 171)));
}

#[test]
fn from_hex_ignores_trailing_text() {
    assert_eq!(Color::from_hex("#ff00abzz"), Ok(Color::new(255, 0, 171)));
}

#[test]
fn from_hex_missing_prefix() {
    assert_eq!(Color::from_hex(""), Err(ColorParseError::MissingPrefix));
    assert_eq!(
        Color::from_hex("ff00ab"),
        Err(ColorParseError::MissingPrefix)
    );
}

#[test]
fn from_hex_too_short() {
    assert_eq!(Color::from_hex("#"), Err(ColorParseError::MissingDigits));
    assert_eq!(Color::from_hex("#f"), Err(ColorParseError::MissingDigits));
    assert_eq!(
        Color::from_hex("#ff0"),
        Err(ColorParseError::MissingDigits)
    );
    assert_eq!(
        Color::from_hex("#ff00a"),
        Err(ColorParseError::MissingDigits)
    );
}

#[test]
fn from_hex_rejects_non_digits() {
    assert_eq!(
        Color::from_hex("#gg0000"),
        Err(ColorParseError::InvalidDigit)
    );
    assert_eq!(
        Color::from_hex("#ff00ag"),
        Err(ColorParseError::InvalidDigit)
    );
    assert_eq!(
        Color::from_hex("# f0000"),
        Err(ColorParseError::InvalidDigit)
    );
}

#[test]
fn hex_round_trip_every_channel_value() {
    for v in 0..=255u8 {
        for c in [
            Color::new(v, 10, 200),
            Color::new(3, v, 77),
            Color::new(128, 9, v),
        ] {
            assert_eq!(Color::from_hex(&c.to_hex()), Ok(c));
        }
    }
}

#[test]
fn hex_round_trip_sampled_triples() {
    let samples = [0u8, 1, 15, 16, 127, 128, 254, 255];
    for &r in &samples {
        for &g in &samples {
            for &b in &samples {
                let c = Color::new(r, g, b);
                assert_eq!(Color::from_hex(&c.to_hex()), Ok(c));
            }
        }
    }
}
