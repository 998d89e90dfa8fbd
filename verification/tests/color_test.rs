use rustiles::color::parse_color;
use rustiles::color::resolve;
use rustiles::color::Color;
use rustiles::color::PaintError;
use rustiles::style::FillColor;
use rustiles::style::FillColorWithStops;
use rustiles::style::Stop;

fn rgba(r: u8, g: u8, b: u8, a: u8) -> Color {
    Color { r, g, b, a }
}

fn stop(input: i64, output: &str) -> Stop {
    Stop { input, output: String::from(output) }
}

fn stops(entries: Vec<Stop>) -> FillColor {
    FillColor::FillColorWithStops(FillColorWithStops { stops: entries })
}

#[test]
fn parses_six_and_eight_digit_hex() {
    assert_eq!(parse_color(&String::from("#00ff7f")), Some(rgba(0, 255, 127, 255)));
    assert_eq!(parse_color(&String::from("#01020304")), Some(rgba(1, 2, 3, 4)));
    assert_eq!(parse_color(&String::from("#AaBbCc")), Some(rgba(170, 187, 204, 255)));
}

#[test]
fn rejects_malformed_color_strings() {
    for bad in ["", "#", "red", "#12345", "#1234567", "#gg0000", "00ff7f", "#00ff7f0"] {
        assert_eq!(parse_color(&String::from(bad)), None, "{:?} must not parse", bad);
    }
}

#[test]
fn literal_paint_resolves_or_fails_invalid_color() {
    assert_eq!(
        resolve(&FillColor::String(String::from("#102030")), 14),
        Ok(rgba(16, 32, 48, 255))
    );
    assert_eq!(
        resolve(&FillColor::String(String::from("olive")), 14),
        Err(PaintError::InvalidColor)
    );
}

#[test]
fn empty_stops_is_invalid_paint_expression() {
    assert_eq!(resolve(&stops(Vec::new()), 14), Err(PaintError::InvalidPaintExpression));
}

#[test]
fn malformed_stop_output_is_invalid_color() {
    let table = stops(vec![stop(10, "#101010"), stop(14, "oops")]);
    assert_eq!(resolve(&table, 12), Err(PaintError::InvalidColor));
}

#[test]
fn three_stop_table_interpolates_and_clamps() {
    let table = stops(vec![
        stop(10, "#101010"),
        stop(14, "#303030"),
        stop(18, "#505050"),
    ]);
    let a = rgba(0x10, 0x10, 0x10, 255);
    let b = rgba(0x30, 0x30, 0x30, 255);
    let c = rgba(0x50, 0x50, 0x50, 255);
    assert_eq!(resolve(&table, 5), Ok(a), "below the first stop");
    assert_eq!(resolve(&table, 10), Ok(a), "at the first stop");
    assert_eq!(resolve(&table, 14), Ok(b), "at a middle stop, exactly");
    assert_eq!(resolve(&table, 18), Ok(c), "at the last stop");
    assert_eq!(resolve(&table, 20), Ok(c), "above the last stop");

    let mid = resolve(&table, 12).unwrap();
    assert_eq!(mid, rgba(0x20, 0x20, 0x20, 255));
    for channel in [mid.r, mid.g, mid.b] {
        assert!(a.r < channel && channel < b.r, "channel must lie strictly between");
    }
}

#[test]
fn interpolation_descends_too() {
    let table = stops(vec![stop(0, "#640000"), stop(10, "#000000")]);
    assert_eq!(resolve(&table, 5), Ok(rgba(50, 0, 0, 255)));
}
