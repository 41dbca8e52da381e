use grr_util::color::parse_hex_rgb;

#[test]
fn parse_hex_with_hash() {
    assert_eq!(parse_hex_rgb("#ff0080"), Some((255, 0, 128)));
    assert_eq!(parse_hex_rgb("#000000"), Some((0, 0, 0)));
    assert_eq!(parse_hex_rgb("#FFFFFF"), Some((255, 255, 255)));
}

#[test]
fn parse_hex_without_hash() {
    assert_eq!(parse_hex_rgb("1a2B3c"), Some((26, 43, 60)));
}

#[test]
fn parse_hex_rejects_bad_input() {
    assert_eq!(parse_hex_rgb(""), None);
    assert_eq!(parse_hex_rgb("#fff"), None);
    assert_eq!(parse_hex_rgb("#ff00801"), None);
    assert_eq!(parse_hex_rgb("#gg0000"), None);
    assert_eq!(parse_hex_rgb("##f0000"), None);
}
