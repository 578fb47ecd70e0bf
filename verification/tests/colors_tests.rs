use pomo::colors::{is_color, load_colors, Colors};

fn pairs(list: &[(&str, &str)]) -> Vec<(String, String)> {
    list.iter()
        .map(|(n, v)| (n.to_string(), v.to_string()))
        .collect()
}

#[test]
fn valid_color_literals_are_accepted() {
    assert!(is_color(&"0x00000000".to_string()));
    assert!(is_color(&"0xFF1E2127".to_string()));
    assert!(is_color(&"0xabcdef01".to_string()));
    assert!(is_color(&"0xABCDEF99".to_string()));
}

#[test]
fn malformed_color_literals_are_rejected() {
    assert!(!is_color(&"".to_string()));
    assert!(!is_color(&"0x".to_string()));
    assert!(!is_color(&"00000000".to_string()));
    assert!(!is_color(&"0X00000000".to_string()));
    assert!(!is_color(&"0x0000000".to_string()));
    assert!(!is_color(&"0x000000000".to_string()));
    assert!(!is_color(&"0xGG000000".to_string()));
    assert!(!is_color(&"1x00000000".to_string()));
    assert!(!is_color(&"0x0000000g".to_string()));
    assert!(!is_color(&"0x00 00000".to_string()));
}

#[test]
fn default_table_without_overrides() {
    let colors = load_colors(&Vec::new());
    let defaults = Colors::default();
    assert_eq!(colors.black, defaults.black);
    assert_eq!(colors.black, "0xFF1E2127");
    assert_eq!(colors.transparent, "0x00000000");
    assert_eq!(colors.bar, "0xEE1E2127");
    assert_eq!(colors.popup_background, "0xD01E2127");
    assert_eq!(colors.popup_border, "0xFFABB2BF");
    assert_eq!(colors.shadow, "0xFF1E2127");
}

#[test]
fn valid_override_replaces_its_slot_only() {
    let colors = load_colors(&pairs(&[("BLACK", "0x12345678")]));
    assert_eq!(colors.black, "0x12345678");
    assert_eq!(colors.white, "0xFFABB2BF");
}

#[test]
fn invalid_override_leaves_the_default_in_place() {
    let colors = load_colors(&pairs(&[
        ("BLACK", "0x1234567"),
        ("WHITE", "not a color"),
        ("RED", "0xZZZZZZZZ"),
        ("GREEN", "0x123456789"),
    ]));
    let defaults = Colors::default();
    assert_eq!(colors.black, defaults.black);
    assert_eq!(colors.white, defaults.white);
    assert_eq!(colors.red, defaults.red);
    assert_eq!(colors.green, defaults.green);
}

#[test]
fn unrelated_variables_are_ignored() {
    let colors = load_colors(&pairs(&[
        ("PATH", "0x11111111"),
        ("black", "0x11111111"),
    ]));
    let defaults = Colors::default();
    assert_eq!(colors.black, defaults.black);
}

#[test]
fn later_override_wins() {
    let colors = load_colors(&pairs(&[
        ("ICON_COLOR", "0x11111111"),
        ("ICON_COLOR", "0x22222222"),
    ]));
    assert_eq!(colors.icon, "0x22222222");
}

#[test]
fn every_named_slot_is_overridable() {
    let vars = pairs(&[
        ("BLACK", "0x01010101"),
        ("WHITE", "0x02020202"),
        ("RED", "0x03030303"),
        ("GREEN", "0x04040404"),
        ("BLUE", "0x05050505"),
        ("YELLOW", "0x06060606"),
        ("ORANGE", "0x07070707"),
        ("MAGENTA", "0x08080808"),
        ("GRAY", "0x09090909"),
        ("TRANSPARENT", "0x0a0a0a0a"),
        ("BG0", "0x0b0b0b0b"),
        ("BG1", "0x0c0c0c0c"),
        ("BG2", "0x0d0d0d0d"),
        ("BAR_COLOR", "0x0e0e0e0e"),
        ("BAR_BORDER_COLOR", "0x0f0f0f0f"),
        ("BACKGROUND_1", "0x10101010"),
        ("BACKGROUND_2", "0x11111111"),
        ("ICON_COLOR", "0x12121212"),
        ("LABEL_COLOR", "0x13131313"),
        ("POPUP_BACKGROUND_COLOR", "0x14141414"),
        ("POPUP_BORDER_COLOR", "0x15151515"),
        ("SHADOW_COLOR", "0x16161616"),
    ]);
    let colors = load_colors(&vars);
    assert_eq!(colors.black, "0x01010101");
    assert_eq!(colors.white, "0x02020202");
    assert_eq!(colors.red, "0x03030303");
    assert_eq!(colors.green, "0x04040404");
    assert_eq!(colors.blue, "0x05050505");
    assert_eq!(colors.yellow, "0x06060606");
    assert_eq!(colors.orange, "0x07070707");
    assert_eq!(colors.magenta, "0x08080808");
    assert_eq!(colors.gray, "0x09090909");
    assert_eq!(colors.transparent, "0x0a0a0a0a");
    assert_eq!(colors.bg0, "0x0b0b0b0b");
    assert_eq!(colors.bg1, "0x0c0c0c0c");
    assert_eq!(colors.bg2, "0x0d0d0d0d");
    assert_eq!(colors.bar, "0x0e0e0e0e");
    assert_eq!(colors.bar_border, "0x0f0f0f0f");
    assert_eq!(colors.background_1, "0x10101010");
    assert_eq!(colors.background_2, "0x11111111");
    assert_eq!(colors.icon, "0x12121212");
    assert_eq!(colors.label, "0x13131313");
    assert_eq!(colors.popup_background, "0x14141414");
    assert_eq!(colors.popup_border, "0x15151515");
    assert_eq!(colors.shadow, "0x16161616");
}
