use pomo::palette::{get_color, ColorError, Palette};

fn sample_palette() -> Palette {
    Palette {
        base00: "282c34".to_string(),
        base01: "353b45".to_string(),
        base02: "3e4451".to_string(),
        base03: "545862".to_string(),
        base04: "565c64".to_string(),
        base05: "abb2bf".to_string(),
        base06: "b6bdca".to_string(),
        base07: "c8ccd4".to_string(),
        base08: "e06c75".to_string(),
        base09: "d19a66".to_string(),
        base0a: "e5c07b".to_string(),
        base0b: "98c379".to_string(),
        base0c: "56b6c2".to_string(),
        base0d: "61afef".to_string(),
        base0e: "c678dd".to_string(),
        base0f: "be5046".to_string(),
    }
}

#[test]
fn slot_names_resolve_to_their_slots() {
    let palette = sample_palette();
    assert_eq!(get_color("base00", &palette).unwrap(), "282c34");
    assert_eq!(get_color("base05", &palette).unwrap(), "abb2bf");
    assert_eq!(get_color("base0f", &palette).unwrap(), "be5046");
}

#[test]
fn aliases_resolve_to_their_slots() {
    let palette = sample_palette();
    assert_eq!(get_color("background", &palette).unwrap(), "282c34");
    assert_eq!(get_color("bg", &palette).unwrap(), "282c34");
    assert_eq!(get_color("foreground", &palette).unwrap(), "abb2bf");
    assert_eq!(get_color("caret", &palette).unwrap(), "abb2bf");
    assert_eq!(get_color("invisibles", &palette).unwrap(), "545862");
    assert_eq!(get_color("string", &palette).unwrap(), "98c379");
    assert_eq!(get_color("deprecated", &palette).unwrap(), "be5046");
    assert_eq!(get_color("search_bg", &palette).unwrap(), "e5c07b");
    assert_eq!(get_color("url", &palette).unwrap(), "d19a66");
}

#[test]
fn resolution_is_case_insensitive() {
    let palette = sample_palette();
    assert_eq!(get_color("FOREGROUND", &palette).unwrap(), "abb2bf");
    assert_eq!(get_color("Fg", &palette).unwrap(), "abb2bf");
    assert_eq!(get_color("BASE0A", &palette).unwrap(), "e5c07b");
    assert_eq!(get_color("base0A", &palette).unwrap(), "e5c07b");
    assert_eq!(get_color("Line_Highlighting", &palette).unwrap(), "545862");
}

#[test]
fn unknown_aliases_are_errors_not_fallbacks() {
    let palette = sample_palette();
    assert_eq!(
        get_color("bases", &palette),
        Err(ColorError::UnknownColorAlias)
    );
    assert_eq!(get_color("", &palette), Err(ColorError::UnknownColorAlias));
    assert_eq!(
        get_color("base10", &palette),
        Err(ColorError::UnknownColorAlias)
    );
    assert_eq!(
        get_color("backgroundd", &palette),
        Err(ColorError::UnknownColorAlias)
    );
}

#[test]
fn unknown_alias_message_matches_the_cli() {
    assert_eq!(ColorError::UnknownColorAlias.message(), "Unknown Color");
}
