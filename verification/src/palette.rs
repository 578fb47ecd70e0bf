//! Resolve a human-friendly alias, case-insensitively, to one of the sixteen
//! slots of a Base16 palette. The alias table is fixed and exhaustive: a
//! string outside it is an error, never a fallback.

use vstd::prelude::*;
use vstd::string::*;

use crate::strutil::{eq_lower, lower_seq};

verus! {

/// A Base16 palette: sixteen named color slots, each holding whatever string
/// the palette file gave it (the resolver does not validate the format).
#[derive(Clone, Debug)]
pub struct Palette {
    pub base00: String,
    pub base01: String,
    pub base02: String,
    pub base03: String,
    pub base04: String,
    pub base05: String,
    pub base06: String,
    pub base07: String,
    pub base08: String,
    pub base09: String,
    pub base0a: String,
    pub base0b: String,
    pub base0c: String,
    pub base0d: String,
    pub base0e: String,
    pub base0f: String,
}

/// Resolution failure: the alias is not in the table.
#[derive(Clone, Copy, Debug, PartialEq, Eq, Structural)]
pub enum ColorError {
    UnknownColorAlias,
}

impl ColorError {
    /// The operator-facing message.
    pub fn message(&self) -> (r: String)
        ensures
            r@ == "Unknown Color"@,
    {
        String::from_str("Unknown Color")
    }
}

/// The slot an alias names, if any: the fixed table, consulted after folding
/// the alias to ASCII lower case.
pub open spec fn alias_slot(alias: Seq<char>) -> Option<int> {
    let a = lower_seq(alias);
    if a == "base00"@ || a == "background"@ || a == "bg"@ {
        Option::Some(0)
    } else if a == "base01"@ || a == "lighter_background"@ || a == "lighter_bg"@ {
        Option::Some(1)
    } else if a == "base02"@ || a == "selection_background"@ || a == "selection_bg"@ {
        Option::Some(2)
    } else if a == "base03"@ || a == "comments"@ || a == "invisibles"@ || a
        == "line_highlighting"@ {
        Option::Some(3)
    } else if a == "base04"@ || a == "dark_foreground"@ || a == "dark_fg"@ || a == "status_bar"@ {
        Option::Some(4)
    } else if a == "base05"@ || a == "foreground"@ || a == "fg"@ || a == "caret"@ || a
        == "delimiters"@ || a == "operators"@ {
        Option::Some(5)
    } else if a == "base06"@ || a == "light_foreground"@ || a == "light_fg"@ {
        Option::Some(6)
    } else if a == "base07"@ || a == "light_background"@ || a == "light_bg"@ {
        Option::Some(7)
    } else if a == "base08"@ || a == "variables"@ || a == "tags"@ || a == "links"@ {
        Option::Some(8)
    } else if a == "base09"@ || a == "integers"@ || a == "boolean"@ || a == "constants"@ || a
        == "url"@ {
        Option::Some(9)
    } else if a == "base0a"@ || a == "class"@ || a == "bold"@ || a == "search_background"@ || a
        == "search_bg"@ {
        Option::Some(10)
    } else if a == "base0b"@ || a == "string"@ || a == "code"@ {
        Option::Some(11)
    } else if a == "base0c"@ || a == "support"@ || a == "quotes"@ || a == "escape_characters"@ {
        Option::Some(12)
    } else if a == "base0d"@ || a == "function"@ || a == "method"@ || a == "heading"@ {
        Option::Some(13)
    } else if a == "base0e"@ || a == "keyword"@ || a == "storage"@ || a == "italic"@ {
        Option::Some(14)
    } else if a == "base0f"@ || a == "deprecated"@ {
        Option::Some(15)
    } else {
        Option::None
    }
}

/// The string held by a palette slot.
pub open spec fn slot_value(p: Palette, slot: int) -> Seq<char> {
    if slot == 0 {
        p.base00@
    } else if slot == 1 {
        p.base01@
    } else if slot == 2 {
        p.base02@
    } else if slot == 3 {
        p.base03@
    } else if slot == 4 {
        p.base04@
    } else if slot == 5 {
        p.base05@
    } else if slot == 6 {
        p.base06@
    } else if slot == 7 {
        p.base07@
    } else if slot == 8 {
        p.base08@
    } else if slot == 9 {
        p.base09@
    } else if slot == 10 {
        p.base0a@
    } else if slot == 11 {
        p.base0b@
    } else if slot == 12 {
        p.base0c@
    } else if slot == 13 {
        p.base0d@
    } else if slot == 14 {
        p.base0e@
    } else {
        p.base0f@
    }
}

/// Alias resolution is case-insensitive: two aliases that agree once folded
/// to lower case name the same slot (or both name none).
pub proof fn lemma_alias_case_insensitive(a: Seq<char>, b: Seq<char>)
    requires
        lower_seq(a) == lower_seq(b),
    ensures
        alias_slot(a) == alias_slot(b),
{
}

/// In particular, folding an alias to lower case never changes the slot it
/// names.
pub proof fn lemma_alias_lowering_is_neutral(a: Seq<char>)
    ensures
        alias_slot(lower_seq(a)) == alias_slot(a),
{
    crate::strutil::lemma_lower_idempotent(a);
    lemma_alias_case_insensitive(lower_seq(a), a);
}

/// Resolve an alias against a palette: the named slot's string, or
/// `UnknownColorAlias` exactly when the alias is outside the table.
pub fn get_color(color: &str, palette: &Palette) -> (r: Result<String, ColorError>)
    ensures
        match alias_slot(color@) {
            Option::Some(slot) => r matches Ok(v) && v@ == slot_value(*palette, slot),
            Option::None => r == Result::<String, ColorError>::Err(ColorError::UnknownColorAlias),
        },
{
    if eq_lower(color, "base00") || eq_lower(color, "background") || eq_lower(color, "bg") {
        Ok(palette.base00.clone())
    } else if eq_lower(color, "base01") || eq_lower(color, "lighter_background") || eq_lower(
        color,
        "lighter_bg",
    ) {
        Ok(palette.base01.clone())
    } else if eq_lower(color, "base02") || eq_lower(color, "selection_background") || eq_lower(
        color,
        "selection_bg",
    ) {
        Ok(palette.base02.clone())
    } else if eq_lower(color, "base03") || eq_lower(color, "comments") || eq_lower(
        color,
        "invisibles",
    ) || eq_lower(color, "line_highlighting") {
        Ok(palette.base03.clone())
    } else if eq_lower(color, "base04") || eq_lower(color, "dark_foreground") || eq_lower(
        color,
        "dark_fg",
    ) || eq_lower(color, "status_bar") {
        Ok(palette.base04.clone())
    } else if eq_lower(color, "base05") || eq_lower(color, "foreground") || eq_lower(color, "fg")
        || eq_lower(color, "caret") || eq_lower(color, "delimiters") || eq_lower(
        color,
        "operators",
    ) {
        Ok(palette.base05.clone())
    } else if eq_lower(color, "base06") || eq_lower(color, "light_foreground") || eq_lower(
        color,
        "light_fg",
    ) {
        Ok(palette.base06.clone())
    } else if eq_lower(color, "base07") || eq_lower(color, "light_background") || eq_lower(
        color,
        "light_bg",
    ) {
        Ok(palette.base07.clone())
    } else if eq_lower(color, "base08") || eq_lower(color, "variables") || eq_lower(color, "tags")
        || eq_lower(color, "links") {
        Ok(palette.base08.clone())
    } else if eq_lower(color, "base09") || eq_lower(color, "integers") || eq_lower(
        color,
        "boolean",
    ) || eq_lower(color, "constants") || eq_lower(color, "url") {
        Ok(palette.base09.clone())
    } else if eq_lower(color, "base0a") || eq_lower(color, "class") || eq_lower(color, "bold")
        || eq_lower(color, "search_background") || eq_lower(color, "search_bg") {
        Ok(palette.base0a.clone())
    } else if eq_lower(color, "base0b") || eq_lower(color, "string") || eq_lower(color, "code") {
        Ok(palette.base0b.clone())
    } else if eq_lower(color, "base0c") || eq_lower(color, "support") || eq_lower(color, "quotes")
        || eq_lower(color, "escape_characters") {
        Ok(palette.base0c.clone())
    } else if eq_lower(color, "base0d") || eq_lower(color, "function") || eq_lower(
        color,
        "method",
    ) || eq_lower(color, "heading") {
        Ok(palette.base0d.clone())
    } else if eq_lower(color, "base0e") || eq_lower(color, "keyword") || eq_lower(color, "storage")
        || eq_lower(color, "italic") {
        Ok(palette.base0e.clone())
    } else if eq_lower(color, "base0f") || eq_lower(color, "deprecated") {
        Ok(palette.base0f.clone())
    } else {
        Err(ColorError::UnknownColorAlias)
    }
}

} // verus!
