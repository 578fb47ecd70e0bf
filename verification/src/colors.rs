//! The status-bar color table: twenty-two named slots with fixed defaults,
//! each individually overridable by an environment variable whose value
//! passes the `0x` + 8 hex digit format check. The table is rebuilt on every
//! invocation and never persisted; the caller hands the environment in as a
//! list of name/value pairs.

use vstd::prelude::*;
use vstd::string::*;

use crate::strutil::str_eq;

verus! {

/// The color table handed to the status-bar bridge.
#[derive(Clone, Debug)]
pub struct Colors {
    pub black: String,
    pub white: String,
    pub red: String,
    pub green: String,
    pub blue: String,
    pub yellow: String,
    pub orange: String,
    pub magenta: String,
    pub gray: String,
    pub transparent: String,
    pub bg0: String,
    pub bg1: String,
    pub bg2: String,
    pub bar: String,
    pub bar_border: String,
    pub background_1: String,
    pub background_2: String,
    pub icon: String,
    pub label: String,
    pub popup_background: String,
    pub popup_border: String,
    pub shadow: String,
}

/// The mathematical shadow of [`Colors`]: each slot as its character
/// sequence.
pub ghost struct ColorsView {
    pub black: Seq<char>,
    pub white: Seq<char>,
    pub red: Seq<char>,
    pub green: Seq<char>,
    pub blue: Seq<char>,
    pub yellow: Seq<char>,
    pub orange: Seq<char>,
    pub magenta: Seq<char>,
    pub gray: Seq<char>,
    pub transparent: Seq<char>,
    pub bg0: Seq<char>,
    pub bg1: Seq<char>,
    pub bg2: Seq<char>,
    pub bar: Seq<char>,
    pub bar_border: Seq<char>,
    pub background_1: Seq<char>,
    pub background_2: Seq<char>,
    pub icon: Seq<char>,
    pub label: Seq<char>,
    pub popup_background: Seq<char>,
    pub popup_border: Seq<char>,
    pub shadow: Seq<char>,
}

impl View for Colors {
    type V = ColorsView;

    open spec fn view(&self) -> ColorsView {
        ColorsView {
            black: self.black@,
            white: self.white@,
            red: self.red@,
            green: self.green@,
            blue: self.blue@,
            yellow: self.yellow@,
            orange: self.orange@,
            magenta: self.magenta@,
            gray: self.gray@,
            transparent: self.transparent@,
            bg0: self.bg0@,
            bg1: self.bg1@,
            bg2: self.bg2@,
            bar: self.bar@,
            bar_border: self.bar_border@,
            background_1: self.background_1@,
            background_2: self.background_2@,
            icon: self.icon@,
            label: self.label@,
            popup_background: self.popup_background@,
            popup_border: self.popup_border@,
            shadow: self.shadow@,
        }
    }
}

/// The fixed default table.
pub open spec fn default_colors() -> ColorsView {
    ColorsView {
        black: "0xFF1E2127"@,
        white: "0xFFABB2BF"@,
        red: "0xFFE06C75"@,
        green: "0xFF98C379"@,
        blue: "0xFF61AFEF"@,
        yellow: "0xFFD19A66"@,
        orange: "0xFFF5A97F"@,
        magenta: "0xFFC678DD"@,
        gray: "0xFF5C6370"@,
        transparent: "0x00000000"@,
        bg0: "0xEE1E2127"@,
        bg1: "0xCC4B5263"@,
        bg2: "0x60494d64"@,
        bar: "0xEE1E2127"@,
        bar_border: "0x60494d64"@,
        background_1: "0xCC4B5263"@,
        background_2: "0x60494d64"@,
        icon: "0xFFABB2BF"@,
        label: "0xFFABB2BF"@,
        popup_background: "0xD01E2127"@,
        popup_border: "0xFFABB2BF"@,
        shadow: "0xFF1E2127"@,
    }
}

impl Default for Colors {
    /// The fixed default table.
    fn default() -> (r: Colors)
        ensures
            r@ == default_colors(),
    {
        let bg0 = String::from_str("0xEE1E2127");
        let bg1 = String::from_str("0xCC4B5263");
        let bg2 = String::from_str("0x60494d64");
        let black = String::from_str("0xFF1E2127");
        let white = String::from_str("0xFFABB2BF");
        Colors {
            black: black.clone(),
            white: white.clone(),
            red: String::from_str("0xFFE06C75"),
            green: String::from_str("0xFF98C379"),
            blue: String::from_str("0xFF61AFEF"),
            yellow: String::from_str("0xFFD19A66"),
            orange: String::from_str("0xFFF5A97F"),
            magenta: String::from_str("0xFFC678DD"),
            gray: String::from_str("0xFF5C6370"),
            transparent: String::from_str("0x00000000"),
            bg0: bg0.clone(),
            bg1: bg1.clone(),
            bg2: bg2.clone(),
            bar: bg0,
            bar_border: bg2.clone(),
            background_1: bg1,
            background_2: bg2,
            icon: white.clone(),
            label: white.clone(),
            popup_background: String::from_str("0xD01E2127"),
            popup_border: white,
            shadow: black,
        }
    }
}

/// A hexadecimal digit, either case.
pub open spec fn is_hex_digit(c: char) -> bool {
    ('0' <= c && c <= '9') || ('a' <= c && c <= 'f') || ('A' <= c && c <= 'F')
}

/// A well-formed ARGB color literal: exactly `0x` followed by eight
/// hexadecimal digits.
pub open spec fn is_color_spec(s: Seq<char>) -> bool {
    &&& s.len() == 10
    &&& s[0] == '0'
    &&& s[1] == 'x'
    &&& forall|i: int| 2 <= i < 10 ==> is_hex_digit(#[trigger] s[i])
}

fn is_hex_digit_exec(c: char) -> (r: bool)
    ensures
        r == is_hex_digit(c),
{
    ('0' <= c && c <= '9') || ('a' <= c && c <= 'f') || ('A' <= c && c <= 'F')
}

/// Does a string spell exactly `0x` followed by eight hexadecimal digits?
pub fn is_color(color: &String) -> (r: bool)
    ensures
        r == is_color_spec(color@),
{
    let s = color.as_str();
    if s.unicode_len() != 10 {
        return false;
    }
    if s.get_char(0) != '0' || s.get_char(1) != 'x' {
        return false;
    }
    let mut i: usize = 2;
    while i < 10
        invariant
            s@ == color@,
            s@.len() == 10,
            2 <= i <= 10,
            forall|j: int| 2 <= j < i ==> is_hex_digit(#[trigger] s@[j]),
        decreases 10 - i,
    {
        if !is_hex_digit_exec(s.get_char(i)) {
            return false;
        }
        i = i + 1;
    }
    true
}

/// One environment pair applied to the table: the named slot takes the value
/// if the name is one of the twenty-two override variables and the value
/// passes the format check; any other pair leaves the table untouched.
pub open spec fn apply_override(c: ColorsView, name: Seq<char>, value: Seq<char>) -> ColorsView {
    if !is_color_spec(value) {
        c
    } else if name == "BLACK"@ {
        ColorsView { black: value, ..c }
    } else if name == "WHITE"@ {
        ColorsView { white: value, ..c }
    } else if name == "RED"@ {
        ColorsView { red: value, ..c }
    } else if name == "GREEN"@ {
        ColorsView { green: value, ..c }
    } else if name == "BLUE"@ {
        ColorsView { blue: value, ..c }
    } else if name == "YELLOW"@ {
        ColorsView { yellow: value, ..c }
    } else if name == "ORANGE"@ {
        ColorsView { orange: value, ..c }
    } else if name == "MAGENTA"@ {
        ColorsView { magenta: value, ..c }
    } else if name == "GRAY"@ {
        ColorsView { gray: value, ..c }
    } else if name == "TRANSPARENT"@ {
        ColorsView { transparent: value, ..c }
    } else if name == "BG0"@ {
        ColorsView { bg0: value, ..c }
    } else if name == "BG1"@ {
        ColorsView { bg1: value, ..c }
    } else if name == "BG2"@ {
        ColorsView { bg2: value, ..c }
    } else if name == "BAR_COLOR"@ {
        ColorsView { bar: value, ..c }
    } else if name == "BAR_BORDER_COLOR"@ {
        ColorsView { bar_border: value, ..c }
    } else if name == "BACKGROUND_1"@ {
        ColorsView { background_1: value, ..c }
    } else if name == "BACKGROUND_2"@ {
        ColorsView { background_2: value, ..c }
    } else if name == "ICON_COLOR"@ {
        ColorsView { icon: value, ..c }
    } else if name == "LABEL_COLOR"@ {
        ColorsView { label: value, ..c }
    } else if name == "POPUP_BACKGROUND_COLOR"@ {
        ColorsView { popup_background: value, ..c }
    } else if name == "POPUP_BORDER_COLOR"@ {
        ColorsView { popup_border: value, ..c }
    } else if name == "SHADOW_COLOR"@ {
        ColorsView { shadow: value, ..c }
    } else {
        c
    }
}

/// A value that fails the format check never changes the table, whatever
/// slot its name points at.
pub proof fn lemma_invalid_override_is_ignored(c: ColorsView, name: Seq<char>, value: Seq<char>)
    requires
        !is_color_spec(value),
    ensures
        apply_override(c, name, value) == c,
{
}

/// An environment none of whose values passes the format check leaves the
/// whole table as it was, whatever the names say.
pub proof fn lemma_all_invalid_overrides_ignored(c: ColorsView, vars: Seq<(Seq<char>, Seq<char>)>)
    requires
        forall|i: int| 0 <= i < vars.len() ==> !is_color_spec((#[trigger] vars[i]).1),
    ensures
        apply_overrides(c, vars) == c,
    decreases vars.len(),
{
    if vars.len() > 0 {
        lemma_all_invalid_overrides_ignored(c, vars.drop_first());
    }
}

/// The environment pairs applied to the table in order, later pairs on top
/// of earlier ones.
pub open spec fn apply_overrides(c: ColorsView, vars: Seq<(Seq<char>, Seq<char>)>) -> ColorsView
    decreases vars.len(),
{
    if vars.len() == 0 {
        c
    } else {
        apply_overrides(apply_override(c, vars[0].0, vars[0].1), vars.drop_first())
    }
}

/// The character sequences of a list of environment pairs.
pub open spec fn pairs_view(vars: Seq<(String, String)>) -> Seq<(Seq<char>, Seq<char>)> {
    vars.map_values(|p: (String, String)| (p.0@, p.1@))
}

fn apply_env_override(colors: &mut Colors, name: &String, value: &String)
    ensures
        final(colors)@ == apply_override(old(colors)@, name@, value@),
{
    if !is_color(value) {
        return ;
    }
    let n = name.as_str();
    if str_eq(n, "BLACK") {
        colors.black = value.clone();
    } else if str_eq(n, "WHITE") {
        colors.white = value.clone();
    } else if str_eq(n, "RED") {
        colors.red = value.clone();
    } else if str_eq(n, "GREEN") {
        colors.green = value.clone();
    } else if str_eq(n, "BLUE") {
        colors.blue = value.clone();
    } else if str_eq(n, "YELLOW") {
        colors.yellow = value.clone();
    } else if str_eq(n, "ORANGE") {
        colors.orange = value.clone();
    } else if str_eq(n, "MAGENTA") {
        colors.magenta = value.clone();
    } else if str_eq(n, "GRAY") {
        colors.gray = value.clone();
    } else if str_eq(n, "TRANSPARENT") {
        colors.transparent = value.clone();
    } else if str_eq(n, "BG0") {
        colors.bg0 = value.clone();
    } else if str_eq(n, "BG1") {
        colors.bg1 = value.clone();
    } else if str_eq(n, "BG2") {
        colors.bg2 = value.clone();
    } else if str_eq(n, "BAR_COLOR") {
        colors.bar = value.clone();
    } else if str_eq(n, "BAR_BORDER_COLOR") {
        colors.bar_border = value.clone();
    } else if str_eq(n, "BACKGROUND_1") {
        colors.background_1 = value.clone();
    } else if str_eq(n, "BACKGROUND_2") {
        colors.background_2 = value.clone();
    } else if str_eq(n, "ICON_COLOR") {
        colors.icon = value.clone();
    } else if str_eq(n, "LABEL_COLOR") {
        colors.label = value.clone();
    } else if str_eq(n, "POPUP_BACKGROUND_COLOR") {
        colors.popup_background = value.clone();
    } else if str_eq(n, "POPUP_BORDER_COLOR") {
        colors.popup_border = value.clone();
    } else if str_eq(n, "SHADOW_COLOR") {
        colors.shadow = value.clone();
    }
}

/// Build the color table: the defaults, with every matching, well-formed
/// environment pair applied in order.
pub fn load_colors(vars: &Vec<(String, String)>) -> (r: Colors)
    ensures
        r@ == apply_overrides(default_colors(), pairs_view(vars@)),
{
    let mut colors = Colors::default();
    let mut i: usize = 0;
    proof {
        assert(pairs_view(vars@).skip(0) =~= pairs_view(vars@));
    }
    while i < vars.len()
        invariant
            i <= vars@.len(),
            apply_overrides(default_colors(), pairs_view(vars@)) == apply_overrides(
                colors@,
                pairs_view(vars@).skip(i as int),
            ),
        decreases vars@.len() - i,
    {
        let ghost before = colors@;
        apply_env_override(&mut colors, &vars[i].0, &vars[i].1);
        proof {
            let tail = pairs_view(vars@).skip(i as int);
            assert(tail[0] == (vars@[i as int].0@, vars@[i as int].1@));
            assert(tail.drop_first() =~= pairs_view(vars@).skip(i + 1 as int));
            assert(apply_overrides(before, tail) == apply_overrides(
                colors@,
                pairs_view(vars@).skip(i + 1 as int),
            ));
        }
        i = i + 1;
    }
    proof {
        assert(pairs_view(vars@).skip(vars@.len() as int) =~= Seq::<(
            Seq<char>,
            Seq<char>,
        )>::empty());
    }
    colors
}

} // verus!
