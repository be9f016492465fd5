use vstd::prelude::*;
use crate::text::{dec_chars, push_char, push_u32_dec, str_eq};

verus! {

/// Perceived luminance of an RGB color, scaled by 1000: the classic
/// `0.299 r + 0.587 g + 0.114 b` formula in thousandths.
pub open spec fn luminance_milli(r: u8, g: u8, b: u8) -> int {
    299 * (r as int) + 587 * (g as int) + 114 * (b as int)
}

/// The SGR foreground fragment chosen for a background color: black text on
/// light backgrounds (luminance at least 128), bright white on dark ones.
pub open spec fn fg_for(r: u8, g: u8, b: u8) -> Seq<char> {
    if luminance_milli(r, g, b) >= 128000 {
        "30;"@
    } else {
        "97;"@
    }
}

/// The numeric value of a hexadecimal digit.
pub open spec fn hex_val(c: char) -> Option<u8> {
    let u = c as u32;
    if 48 <= u <= 57 {  // '0'..='9'
        Some((u - 48) as u8)
    } else if 97 <= u <= 102 {  // 'a'..='f'
        Some((u - 87) as u8)
    } else if 65 <= u <= 70 {  // 'A'..='F'
        Some((u - 55) as u8)
    } else {
        None
    }
}

/// The RGB triple of a `#RRGGBB` color string, when it has that exact shape.
pub open spec fn hex_color(s: Seq<char>) -> Option<(u8, u8, u8)> {
    if s.len() == 7 && s[0] == '#' && hex_val(s[1]) is Some && hex_val(s[2]) is Some && hex_val(
        s[3],
    ) is Some && hex_val(s[4]) is Some && hex_val(s[5]) is Some && hex_val(s[6]) is Some {
        Some(
            (
                (16 * hex_val(s[1])->Some_0 + hex_val(s[2])->Some_0) as u8,
                (16 * hex_val(s[3])->Some_0 + hex_val(s[4])->Some_0) as u8,
                (16 * hex_val(s[5])->Some_0 + hex_val(s[6])->Some_0) as u8,
            ),
        )
    } else {
        None
    }
}

/// ASCII case folding of one character.
pub open spec fn ascii_lower(c: char) -> char {
    let u = c as u32;
    if 65 <= u <= 90 {  // 'A'..='Z'
        ((u + 32) as u8) as char
    } else {
        c
    }
}

/// `s` folded to ASCII lower case.
pub open spec fn ascii_lower_seq(s: Seq<char>) -> Seq<char> {
    s.map_values(|c: char| ascii_lower(c))
}

/// The named-color table: each recognized name gives its SGR background
/// fragment and the RGB value used to pick a contrasting foreground.
pub open spec fn named_color(s: Seq<char>) -> Option<(Seq<char>, u8, u8, u8)> {
    let t = ascii_lower_seq(s);
    if t == "black"@ {
        Some(("40;"@, 0u8, 0u8, 0u8))
    } else if t == "red"@ {
        Some(("41;"@, 170u8, 0u8, 0u8))
    } else if t == "green"@ {
        Some(("42;"@, 0u8, 170u8, 0u8))
    } else if t == "yellow"@ {
        Some(("43;"@, 170u8, 170u8, 0u8))
    } else if t == "blue"@ {
        Some(("44;"@, 0u8, 0u8, 170u8))
    } else if t == "magenta"@ {
        Some(("45;"@, 170u8, 0u8, 170u8))
    } else if t == "cyan"@ {
        Some(("46;"@, 0u8, 170u8, 170u8))
    } else if t == "white"@ {
        Some(("47;"@, 170u8, 170u8, 170u8))
    } else if t == "gray"@ || t == "grey"@ {
        Some(("100;"@, 85u8, 85u8, 85u8))
    } else if t == "lightred"@ {
        Some(("101;"@, 255u8, 85u8, 85u8))
    } else if t == "lightgreen"@ {
        Some(("102;"@, 85u8, 255u8, 85u8))
    } else if t == "lightyellow"@ {
        Some(("103;"@, 255u8, 255u8, 85u8))
    } else if t == "lightblue"@ {
        Some(("104;"@, 85u8, 85u8, 255u8))
    } else if t == "lightmagenta"@ {
        Some(("105;"@, 255u8, 85u8, 255u8))
    } else if t == "lightcyan"@ {
        Some(("106;"@, 85u8, 255u8, 255u8))
    } else {
        None
    }
}

/// The SGR background fragment for a truecolor background.
pub open spec fn truecolor_bg(r: u8, g: u8, b: u8) -> Seq<char> {
    "48;2;"@ + dec_chars(r as nat) + ";"@ + dec_chars(g as nat) + ";"@ + dec_chars(b as nat) + ";"@
}

/// The foreground fragment chosen for a color argument: by luminance for a
/// hex or named color, bright white otherwise.
pub open spec fn status_fg(s: Seq<char>) -> Seq<char> {
    match hex_color(s) {
        Some((r, g, b)) => fg_for(r, g, b),
        None => match named_color(s) {
            Some((bg, r, g, b)) => fg_for(r, g, b),
            None => "97;"@,
        },
    }
}

/// The background fragment chosen for a color argument: truecolor for a hex
/// triplet, the table's code for a named color, bright black otherwise.
pub open spec fn status_bg(s: Seq<char>) -> Seq<char> {
    match hex_color(s) {
        Some((r, g, b)) => truecolor_bg(r, g, b),
        None => match named_color(s) {
            Some((bg, r, g, b)) => bg,
            None => "100;"@,
        },
    }
}

/// Pick a black or bright-white foreground fragment to contrast with the
/// given background color, by perceived luminance.
pub fn luminance_fg(r: u8, g: u8, b: u8) -> (s: &'static str)
    ensures
        s@ == fg_for(r, g, b),
{
    let l: u32 = 299 * (r as u32) + 587 * (g as u32) + 114 * (b as u32);
    if l >= 128000 {
        "30;"
    } else {
        "97;"
    }
}

fn hex_digit(c: char) -> (r: Option<u8>)
    ensures
        r == hex_val(c),
{
    let u = c as u32;
    if u >= 48 && u <= 57 {
        Some((u - 48) as u8)
    } else if u >= 97 && u <= 102 {
        Some((u - 87) as u8)
    } else if u >= 65 && u <= 70 {
        Some((u - 55) as u8)
    } else {
        None
    }
}

/// `s` folded to ASCII lower case.
fn to_ascii_lower(s: &str) -> (r: String)
    ensures
        r@ == ascii_lower_seq(s@),
{
    let n = s.unicode_len();
    let mut r = String::new();
    let mut i: usize = 0;
    while i < n
        invariant
            n == s@.len(),
            i <= n,
            r@ =~= ascii_lower_seq(s@.take(i as int)),
        decreases n - i,
    {
        let c = s.get_char(i);
        let u = c as u32;
        if u >= 65 && u <= 90 {
            push_char(&mut r, ((u + 32) as u8) as char);
        } else {
            push_char(&mut r, c);
        }
        proof {
            assert(s@.take(i as int).push(s@[i as int]) =~= s@.take(i as int + 1));
            assert(ascii_lower_seq(s@.take(i as int + 1)) =~= ascii_lower_seq(
                s@.take(i as int),
            ).push(ascii_lower(s@[i as int])));
        }
        i = i + 1;
    }
    proof {
        assert(s@.take(n as int) =~= s@);
    }
    r
}

fn truecolor_bg_string(r: u8, g: u8, b: u8) -> (s: String)
    ensures
        s@ == truecolor_bg(r, g, b),
{
    let mut s = String::from_str("48;2;");
    push_u32_dec(&mut s, r as u32);
    push_char(&mut s, ';');
    push_u32_dec(&mut s, g as u32);
    push_char(&mut s, ';');
    push_u32_dec(&mut s, b as u32);
    push_char(&mut s, ';');
    proof {
        assert(";"@ =~= seq![';']) by {
            reveal_strlit(";");
        }
        assert(s@ =~= truecolor_bg(r, g, b));
    }
    s
}

/// Parse a color argument into SGR foreground and background fragments.
///
/// A `#RRGGBB` triplet gives a truecolor background; a recognized name gives
/// its palette code; anything else (or no argument) falls back to bright
/// white on bright black. The foreground is picked by luminance.
pub fn parse_status_colors(color: Option<&str>) -> (r: (String, String))
    ensures
        color is None ==> r.0@ == "97;"@ && r.1@ == "100;"@,
        color is Some ==> r.0@ == status_fg(color->Some_0@) && r.1@ == status_bg(
            color->Some_0@,
        ),
{
    let s = match color {
        None => {
            return (String::from_str("97;"), String::from_str("100;"));
        },
        Some(s) => s,
    };
    let n = s.unicode_len();
    if n == 7 && s.get_char(0) == '#' {
        let h1 = hex_digit(s.get_char(1));
        let h2 = hex_digit(s.get_char(2));
        let h3 = hex_digit(s.get_char(3));
        let h4 = hex_digit(s.get_char(4));
        let h5 = hex_digit(s.get_char(5));
        let h6 = hex_digit(s.get_char(6));
        if h1.is_some() && h2.is_some() && h3.is_some() && h4.is_some() && h5.is_some()
            && h6.is_some() {
            let rr = 16 * h1.unwrap() + h2.unwrap();
            let gg = 16 * h3.unwrap() + h4.unwrap();
            let bb = 16 * h5.unwrap() + h6.unwrap();
            let fg = luminance_fg(rr, gg, bb);
            return (String::from_str(fg), truecolor_bg_string(rr, gg, bb));
        }
    }
    proof {
        assert(hex_color(s@) is None);
    }
    let lower = to_ascii_lower(s);
    let t = lower.as_str();
    let (bg, rr, gg, bb): (&str, u8, u8, u8) = if str_eq(t, "black") {
        ("40;", 0, 0, 0)
    } else if str_eq(t, "red") {
        ("41;", 170, 0, 0)
    } else if str_eq(t, "green") {
        ("42;", 0, 170, 0)
    } else if str_eq(t, "yellow") {
        ("43;", 170, 170, 0)
    } else if str_eq(t, "blue") {
        ("44;", 0, 0, 170)
    } else if str_eq(t, "magenta") {
        ("45;", 170, 0, 170)
    } else if str_eq(t, "cyan") {
        ("46;", 0, 170, 170)
    } else if str_eq(t, "white") {
        ("47;", 170, 170, 170)
    } else if str_eq(t, "gray") || str_eq(t, "grey") {
        ("100;", 85, 85, 85)
    } else if str_eq(t, "lightred") {
        ("101;", 255, 85, 85)
    } else if str_eq(t, "lightgreen") {
        ("102;", 85, 255, 85)
    } else if str_eq(t, "lightyellow") {
        ("103;", 255, 255, 85)
    } else if str_eq(t, "lightblue") {
        ("104;", 85, 85, 255)
    } else if str_eq(t, "lightmagenta") {
        ("105;", 255, 85, 255)
    } else if str_eq(t, "lightcyan") {
        ("106;", 85, 255, 255)
    } else {
        return (String::from_str("97;"), String::from_str("100;"));
    };
    let fg = luminance_fg(rr, gg, bb);
    (String::from_str(fg), String::from_str(bg))
}

/// For a full hex background the foreground is chosen by perceived
/// luminance alone: black text exactly when the luminance reaches the
/// threshold, bright white below it.
pub proof fn lemma_hex_fg_by_luminance(s: Seq<char>, r: u8, g: u8, b: u8)
    requires
        hex_color(s) == Some((r, g, b)),
    ensures
        status_fg(s) == (if luminance_milli(r, g, b) >= 128000 {
            "30;"@
        } else {
            "97;"@
        }),
{
}

} // verus!
