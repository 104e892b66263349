//! Whether the desktop prefers a dark theme, from what GNOME's settings
//! and the environment say.

use vstd::prelude::*;

use crate::daemon_config::{rgb, rgb_of};
use crate::schema_info::{find_str, find_sub};
use crate::text::chars_of;

verus! {

/// The desktop's theme.
#[derive(Debug, Clone, Copy, PartialEq, Eq, Structural)]
pub enum SystemTheme {
    Light,
    Dark,
}

/// Whether `pat` occurs in `s`.
pub open spec fn contains(s: Seq<char>, pat: Seq<char>) -> bool {
    find_str(s, pat) is Some
}

/// Whether `pat` occurs in `s`.
pub fn text_contains(s: &str, pat: &str) -> (b: bool)
    ensures
        b == contains(s@, pat@),
{
    let v = chars_of(s);
    let p = chars_of(pat);
    assert(v@.subrange(0, v@.len() as int) =~= v@);
    find_sub(v.as_slice(), 0, v.len(), p.as_slice()).is_some()
}

/// The theme: dark when GNOME's color scheme says "'prefer-dark'" or
/// "'dark'", or its GTK theme name holds "dark" or "Dark", or GTK_THEME
/// holds "dark" or "Dark", or COLOR_SCHEME is "dark" or "Dark"; else light.
/// A setting that could not be read is `None`.
pub open spec fn spec_theme(
    color_scheme: Option<Seq<char>>,
    gtk_theme: Option<Seq<char>>,
    gtk_theme_env: Option<Seq<char>>,
    color_scheme_env: Option<Seq<char>>,
) -> SystemTheme {
    if color_scheme matches Some(v) && (contains(v, "'prefer-dark'"@) || contains(v, "'dark'"@)) {
        SystemTheme::Dark
    } else if gtk_theme matches Some(v) && (contains(v, "dark"@) || contains(v, "Dark"@)) {
        SystemTheme::Dark
    } else if gtk_theme_env matches Some(v) && (contains(v, "dark"@) || contains(v, "Dark"@)) {
        SystemTheme::Dark
    } else if color_scheme_env matches Some(v) && (v == "dark"@ || v == "Dark"@) {
        SystemTheme::Dark
    } else {
        SystemTheme::Light
    }
}

/// A text holding `pat` at position `i` contains `pat`.
proof fn lemma_contains_at(s: Seq<char>, pat: Seq<char>, i: int)
    requires
        0 <= i <= s.len(),
        pat.is_prefix_of(s.skip(i)),
    ensures
        contains(s, pat),
    decreases i,
{
    assert(s.skip(0) =~= s);
    if i > 0 && !pat.is_prefix_of(s) {
        assert(s.drop_first().skip(i - 1) =~= s.skip(i));
        lemma_contains_at(s.drop_first(), pat, i - 1);
    }
}

/// The word `w` stands in `v` at position `i`.
pub open spec fn word_at(v: Seq<char>, w: Seq<char>, i: int) -> bool {
    0 <= i && i + w.len() <= v.len() && v.subrange(i, i + w.len()) == w
}

/// Whatever the other settings say, the theme is dark when GNOME's
/// color-scheme holds "'prefer-dark'" or "'dark'", when GNOME's GTK theme
/// name or GTK_THEME holds "dark" or "Dark" anywhere, or when COLOR_SCHEME
/// is "dark" or "Dark"; and it is light when nothing could be read.
pub proof fn lemma_dark_when_any_says_dark(
    color_scheme: Option<Seq<char>>,
    gtk_theme: Option<Seq<char>>,
    gtk_theme_env: Option<Seq<char>>,
    color_scheme_env: Option<Seq<char>>,
    v: Seq<char>,
    w: Seq<char>,
    i: int,
)
    ensures
        ({
            let t = spec_theme(color_scheme, gtk_theme, gtk_theme_env, color_scheme_env);
            &&& (color_scheme == Some(v) && (w == "'prefer-dark'"@ || w == "'dark'"@) && word_at(v, w, i))
                ==> t == SystemTheme::Dark
            &&& (gtk_theme == Some(v) && (w == "dark"@ || w == "Dark"@) && word_at(v, w, i)) ==> t
                == SystemTheme::Dark
            &&& (gtk_theme_env == Some(v) && (w == "dark"@ || w == "Dark"@) && word_at(v, w, i)) ==> t
                == SystemTheme::Dark
            &&& (color_scheme_env == Some(v) && (v == "dark"@ || v == "Dark"@)) ==> t == SystemTheme::Dark
            &&& (color_scheme is None && gtk_theme is None && gtk_theme_env is None && color_scheme_env is None)
                ==> t == SystemTheme::Light
        }),
{
    if word_at(v, w, i) {
        assert(w.is_prefix_of(v.skip(i))) by {
            assert(v.skip(i).subrange(0, w.len() as int) =~= v.subrange(i, i + w.len()));
        }
        lemma_contains_at(v, w, i);
    }
}

/// A setting that, when read, holds "dark" or "Dark" nowhere.
pub open spec fn says_nothing_dark(o: Option<Seq<char>>) -> bool {
    match o {
        Some(v) => forall|i: int| !word_at(v, "dark"@, i) && !word_at(v, "Dark"@, i),
        None => true,
    }
}

/// Where `pat` is found in `s`, it stands there as a word.
proof fn lemma_found_word(s: Seq<char>, pat: Seq<char>)
    requires
        contains(s, pat),
    ensures
        exists|i: int| word_at(s, pat, i),
{
    crate::schema_info::lemma_find_str_bound(s, pat);
    let k = find_str(s, pat)->0 as int;
    assert(s.skip(k).subrange(0, pat.len() as int) =~= s.subrange(k, k + pat.len()));
    assert(word_at(s, pat, k));
}

/// The word "dark" stands inside `w` at `off`, so it stands in `v` wherever `w` does.
proof fn lemma_inner_dark(v: Seq<char>, w: Seq<char>, i: int, off: int)
    requires
        word_at(v, w, i),
        word_at(w, "dark"@, off),
    ensures
        word_at(v, "dark"@, i + off),
{
    reveal_strlit("dark");
    assert(v.subrange(i + off, i + off + 4) =~= w.subrange(off, off + 4));
}

/// The theme is light when no setting that could be read holds "dark" or
/// "Dark" anywhere.
pub proof fn lemma_light_when_nothing_dark(
    color_scheme: Option<Seq<char>>,
    gtk_theme: Option<Seq<char>>,
    gtk_theme_env: Option<Seq<char>>,
    color_scheme_env: Option<Seq<char>>,
)
    requires
        says_nothing_dark(color_scheme),
        says_nothing_dark(gtk_theme),
        says_nothing_dark(gtk_theme_env),
        says_nothing_dark(color_scheme_env),
    ensures
        spec_theme(color_scheme, gtk_theme, gtk_theme_env, color_scheme_env) == SystemTheme::Light,
{
    reveal_strlit("dark");
    reveal_strlit("Dark");
    reveal_strlit("'prefer-dark'");
    reveal_strlit("'dark'");
    if let Some(v) = color_scheme {
        if contains(v, "'prefer-dark'"@) {
            lemma_found_word(v, "'prefer-dark'"@);
            let i = choose|i: int| word_at(v, "'prefer-dark'"@, i);
            assert("'prefer-dark'"@.subrange(8, 12) =~= "dark"@);
            lemma_inner_dark(v, "'prefer-dark'"@, i, 8);
            assert(!word_at(v, "dark"@, i + 8));
        }
        if contains(v, "'dark'"@) {
            lemma_found_word(v, "'dark'"@);
            let i = choose|i: int| word_at(v, "'dark'"@, i);
            assert("'dark'"@.subrange(1, 5) =~= "dark"@);
            lemma_inner_dark(v, "'dark'"@, i, 1);
            assert(!word_at(v, "dark"@, i + 1));
        }
    }
    if let Some(v) = gtk_theme {
        if contains(v, "dark"@) {
            lemma_found_word(v, "dark"@);
        }
        if contains(v, "Dark"@) {
            lemma_found_word(v, "Dark"@);
        }
    }
    if let Some(v) = gtk_theme_env {
        if contains(v, "dark"@) {
            lemma_found_word(v, "dark"@);
        }
        if contains(v, "Dark"@) {
            lemma_found_word(v, "Dark"@);
        }
    }
    if let Some(v) = color_scheme_env {
        if v == "dark"@ {
            assert(v.subrange(0, 4) =~= v);
            assert(word_at(v, "dark"@, 0));
        }
        if v == "Dark"@ {
            assert(v.subrange(0, 4) =~= v);
            assert(word_at(v, "Dark"@, 0));
        }
    }
}

fn opt_contains(v: Option<&str>, a: &str, b: &str) -> (r: bool)
    ensures
        r == (v matches Some(s) && (contains(s@, a@) || contains(s@, b@))),
{
    match v {
        Some(s) => text_contains(s, a) || text_contains(s, b),
        None => false,
    }
}

/// The theme the desktop prefers, from GNOME's `color-scheme` and
/// `gtk-theme` settings and the GTK_THEME and COLOR_SCHEME variables.
pub fn detect_theme(
    color_scheme: Option<&str>,
    gtk_theme: Option<&str>,
    gtk_theme_env: Option<&str>,
    color_scheme_env: Option<&str>,
) -> (t: SystemTheme)
    ensures
        t == spec_theme(
            match color_scheme {
                Some(s) => Some(s@),
                None => None,
            },
            match gtk_theme {
                Some(s) => Some(s@),
                None => None,
            },
            match gtk_theme_env {
                Some(s) => Some(s@),
                None => None,
            },
            match color_scheme_env {
                Some(s) => Some(s@),
                None => None,
            },
        ),
{
    if opt_contains(color_scheme, "'prefer-dark'", "'dark'") {
        return SystemTheme::Dark;
    }
    if opt_contains(gtk_theme, "dark", "Dark") {
        return SystemTheme::Dark;
    }
    if opt_contains(gtk_theme_env, "dark", "Dark") {
        return SystemTheme::Dark;
    }
    match color_scheme_env {
        Some(s) => {
            if crate::keys::same_text(s, "dark") || crate::keys::same_text(s, "Dark") {
                return SystemTheme::Dark;
            }
        },
        None => {},
    }
    SystemTheme::Light
}

impl SystemTheme {
    /// Whether the theme is dark.
    pub fn is_dark(&self) -> (b: bool)
        ensures
            b == (*self == SystemTheme::Dark),
    {
        match self {
            SystemTheme::Dark => true,
            SystemTheme::Light => false,
        }
    }
}

/// The settings program's palette, as 0xRRGGBB colors. (Its translucent
/// window background is an HSLA color the program builds itself.)
#[derive(Debug, Clone, Copy, PartialEq, Eq, Structural)]
pub struct ThemeColors {
    pub surface: u32,
    pub surface_variant: u32,
    pub primary: u32,
    pub primary_hover: u32,
    pub on_primary: u32,
    pub foreground: u32,
    pub foreground_muted: u32,
    pub border: u32,
    pub border_variant: u32,
    pub disabled: u32,
    pub error: u32,
    pub on_error: u32,
    pub selection: u32,
}

/// A color channel darkened to nine tenths (rounded down).
pub open spec fn darker(c: u8) -> u8 {
    ((c as int * 9) / 10) as u8
}

/// The 0xRRGGBB color of three channels.
pub open spec fn join_rgb(r: u8, g: u8, b: u8) -> u32 {
    ((r as u32) << 16u32) | ((g as u32) << 8u32) | (b as u32)
}

/// The hover color of a primary color: each channel at nine tenths.
pub open spec fn hover_color(primary: u32) -> u32 {
    let (r, g, b) = rgb(primary);
    join_rgb(darker(r), darker(g), darker(b))
}

/// The palette for a dark or light theme around a primary color.
pub open spec fn spec_theme_colors(dark: bool, primary: u32) -> ThemeColors {
    if dark {
        ThemeColors {
            surface: 0x1a1a1a,
            surface_variant: 0x262626,
            primary,
            primary_hover: hover_color(primary),
            on_primary: 0xffffff,
            foreground: 0xe0e0e0,
            foreground_muted: 0x808080,
            border: 0x303030,
            border_variant: 0x404040,
            disabled: 0x4d4d4d,
            error: 0xc42b1c,
            on_error: 0xffffff,
            selection: 0x3a2a5a,
        }
    } else {
        ThemeColors {
            surface: 0xffffff,
            surface_variant: 0xf5f5f5,
            primary,
            primary_hover: hover_color(primary),
            on_primary: 0xffffff,
            foreground: 0x1a1a1a,
            foreground_muted: 0x666666,
            border: 0xe0e0e0,
            border_variant: 0xd0d0d0,
            disabled: 0xaaaaaa,
            error: 0xc42b1c,
            on_error: 0xffffff,
            selection: 0xe8e0f8,
        }
    }
}

fn darker_channel(c: u8) -> (d: u8)
    ensures
        d == darker(c),
{
    ((c as u32 * 9) / 10) as u8
}

impl ThemeColors {
    /// The palette for `theme` around `primary_color` (0xRRGGBB); the
    /// hover color darkens each channel of the primary color to nine tenths.
    pub fn from_theme(theme: &SystemTheme, primary_color: u32) -> (c: Self)
        ensures
            c == spec_theme_colors(*theme == SystemTheme::Dark, primary_color),
    {
        let (r, g, b) = rgb_of(primary_color);
        let hr = darker_channel(r);
        let hg = darker_channel(g);
        let hb = darker_channel(b);
        let primary_hover = ((hr as u32) << 16u32) | ((hg as u32) << 8u32) | (hb as u32);
        if theme.is_dark() {
            ThemeColors {
                surface: 0x1a1a1a,
                surface_variant: 0x262626,
                primary: primary_color,
                primary_hover,
                on_primary: 0xffffff,
                foreground: 0xe0e0e0,
                foreground_muted: 0x808080,
                border: 0x303030,
                border_variant: 0x404040,
                disabled: 0x4d4d4d,
                error: 0xc42b1c,
                on_error: 0xffffff,
                selection: 0x3a2a5a,
            }
        } else {
            ThemeColors {
                surface: 0xffffff,
                surface_variant: 0xf5f5f5,
                primary: primary_color,
                primary_hover,
                on_primary: 0xffffff,
                foreground: 0x1a1a1a,
                foreground_muted: 0x666666,
                border: 0xe0e0e0,
                border_variant: 0xd0d0d0,
                disabled: 0xaaaaaa,
                error: 0xc42b1c,
                on_error: 0xffffff,
                selection: 0xe8e0f8,
            }
        }
    }
}

} // verus!
