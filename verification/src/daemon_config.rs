//! The daemon's own settings: hotkeys, the Wubi root shown for each letter
//! key, and the color schemes with their primary color, written as a hex
//! or decimal number.

use vstd::prelude::*;
use vstd::string::StrSliceExecFns;

use crate::text::{
    chars_of, owned, trim, trim_window, CharClass, lowercase_first, char_lower_first,
};

verus! {

/// The primary color used when a scheme gives none: lavender purple.
pub fn default_primary_color() -> (c: u32)
    ensures
        c == 0x8F73E2,
{
    0x8F73E2
}

/// The candidate font size used when the style gives none.
pub fn default_font_size() -> (n: i32)
    ensures
        n == 14,
{
    14
}

/// The number of candidates shown when the style gives none.
pub fn default_candidate_count() -> (n: i32)
    ensures
        n == 5,
{
    5
}

/// Whether candidates are laid out horizontally when the style does not say.
pub fn default_horizontal() -> (b: bool)
    ensures
        b,
{
    true
}

/// The color scheme used when the style names none: "lavender_purple".
pub fn default_color_scheme() -> (s: String)
    ensures
        s@ == "lavender_purple"@,
{
    owned("lavender_purple")
}

/// A named color scheme.
#[derive(Debug, Clone)]
pub struct ColorScheme {
    pub name: String,
    pub primary_color: u32,
}

impl Default for ColorScheme {
    fn default() -> (c: Self)
        ensures
            c.name@ == Seq::<char>::empty(),
            c.primary_color == 0,
    {
        let name = owned("");
        proof {
            reveal_strlit("");
        }
        ColorScheme { name, primary_color: 0 }
    }
}

/// Hotkey settings.
#[derive(Debug, Clone)]
pub struct HotkeyConfig {
    /// The hotkey that shows the Wubi root of the last key, e.g. "Ctrl".
    pub show_last_key_root: String,
}

impl Default for HotkeyConfig {
    fn default() -> (c: Self)
        ensures
            c.show_last_key_root@ == Seq::<char>::empty(),
    {
        let s = owned("");
        proof {
            reveal_strlit("");
        }
        HotkeyConfig { show_last_key_root: s }
    }
}

/// The hotkey that shows a key's root when the setting is left out: "Ctrl".
pub fn default_show_last_key_root() -> (s: String)
    ensures
        s@ == "Ctrl"@,
{
    owned("Ctrl")
}

/// The Wubi root shown for each letter key ('z' has none).
#[derive(Debug, Clone)]
pub struct WubiRootConfig {
    pub g: String,
    pub f: String,
    pub d: String,
    pub s: String,
    pub a: String,
    pub h: String,
    pub j: String,
    pub k: String,
    pub l: String,
    pub m: String,
    pub t: String,
    pub r: String,
    pub e: String,
    pub w: String,
    pub q: String,
    pub y: String,
    pub u: String,
    pub i: String,
    pub o: String,
    pub p: String,
    pub n: String,
    pub b: String,
    pub v: String,
    pub c: String,
    pub x: String,
}

impl Default for WubiRootConfig {
    fn default() -> (c: Self)
        ensures
            c.g@.len() == 0 && c.f@.len() == 0 && c.d@.len() == 0 && c.s@.len() == 0 && c.a@.len()
                == 0 && c.h@.len() == 0 && c.j@.len() == 0 && c.k@.len() == 0 && c.l@.len() == 0
                && c.m@.len() == 0 && c.t@.len() == 0 && c.r@.len() == 0 && c.e@.len() == 0
                && c.w@.len() == 0 && c.q@.len() == 0 && c.y@.len() == 0 && c.u@.len() == 0
                && c.i@.len() == 0 && c.o@.len() == 0 && c.p@.len() == 0 && c.n@.len() == 0
                && c.b@.len() == 0 && c.v@.len() == 0 && c.c@.len() == 0 && c.x@.len() == 0,
    {
        proof {
            reveal_strlit("");
        }
        WubiRootConfig {
            g: owned(""),
            f: owned(""),
            d: owned(""),
            s: owned(""),
            a: owned(""),
            h: owned(""),
            j: owned(""),
            k: owned(""),
            l: owned(""),
            m: owned(""),
            t: owned(""),
            r: owned(""),
            e: owned(""),
            w: owned(""),
            q: owned(""),
            y: owned(""),
            u: owned(""),
            i: owned(""),
            o: owned(""),
            p: owned(""),
            n: owned(""),
            b: owned(""),
            v: owned(""),
            c: owned(""),
            x: owned(""),
        }
    }
}

/// The root configured for the lowercase letter `letter`.
pub open spec fn root_field(cfg: WubiRootConfig, letter: char) -> Option<Seq<char>> {
    if letter == 'g' {
        Some(cfg.g@)
    } else if letter == 'f' {
        Some(cfg.f@)
    } else if letter == 'd' {
        Some(cfg.d@)
    } else if letter == 's' {
        Some(cfg.s@)
    } else if letter == 'a' {
        Some(cfg.a@)
    } else if letter == 'h' {
        Some(cfg.h@)
    } else if letter == 'j' {
        Some(cfg.j@)
    } else if letter == 'k' {
        Some(cfg.k@)
    } else if letter == 'l' {
        Some(cfg.l@)
    } else if letter == 'm' {
        Some(cfg.m@)
    } else if letter == 't' {
        Some(cfg.t@)
    } else if letter == 'r' {
        Some(cfg.r@)
    } else if letter == 'e' {
        Some(cfg.e@)
    } else if letter == 'w' {
        Some(cfg.w@)
    } else if letter == 'q' {
        Some(cfg.q@)
    } else if letter == 'y' {
        Some(cfg.y@)
    } else if letter == 'u' {
        Some(cfg.u@)
    } else if letter == 'i' {
        Some(cfg.i@)
    } else if letter == 'o' {
        Some(cfg.o@)
    } else if letter == 'p' {
        Some(cfg.p@)
    } else if letter == 'n' {
        Some(cfg.n@)
    } else if letter == 'b' {
        Some(cfg.b@)
    } else if letter == 'v' {
        Some(cfg.v@)
    } else if letter == 'c' {
        Some(cfg.c@)
    } else if letter == 'x' {
        Some(cfg.x@)
    } else {
        None
    }
}

/// Each letter key reads its own field: the root of letter `l` is the
/// field named `l`, for every letter but 'z', which has none; no other
/// character has a root field.
pub proof fn lemma_each_letter_own_field(cfg: WubiRootConfig, c: char)
    ensures
        root_field(cfg, 'a') == Some(cfg.a@),
        root_field(cfg, 'b') == Some(cfg.b@),
        root_field(cfg, 'c') == Some(cfg.c@),
        root_field(cfg, 'd') == Some(cfg.d@),
        root_field(cfg, 'e') == Some(cfg.e@),
        root_field(cfg, 'f') == Some(cfg.f@),
        root_field(cfg, 'g') == Some(cfg.g@),
        root_field(cfg, 'h') == Some(cfg.h@),
        root_field(cfg, 'i') == Some(cfg.i@),
        root_field(cfg, 'j') == Some(cfg.j@),
        root_field(cfg, 'k') == Some(cfg.k@),
        root_field(cfg, 'l') == Some(cfg.l@),
        root_field(cfg, 'm') == Some(cfg.m@),
        root_field(cfg, 'n') == Some(cfg.n@),
        root_field(cfg, 'o') == Some(cfg.o@),
        root_field(cfg, 'p') == Some(cfg.p@),
        root_field(cfg, 'q') == Some(cfg.q@),
        root_field(cfg, 'r') == Some(cfg.r@),
        root_field(cfg, 's') == Some(cfg.s@),
        root_field(cfg, 't') == Some(cfg.t@),
        root_field(cfg, 'u') == Some(cfg.u@),
        root_field(cfg, 'v') == Some(cfg.v@),
        root_field(cfg, 'w') == Some(cfg.w@),
        root_field(cfg, 'x') == Some(cfg.x@),
        root_field(cfg, 'y') == Some(cfg.y@),
        !('a' <= c <= 'y') ==> root_field(cfg, c) is None,
{
}

/// The root shown for `key`: the one configured for the first character of
/// its lowercase form, when it is a letter with a nonempty root.
pub open spec fn root_for(cfg: WubiRootConfig, key: char) -> Option<Seq<char>> {
    match char_lower_first(key) {
        Some(l) => match root_field(cfg, l) {
            Some(r) if r.len() > 0 => Some(r),
            _ => None,
        },
        None => None,
    }
}

/// The lowercase form of an ASCII letter (other characters unchanged).
pub open spec fn ascii_lower(c: char) -> char {
    if 'A' <= c <= 'Z' {
        ((c as u32) + 32) as char
    } else {
        c
    }
}

/// A configured root, when it is not empty.
pub open spec fn nonempty_root(r: Option<Seq<char>>) -> Option<Seq<char>> {
    match r {
        Some(x) if x.len() > 0 => Some(x),
        _ => None,
    }
}

/// The view of an optional root.
pub open spec fn opt_root(r: Option<String>) -> Option<Seq<char>> {
    match r {
        Some(s) => Some(s@),
        None => None,
    }
}

impl WubiRootConfig {
    /// The root configured for the lowercase letter `letter`.
    pub open spec fn root_of_letter(self, letter: char) -> Option<Seq<char>> {
        root_field(self, letter)
    }

    /// The root configured for the lowercase letter `letter`.
    pub fn field(&self, letter: char) -> (r: Option<&String>)
        ensures
            match r {
                Some(s) => root_field(*self, letter) == Some(s@),
                None => root_field(*self, letter) is None,
            },
    {
        match letter {
            'g' => Some(&self.g),
            'f' => Some(&self.f),
            'd' => Some(&self.d),
            's' => Some(&self.s),
            'a' => Some(&self.a),
            'h' => Some(&self.h),
            'j' => Some(&self.j),
            'k' => Some(&self.k),
            'l' => Some(&self.l),
            'm' => Some(&self.m),
            't' => Some(&self.t),
            'r' => Some(&self.r),
            'e' => Some(&self.e),
            'w' => Some(&self.w),
            'q' => Some(&self.q),
            'y' => Some(&self.y),
            'u' => Some(&self.u),
            'i' => Some(&self.i),
            'o' => Some(&self.o),
            'p' => Some(&self.p),
            'n' => Some(&self.n),
            'b' => Some(&self.b),
            'v' => Some(&self.v),
            'c' => Some(&self.c),
            'x' => Some(&self.x),
            _ => None,
        }
    }

    /// The Wubi root to show for `key`, if one is configured. Letter case
    /// does not matter: an ASCII letter gives the root of its lowercase
    /// letter.
    pub fn get_root_for_key(&self, key: char) -> (r: Option<String>)
        ensures
            match r {
                Some(s) => root_for(*self, key) == Some(s@),
                None => root_for(*self, key) is None,
            },
            ('a' <= key <= 'z' || 'A' <= key <= 'Z') ==> opt_root(r) == nonempty_root(
                self.root_of_letter(ascii_lower(key)),
            ),
    {
        let lower = match lowercase_first(key) {
            Some(l) => l,
            None => return None,
        };
        match self.field(lower) {
            Some(root) => {
                if root.as_str().unicode_len() == 0 {
                    None
                } else {
                    Some(owned(root.as_str()))
                }
            },
            None => None,
        }
    }
}

/// The red, green and blue bytes of a 0xRRGGBB color.
pub open spec fn rgb(color: u32) -> (u8, u8, u8) {
    (((color >> 16) & 0xff) as u8, ((color >> 8) & 0xff) as u8, (color & 0xff) as u8)
}

/// The red, green and blue bytes of a 0xRRGGBB color (higher bits ignored).
pub fn rgb_of(color: u32) -> (r: (u8, u8, u8))
    ensures
        r == rgb(color),
{
    (((color >> 16) & 0xff) as u8, ((color >> 8) & 0xff) as u8, (color & 0xff) as u8)
}

/// The primary color of the current scheme as RGB bytes, or lavender
/// purple (0x8F, 0x73, 0xE2) when the scheme is not defined.
pub fn get_primary_color(scheme: Option<&ColorScheme>) -> (r: (u8, u8, u8))
    ensures
        r == match scheme {
            Some(s) => rgb(s.primary_color),
            None => (0x8Fu8, 0x73u8, 0xE2u8),
        },
{
    match scheme {
        Some(s) => rgb_of(s.primary_color),
        None => (0x8F, 0x73, 0xE2),
    }
}

/// The scheme named `name` among `(name, scheme)` entries: the first entry
/// with that name.
pub open spec fn scheme_named(schemes: Seq<(String, ColorScheme)>, name: Seq<char>) -> Option<ColorScheme>
    decreases schemes.len(),
{
    if schemes.len() == 0 {
        None
    } else if schemes[0].0@ == name {
        Some(schemes[0].1)
    } else {
        scheme_named(schemes.drop_first(), name)
    }
}

/// The primary color of the scheme named `name` as RGB bytes, or lavender
/// purple (0x8F, 0x73, 0xE2) when no scheme has that name.
pub fn primary_color_named(schemes: &Vec<(String, ColorScheme)>, name: &str) -> (r: (u8, u8, u8))
    ensures
        r == match scheme_named(schemes@, name@) {
            Some(s) => rgb(s.primary_color),
            None => (0x8Fu8, 0x73u8, 0xE2u8),
        },
{
    let mut i: usize = 0;
    assert(schemes@.skip(0) =~= schemes@);
    while i < schemes.len()
        invariant
            i <= schemes@.len(),
            scheme_named(schemes@, name@) == scheme_named(schemes@.skip(i as int), name@),
        decreases schemes.len() - i,
    {
        assert(schemes@.skip(i as int)[0] == schemes@[i as int]);
        assert(schemes@.skip(i as int).drop_first() =~= schemes@.skip(i + 1));
        if crate::keys::same_text(schemes[i].0.as_str(), name) {
            return get_primary_color(Some(&schemes[i].1));
        }
        i = i + 1;
    }
    get_primary_color(None)
}

/// The value of a digit in base `radix`, if it is one.
pub open spec fn digit_value(c: char, radix: nat) -> Option<nat> {
    let v: int = if '0' <= c <= '9' {
        c as int - '0' as int
    } else if 'a' <= c <= 'z' {
        c as int - 'a' as int + 10
    } else if 'A' <= c <= 'Z' {
        c as int - 'A' as int + 10
    } else {
        36
    };
    if v < radix {
        Some(v as nat)
    } else {
        None
    }
}

/// Whether every character of `s` is a digit in base `radix`.
pub open spec fn all_radix_digits(s: Seq<char>, radix: nat) -> bool {
    forall|i: int| 0 <= i < s.len() ==> (#[trigger] digit_value(s[i], radix)) is Some
}

/// The value of the digits `s` in base `radix`.
pub open spec fn radix_value(s: Seq<char>, radix: nat) -> nat
    decreases s.len(),
{
    if s.len() == 0 {
        0
    } else {
        radix_value(s.drop_last(), radix) * radix + match digit_value(s.last(), radix) {
            Some(d) => d,
            None => 0,
        }
    }
}

/// What `u32::from_str_radix` accepts: an optional '+', then at least one
/// digit of the base, with a value that fits in `u32`.
pub open spec fn parse_u32_radix(s: Seq<char>, radix: nat) -> Option<u32> {
    let body = if s.len() > 0 && s[0] == '+' {
        s.drop_first()
    } else {
        s
    };
    if body.len() == 0 || !all_radix_digits(body, radix) || radix_value(body, radix) > u32::MAX {
        None
    } else {
        Some(radix_value(body, radix) as u32)
    }
}

proof fn lemma_radix_value_grows(s: Seq<char>, radix: nat, j: int, k: int)
    requires
        0 <= j <= k <= s.len(),
        radix >= 1,
    ensures
        radix_value(s.take(j), radix) <= radix_value(s.take(k), radix),
    decreases k - j,
{
    if j < k {
        lemma_radix_value_grows(s, radix, j, k - 1);
        assert(s.take(k).drop_last() =~= s.take(k - 1));
        let v = radix_value(s.take(k - 1), radix);
        assert(v * radix >= v) by (nonlinear_arith)
            requires
                radix >= 1,
        ;
    }
}

/// Parses `s` as a `u32` in base `radix` (2 to 36), as `u32::from_str_radix` does.
pub fn parse_u32_text(s: &[char], radix: u32) -> (r: Option<u32>)
    requires
        2 <= radix <= 36,
    ensures
        r == parse_u32_radix(s@, radix as nat),
{
    let n = s.len();
    let start: usize = if n > 0 && s[0] == '+' {
        1
    } else {
        0
    };
    let ghost body = s@.skip(start as int);
    assert(body =~= (if s@.len() > 0 && s@[0] == '+' {
        s@.drop_first()
    } else {
        s@
    }));
    if start == n {
        return None;
    }
    let mut acc: u64 = 0;
    let mut i: usize = start;
    while i < n
        invariant
            start <= i <= n == s@.len(),
            start < n,
            body == s@.skip(start as int),
            body == (if s@.len() > 0 && s@[0] == '+' {
                s@.drop_first()
            } else {
                s@
            }),
            2 <= radix <= 36,
            all_radix_digits(body.take(i - start), radix as nat),
            acc == radix_value(body.take(i - start), radix as nat),
            acc <= u32::MAX,
        decreases n - i,
    {
        let c = s[i];
        let d: u32 = if '0' <= c && c <= '9' {
            (c as u32) - 0x30
        } else if 'a' <= c && c <= 'z' {
            (c as u32) - 0x61 + 10
        } else if 'A' <= c && c <= 'Z' {
            (c as u32) - 0x41 + 10
        } else {
            36
        };
        assert(body[i - start] == c);
        if d >= radix {
            assert(digit_value(body[i - start], radix as nat) is None);
            return None;
        }
        assert(digit_value(c, radix as nat) == Some(d as nat));
        assert(body.take(i + 1 - start).drop_last() =~= body.take(i - start));
        assert(acc * (radix as u64) <= u32::MAX * 36) by (nonlinear_arith)
            requires
                acc <= u32::MAX,
                radix <= 36,
        ;
        acc = acc * (radix as u64) + (d as u64);
        i = i + 1;
        if acc > 0xFFFF_FFFF {
            proof {
                if all_radix_digits(body, radix as nat) {
                    lemma_radix_value_grows(body, radix as nat, (i - start) as int, body.len() as int);
                    assert(body.take(body.len() as int) =~= body);
                }
            }
            return None;
        }
    }
    assert(body.take(i - start) =~= body);
    Some(acc as u32)
}

/// The color a text gives, or the error it is refused with: "0x"/"0X" or
/// '#' then hex digits, or else a decimal number, after trimming.
pub open spec fn color_from_text(s: Seq<char>) -> Result<u32, Seq<char>> {
    let t = trim(s, CharClass::Ws);
    if "0x"@.is_prefix_of(t) || "0X"@.is_prefix_of(t) {
        match parse_u32_radix(t.skip(2), 16) {
            Some(v) => Ok(v),
            None => Err("Invalid hex color"@),
        }
    } else if t.len() > 0 && t[0] == '#' {
        match parse_u32_radix(t.skip(1), 16) {
            Some(v) => Ok(v),
            None => Err("Invalid hex color"@),
        }
    } else {
        match parse_u32_radix(t, 10) {
            Some(v) => Ok(v),
            None => Err("Invalid color number"@),
        }
    }
}

/// Reads a color written as text ("0x8F73E2", "#8F73E2" or "9401314").
pub fn parse_color_text(s: &str) -> (r: Result<u32, String>)
    ensures
        match r {
            Ok(v) => color_from_text(s@) == Ok::<u32, Seq<char>>(v),
            Err(e) => color_from_text(s@) == Err::<u32, Seq<char>>(e@),
        },
{
    let v = chars_of(s);
    assert(v@.subrange(0, v@.len() as int) =~= v@);
    let (a, b) = trim_window(v.as_slice(), 0, v.len(), CharClass::Ws);
    let t = vstd::slice::slice_subrange(v.as_slice(), a, b);
    let ghost tv = t@;
    proof {
        reveal_strlit("0x");
        reveal_strlit("0X");
    }
    let hex_prefix = t.len() >= 2 && t[0] == '0' && (t[1] == 'x' || t[1] == 'X');
    proof {
        assert("0x"@ =~= seq!['0', 'x']);
        assert("0X"@ =~= seq!['0', 'X']);
        if tv.len() >= 2 {
            let h = tv.subrange(0, 2);
            assert(h[0] == tv[0] && h[1] == tv[1]);
            if hex_prefix {
                if tv[1] == 'x' {
                    assert(h =~= "0x"@);
                } else {
                    assert(h =~= "0X"@);
                }
            }
        }
    }
    assert(hex_prefix == ("0x"@.is_prefix_of(tv) || "0X"@.is_prefix_of(tv)));
    if hex_prefix {
        let rest = vstd::slice::slice_subrange(t, 2, t.len());
        assert(rest@ =~= tv.skip(2));
        match parse_u32_text(rest, 16) {
            Some(x) => Ok(x),
            None => Err(owned("Invalid hex color")),
        }
    } else if t.len() > 0 && t[0] == '#' {
        let rest = vstd::slice::slice_subrange(t, 1, t.len());
        assert(rest@ =~= tv.skip(1));
        match parse_u32_text(rest, 16) {
            Some(x) => Ok(x),
            None => Err(owned("Invalid hex color")),
        }
    } else {
        match parse_u32_text(t, 10) {
            Some(x) => Ok(x),
            None => Err(owned("Invalid color number")),
        }
    }
}

/// The color a YAML number gives: its low 32 bits when it is a
/// nonnegative integer, else lavender purple.
pub fn color_from_number(n: Option<u64>) -> (c: u32)
    ensures
        c == match n {
            Some(v) => (v % 0x1_0000_0000) as u32,
            None => 0x8F73E2u32,
        },
{
    match n {
        Some(v) => (v % 0x1_0000_0000) as u32,
        None => 0x8F73E2,
    }
}

} // verus!

verus! {

/// Splitting a 24-bit color into bytes and joining them again gives the color back.
pub proof fn lemma_rgb_roundtrip(color: u32)
    requires
        color < 0x100_0000,
    ensures
        ((rgb(color).0 as u32) << 16) | ((rgb(color).1 as u32) << 8) | (rgb(color).2 as u32) == color,
{
    assert((((((color >> 16) & 0xff) as u8) as u32) << 16) | (((((color >> 8) & 0xff) as u8) as u32) << 8)
        | (((color & 0xff) as u8) as u32) == color) by (bit_vector)
        requires
            color < 0x100_0000,
    ;
}

} // verus!
