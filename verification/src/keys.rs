//! Key symbols and modifiers: mapping X keysyms to letters and characters,
//! the modifier state reported by XKB, hotkey bindings, and the key events
//! handed to Rime.

use vstd::prelude::*;

use crate::text::{
    chars_of, owned, split, split_char, trim, trim_chars, to_lower, to_upper, text_lower, text_upper,
    is_ascii_text, ascii_lower_text, ascii_upper_text, CharClass,
};

verus! {

/// The lowercase letter a keysym stands for: `a`..`z` for themselves, `A`..`Z`
/// folded to lowercase, nothing for any other keysym.
pub open spec fn spec_keysym_letter(raw: u32) -> Option<char> {
    if 0x61 <= raw && raw <= 0x7a {
        Some(raw as char)
    } else if 0x41 <= raw && raw <= 0x5a {
        Some((raw + 0x20) as char)
    } else {
        None
    }
}

/// Converts a raw keysym to the lowercase letter it stands for (used for hotkeys).
pub fn keysym_to_letter(keysym_raw: u32) -> (r: Option<char>)
    ensures
        r == spec_keysym_letter(keysym_raw),
{
    if keysym_raw >= 0x61 && keysym_raw <= 0x7a {
        Some((keysym_raw as u8) as char)
    } else if keysym_raw >= 0x41 && keysym_raw <= 0x5a {
        Some(((keysym_raw + 0x20) as u8) as char)
    } else {
        None
    }
}

/// The character a keysym types: letters and digits as themselves, space as ' '.
pub open spec fn spec_keysym_char(raw: u32) -> Option<char> {
    if (0x61 <= raw && raw <= 0x7a) || (0x41 <= raw && raw <= 0x5a) || (0x30 <= raw && raw
        <= 0x39) {
        Some(raw as char)
    } else if raw == 0x20 {
        Some(' ')
    } else {
        None
    }
}

/// Converts a raw keysym to the character it types, if it is a letter, a digit or space.
pub fn keysym_to_char(keysym_raw: u32) -> (r: Option<char>)
    ensures
        r == spec_keysym_char(keysym_raw),
{
    if (keysym_raw >= 0x61 && keysym_raw <= 0x7a) || (keysym_raw >= 0x41 && keysym_raw <= 0x5a)
        || (keysym_raw >= 0x30 && keysym_raw <= 0x39) {
        Some((keysym_raw as u8) as char)
    } else if keysym_raw == 0x20 {
        Some(' ')
    } else {
        None
    }
}

/// The key code Rime expects for a keysym: the raw value reinterpreted as `i32`.
pub fn keysym_to_rime_keycode(keysym_raw: u32) -> (k: i32)
    ensures
        k == keysym_raw as i32,
{
    keysym_raw as i32
}

/// Modifier state as serialized by XKB, with the four modifiers decoded.
#[derive(Debug, Clone, Copy, Default)]
pub struct ModifierState {
    pub depressed: u32,
    pub latched: u32,
    pub locked: u32,
    pub effective: u32,
    pub layout: u32,
    pub shift: bool,
    pub ctrl: bool,
    pub alt: bool,
    pub super_key: bool,
}

/// Rime's shift modifier bit.
pub const K_SHIFT_MASK: u32 = 0x1;

/// Rime's control modifier bit.
pub const K_CONTROL_MASK: u32 = 0x4;

/// Rime's alt modifier bit.
pub const K_ALT_MASK: u32 = 0x8;

/// Rime's key-release bit.
pub const K_RELEASE_MASK: u32 = 0x40000000;

/// A hotkey binding such as "Ctrl+Alt+F1": its modifiers, the uppercased
/// name of its key, and the key's keysym once resolved.
#[derive(Debug, Clone, Default)]
pub struct KeyBinding {
    pub ctrl: bool,
    pub alt: bool,
    pub shift: bool,
    pub super_key: bool,
    pub keysym: Option<u32>,
    pub key_name: String,
}

/// The Rime modifier mask of a binding's control, alt and shift modifiers.
pub open spec fn spec_modifier_mask(ctrl: bool, alt: bool, shift: bool) -> u32 {
    (if ctrl {
        K_CONTROL_MASK
    } else {
        0u32
    }) | (if alt {
        K_ALT_MASK
    } else {
        0u32
    }) | (if shift {
        K_SHIFT_MASK
    } else {
        0u32
    })
}

impl KeyBinding {
    /// The resolved keysym, if any.
    pub fn keysym_raw(&self) -> (r: Option<u32>)
        ensures
            r == self.keysym,
    {
        self.keysym
    }

    /// Whether control, alt and shift match (super is not compared).
    pub fn matches_modifiers(&self, ctrl: bool, alt: bool, shift: bool) -> (b: bool)
        ensures
            b == (self.ctrl == ctrl && self.alt == alt && self.shift == shift),
    {
        self.ctrl == ctrl && self.alt == alt && self.shift == shift
    }

    /// Whether all four modifiers match, super included.
    pub fn matches_modifiers_full(&self, ctrl: bool, alt: bool, shift: bool, super_key: bool) -> (b:
        bool)
        ensures
            b == (self.ctrl == ctrl && self.alt == alt && self.shift == shift && self.super_key
                == super_key),
    {
        self.ctrl == ctrl && self.alt == alt && self.shift == shift && self.super_key == super_key
    }

    /// The Rime modifier mask of the binding (control 0x04, alt 0x08, shift 0x01).
    pub fn modifier_mask(&self) -> (m: u32)
        ensures
            m == spec_modifier_mask(self.ctrl, self.alt, self.shift),
    {
        let c: u32 = if self.ctrl {
            K_CONTROL_MASK
        } else {
            0
        };
        let a: u32 = if self.alt {
            K_ALT_MASK
        } else {
            0
        };
        let s: u32 = if self.shift {
            K_SHIFT_MASK
        } else {
            0
        };
        c | a | s
    }
}

/// A key event for Rime: key code and modifier mask.
#[derive(Debug, Clone, Copy)]
pub struct RimeKeyEvent {
    pub key_code: u32,
    pub modifiers: u32,
}

/// The Rime key code a character stands for: letters fold to the lowercase
/// keysym, digits and space map to their keysyms, anything else to its code point.
pub open spec fn spec_char_key_code(c: char) -> u32 {
    let u = c as u32;
    if 0x61 <= u && u <= 0x7a {
        u
    } else if 0x41 <= u && u <= 0x5a {
        (u + 0x20) as u32
    } else {
        u
    }
}

impl RimeKeyEvent {
    /// A key event with the given code and modifiers.
    pub fn new(key_code: u32, modifiers: u32) -> (e: Self)
        ensures
            e.key_code == key_code,
            e.modifiers == modifiers,
    {
        Self { key_code, modifiers }
    }

    /// The key event that types `c`, without modifiers.
    pub fn from_char(c: char) -> (e: Self)
        ensures
            e.key_code == spec_char_key_code(c),
            e.modifiers == 0,
    {
        let u = c as u32;
        let key_code = if 'a' <= c && c <= 'z' {
            0x61 + (u - 0x61)
        } else if 'A' <= c && c <= 'Z' {
            0x61 + (u - 0x41)
        } else if '0' <= c && c <= '9' {
            0x30 + (u - 0x30)
        } else if c == ' ' {
            0x20
        } else {
            u
        };
        Self { key_code, modifiers: 0 }
    }
}

} // verus!

verus! {

/// What one '+'-separated part of a hotkey names.
#[derive(Clone, Copy, Debug, PartialEq, Eq, Structural)]
pub enum PartKind {
    Ctrl,
    Alt,
    Shift,
    Super,
    Key,
}

/// What a lowercased part names: "ctrl"/"control", "alt", "shift",
/// "super"/"win"/"meta", or else a key.
pub open spec fn part_kind(lowered: Seq<char>) -> PartKind {
    if lowered == "ctrl"@ || lowered == "control"@ {
        PartKind::Ctrl
    } else if lowered == "alt"@ {
        PartKind::Alt
    } else if lowered == "shift"@ {
        PartKind::Shift
    } else if lowered == "super"@ || lowered == "win"@ || lowered == "meta"@ {
        PartKind::Super
    } else {
        PartKind::Key
    }
}

/// Whether `a` and `b` hold the same characters.
pub fn same_text(a: &str, b: &str) -> (r: bool)
    ensures
        r == (a@ == b@),
{
    let av = chars_of(a);
    let bv = chars_of(b);
    assert(av@.subrange(0, av@.len() as int) =~= av@);
    crate::text::chars_equal(av.as_slice(), 0, av.len(), bv.as_slice())
}

/// What the lowercased part `lowered` of a hotkey names.
pub fn classify_part(lowered: &str) -> (k: PartKind)
    ensures
        k == part_kind(lowered@),
{
    if same_text(lowered, "ctrl") || same_text(lowered, "control") {
        PartKind::Ctrl
    } else if same_text(lowered, "alt") {
        PartKind::Alt
    } else if same_text(lowered, "shift") {
        PartKind::Shift
    } else if same_text(lowered, "super") || same_text(lowered, "win") || same_text(lowered, "meta") {
        PartKind::Super
    } else {
        PartKind::Key
    }
}

/// The lowercase mapping of a hotkey part: letter by letter for ASCII text.
pub open spec fn lower_text(t: Seq<char>) -> Seq<char> {
    if is_ascii_text(t) {
        ascii_lower_text(t)
    } else {
        text_lower(t)
    }
}

/// The uppercase mapping of a key name: letter by letter for ASCII text.
pub open spec fn upper_text(t: Seq<char>) -> Seq<char> {
    if is_ascii_text(t) {
        ascii_upper_text(t)
    } else {
        text_upper(t)
    }
}

/// A binding as parsed so far: ctrl, alt, shift, super, the key's name as
/// shown (uppercased) and the key's name to resolve (lowercased).
pub type BindingView = (bool, bool, bool, bool, Seq<char>, Option<Seq<char>>);

/// The binding after reading the parts `i..` of a hotkey, each trimmed and
/// lowercased; a later key part replaces an earlier one.
pub open spec fn parse_from(parts: Seq<Seq<char>>, i: int, b: BindingView) -> BindingView
    decreases parts.len() - i,
{
    if i < 0 || i >= parts.len() {
        b
    } else {
        let lowered = lower_text(trim(parts[i], CharClass::Ws));
        let next = match part_kind(lowered) {
            PartKind::Ctrl => (true, b.1, b.2, b.3, b.4, b.5),
            PartKind::Alt => (b.0, true, b.2, b.3, b.4, b.5),
            PartKind::Shift => (b.0, b.1, true, b.3, b.4, b.5),
            PartKind::Super => (b.0, b.1, b.2, true, b.4, b.5),
            PartKind::Key => (b.0, b.1, b.2, b.3, upper_text(lowered), Some(lowered)),
        };
        parse_from(parts, i + 1, next)
    }
}

/// The binding a hotkey text such as "Ctrl+Alt+F1" describes.
pub open spec fn parsed_binding(s: Seq<char>) -> BindingView {
    parse_from(split(s, '+'), 0, (false, false, false, false, Seq::empty(), None))
}

/// The view of an optional string.
pub open spec fn opt_text(o: Option<String>) -> Option<Seq<char>> {
    match o {
        Some(n) => Some(n@),
        None => None,
    }
}

/// Reads the '+'-separated parts of a hotkey: ctrl, alt, shift, super, the
/// key's name as shown, and the lowercased key name to look its keysym up by.
fn parse_parts(s: &str) -> (r: (bool, bool, bool, bool, String, Option<String>))
    ensures
        parsed_binding(s@) == (r.0, r.1, r.2, r.3, r.4@, opt_text(r.5)),
{
    let parts = split_char(s, '+');
    let ghost pv = parts@.map_values(|p: String| p@);
    let mut ctrl = false;
    let mut alt = false;
    let mut shift = false;
    let mut super_key = false;
    let mut key_name = owned("");
    proof {
        reveal_strlit("");
    }
    assert(key_name@ =~= Seq::<char>::empty());
    let mut lookup: Option<String> = None;
    let mut i: usize = 0;
    while i < parts.len()
        invariant
            i <= parts@.len(),
            pv == parts@.map_values(|p: String| p@),
            pv == split(s@, '+'),
            parsed_binding(s@) == parse_from(
                pv,
                i as int,
                (ctrl, alt, shift, super_key, key_name@, opt_text(lookup)),
            ),
        decreases parts.len() - i,
    {
        assert(parts@[i as int]@ == pv[i as int]);
        let trimmed = trim_chars(parts[i].as_str(), CharClass::Ws);
        let lowered = to_lower(trimmed.as_str());
        assert(lowered@ == lower_text(trimmed@));
        match classify_part(lowered.as_str()) {
            PartKind::Ctrl => {
                ctrl = true;
            },
            PartKind::Alt => {
                alt = true;
            },
            PartKind::Shift => {
                shift = true;
            },
            PartKind::Super => {
                super_key = true;
            },
            PartKind::Key => {
                key_name = to_upper(lowered.as_str());
                assert(key_name@ == upper_text(lowered@));
                lookup = Some(lowered);
            },
        }
        i = i + 1;
    }
    (ctrl, alt, shift, super_key, key_name, lookup)
}

/// The name to look the key of a hotkey up by in the keysym table (the last
/// key part, trimmed and lowercased), or `None` when only modifiers are named.
pub fn hotkey_key_name(s: &str) -> (r: Option<String>)
    ensures
        opt_text(r) == parsed_binding(s@).5,
{
    let (_, _, _, _, _, lookup) = parse_parts(s);
    lookup
}

impl KeyBinding {
    /// Parses a hotkey such as "Ctrl+Shift+K": each '+'-separated part,
    /// trimmed and lowercased, sets a modifier or names the key (a later key
    /// part replaces an earlier one). `keysym` is what XKB's keysym table
    /// gives for the key's name (`hotkey_key_name`, looked up without regard
    /// to case); the binding holds it when a key is named.
    pub fn parse(s: &str, keysym: u32) -> (r: KeyBinding)
        ensures
            ({
                let b = parsed_binding(s@);
                &&& r.ctrl == b.0
                &&& r.alt == b.1
                &&& r.shift == b.2
                &&& r.super_key == b.3
                &&& r.key_name@ == b.4
                &&& r.keysym == if b.5 is Some {
                    Some(keysym)
                } else {
                    None
                }
            }),
    {
        let (ctrl, alt, shift, super_key, key_name, lookup) = parse_parts(s);
        let keysym = match lookup {
            Some(_) => Some(keysym),
            None => None,
        };
        KeyBinding { ctrl, alt, shift, super_key, keysym, key_name }
    }
}

} // verus!

verus! {

/// Why the XKB keyboard context could not be set up.
#[derive(Debug, Clone, Copy, PartialEq, Eq, Structural)]
pub enum Error {
    ContextCreationFailed,
    KeymapCreationFailed,
    StateCreationFailed,
    InvalidKeymapFormat,
}

/// The text an XKB error reads as.
pub open spec fn xkb_error_message(e: Error) -> Seq<char> {
    match e {
        Error::ContextCreationFailed => "Failed to create XKB context"@,
        Error::KeymapCreationFailed => "Failed to create keymap"@,
        Error::StateCreationFailed => "Failed to create state"@,
        Error::InvalidKeymapFormat => "Invalid keymap format"@,
    }
}

impl Error {
    /// The text the error reads as.
    pub fn message(&self) -> (r: String)
        ensures
            r@ == xkb_error_message(*self),
            *self == Error::ContextCreationFailed ==> r@ == "Failed to create XKB context"@,
            *self == Error::KeymapCreationFailed ==> r@ == "Failed to create keymap"@,
            *self == Error::StateCreationFailed ==> r@ == "Failed to create state"@,
            *self == Error::InvalidKeymapFormat ==> r@ == "Invalid keymap format"@,
    {
        match self {
            Error::ContextCreationFailed => owned("Failed to create XKB context"),
            Error::KeymapCreationFailed => owned("Failed to create keymap"),
            Error::StateCreationFailed => owned("Failed to create state"),
            Error::InvalidKeymapFormat => owned("Invalid keymap format"),
        }
    }
}

} // verus!

verus! {

/// The kind of part `j` of a hotkey's parts.
pub open spec fn kind_at(parts: Seq<Seq<char>>, j: int) -> PartKind {
    part_kind(lower_text(trim(parts[j], CharClass::Ws)))
}

/// Whether some part from `i` on names `k`.
pub open spec fn names_from(parts: Seq<Seq<char>>, i: int, k: PartKind) -> bool {
    exists|j: int| i <= j < parts.len() && #[trigger] kind_at(parts, j) == k
}

proof fn lemma_parse_from_modifiers(parts: Seq<Seq<char>>, i: int, b: BindingView)
    requires
        0 <= i <= parts.len(),
    ensures
        parse_from(parts, i, b).0 == (b.0 || names_from(parts, i, PartKind::Ctrl)),
        parse_from(parts, i, b).1 == (b.1 || names_from(parts, i, PartKind::Alt)),
        parse_from(parts, i, b).2 == (b.2 || names_from(parts, i, PartKind::Shift)),
        parse_from(parts, i, b).3 == (b.3 || names_from(parts, i, PartKind::Super)),
        !names_from(parts, i, PartKind::Key) ==> parse_from(parts, i, b).5 == b.5,
    decreases parts.len() - i,
{
    if i < parts.len() {
        let lowered = lower_text(trim(parts[i], CharClass::Ws));
        let next = match part_kind(lowered) {
            PartKind::Ctrl => (true, b.1, b.2, b.3, b.4, b.5),
            PartKind::Alt => (b.0, true, b.2, b.3, b.4, b.5),
            PartKind::Shift => (b.0, b.1, true, b.3, b.4, b.5),
            PartKind::Super => (b.0, b.1, b.2, true, b.4, b.5),
            PartKind::Key => (b.0, b.1, b.2, b.3, upper_text(lowered), Some(lowered)),
        };
        lemma_parse_from_modifiers(parts, i + 1, next);
        assert(kind_at(parts, i) == part_kind(lowered));
        assert forall|k: PartKind| names_from(parts, i, k) == (kind_at(parts, i) == k || names_from(parts, i + 1, k)) by {
            if names_from(parts, i, k) {
                let j = choose|j: int| i <= j < parts.len() && #[trigger] kind_at(parts, j) == k;
                if j > i {
                    assert(names_from(parts, i + 1, k));
                }
            }
            if names_from(parts, i + 1, k) {
                let j = choose|j: int| i + 1 <= j < parts.len() && #[trigger] kind_at(parts, j) == k;
                assert(i <= j < parts.len() && kind_at(parts, j) == k);
            }
            if kind_at(parts, i) == k {
                assert(i <= i < parts.len() && kind_at(parts, i) == k);
            }
        }
    }
}

/// Each modifier of a parsed hotkey is set exactly when some '+'-separated
/// part names it, in any order and any letter case; with no key part, no
/// key is named.
pub proof fn lemma_parse_modifiers(s: Seq<char>)
    ensures
        parsed_binding(s).0 == names_from(split(s, '+'), 0, PartKind::Ctrl),
        parsed_binding(s).1 == names_from(split(s, '+'), 0, PartKind::Alt),
        parsed_binding(s).2 == names_from(split(s, '+'), 0, PartKind::Shift),
        parsed_binding(s).3 == names_from(split(s, '+'), 0, PartKind::Super),
        !names_from(split(s, '+'), 0, PartKind::Key) ==> parsed_binding(s).5 is None,
{
    lemma_parse_from_modifiers(split(s, '+'), 0, (false, false, false, false, Seq::empty(), None));
}

} // verus!
