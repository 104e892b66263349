//! The decisions of the standalone input-method loop and of the Rime
//! engine wrapper: tracking activation, the keymap and the candidate
//! window, building candidate items from Rime's menu, and the ASCII mode.

use vstd::prelude::*;

use crate::candidate::CandidateItem;
use crate::keys::xkb_error_message;
use crate::rime_context::{error_message, Candidate, Menu};
use crate::text::{concat, owned};
use crate::ui_error::ui_error_message;
use crate::wayland::{error_v1_message, error_v2_message, ErrorV1, ErrorV2};

verus! {

/// What a look at the input method's state changed.
#[derive(Debug, Clone, Copy, PartialEq, Eq, Structural)]
pub enum Activation {
    /// It became active.
    Activated,
    /// It became inactive: clear the candidates and hide the window.
    Deactivated,
    /// Nothing changed.
    Unchanged,
}

/// What to do with Rime's menu.
#[derive(Debug, Clone, Copy, PartialEq, Eq, Structural)]
pub enum MenuStep {
    /// Take the candidates and show the candidate window.
    Show,
    /// Clear the candidates and the preedit; hide the window when `hide`.
    Clear { hide: bool },
}

/// The loop's own state: whether the input method is active, whether the
/// keymap was loaded, whether the candidate window is shown.
#[derive(Debug, Clone, Copy)]
pub struct CoreLoop {
    pub active: bool,
    pub keymap_set: bool,
    pub candidate_window_visible: bool,
}

impl CoreLoop {
    /// Inactive, without keymap, window hidden.
    pub fn new() -> (s: Self)
        ensures
            !s.active && !s.keymap_set && !s.candidate_window_visible,
    {
        CoreLoop { active: false, keymap_set: false, candidate_window_visible: false }
    }

    /// Takes in whether the compositor reports the input method active.
    pub fn on_state(&mut self, is_active: bool) -> (a: Activation)
        ensures
            is_active && !old(self).active ==> a == Activation::Activated && final(self).active,
            !is_active && old(self).active ==> a == Activation::Deactivated && !final(self).active
                && !final(self).candidate_window_visible,
            is_active == old(self).active ==> a == Activation::Unchanged && *final(self) == *old(self),
            final(self).keymap_set == old(self).keymap_set,
            a != Activation::Deactivated ==> final(self).candidate_window_visible
                == old(self).candidate_window_visible,
    {
        if is_active && !self.active {
            self.active = true;
            Activation::Activated
        } else if !is_active && self.active {
            self.active = false;
            self.candidate_window_visible = false;
            Activation::Deactivated
        } else {
            Activation::Unchanged
        }
    }

    /// Whether a pending keymap should still be loaded.
    pub fn needs_keymap(&self) -> (b: bool)
        ensures
            b == !self.keymap_set,
    {
        !self.keymap_set
    }

    /// Takes in whether loading the keymap worked.
    pub fn keymap_loaded(&mut self, ok: bool)
        ensures
            final(self).keymap_set == (old(self).keymap_set || ok),
            final(self).active == old(self).active,
            final(self).candidate_window_visible == old(self).candidate_window_visible,
    {
        if ok {
            self.keymap_set = true;
        }
    }

    /// What to do with a menu of `num_candidates` candidates: show them,
    /// or clear and hide the window if it is shown.
    pub fn on_menu(&mut self, num_candidates: usize) -> (step: MenuStep)
        ensures
            num_candidates > 0 ==> step == MenuStep::Show && *final(self) == *old(self),
            num_candidates == 0 ==> step == (MenuStep::Clear { hide: old(self).candidate_window_visible })
                && !final(self).candidate_window_visible && final(self).active == old(self).active
                && final(self).keymap_set == old(self).keymap_set,
    {
        if num_candidates > 0 {
            MenuStep::Show
        } else {
            let hide = self.candidate_window_visible;
            self.candidate_window_visible = false;
            MenuStep::Clear { hide }
        }
    }

    /// Takes in whether showing the candidate window worked.
    pub fn window_shown(&mut self, ok: bool)
        ensures
            final(self).candidate_window_visible == (old(self).candidate_window_visible || ok),
            final(self).active == old(self).active,
            final(self).keymap_set == old(self).keymap_set,
    {
        if ok {
            self.candidate_window_visible = true;
        }
    }
}

/// The XKB key code of an evdev key code (offset by 8).
pub fn xkb_keycode(key: u32) -> (k: u32)
    requires
        key <= u32::MAX - 8,
    ensures
        k == key + 8,
{
    key + 8
}

/// The candidate item shown for Rime's candidate number `i`.
pub open spec fn item_of(c: Candidate, i: int) -> (Seq<char>, Seq<char>, int) {
    (
        c.text@,
        match c.comment {
            Some(m) => m@,
            None => Seq::empty(),
        },
        i,
    )
}

/// The candidate items of Rime's menu: each candidate's text, its comment
/// (empty when it has none) and its position.
pub fn candidate_items(menu: &Menu) -> (r: Vec<CandidateItem>)
    ensures
        r@.len() == menu.candidates@.len(),
        forall|i: int|
            0 <= i < r@.len() ==> ((#[trigger] r@[i]).text@, r@[i].comment@, r@[i].index as int) == item_of(
                menu.candidates@[i],
                i,
            ),
{
    let mut out: Vec<CandidateItem> = Vec::new();
    let mut i: usize = 0;
    while i < menu.candidates.len()
        invariant
            i <= menu.candidates@.len(),
            out@.len() == i,
            forall|j: int|
                0 <= j < i ==> ((#[trigger] out@[j]).text@, out@[j].comment@, out@[j].index as int)
                    == item_of(menu.candidates@[j], j),
        decreases menu.candidates.len() - i,
    {
        let c = &menu.candidates[i];
        let comment = match c.comment {
            Some(m) => owned(m),
            None => {
                let e = owned("");
                proof {
                    reveal_strlit("");
                }
                e
            },
        };
        out.push(CandidateItem { text: owned(c.text), comment, index: i });
        i = i + 1;
    }
    out
}

/// The ASCII mode after toggling it: the opposite of the current one (off
/// when Rime does not tell).
pub fn toggled_ascii(current: Option<bool>) -> (r: bool)
    ensures
        r == !(current == Some(true)),
{
    match current {
        Some(b) => !b,
        None => true,
    }
}

/// The ASCII mode Rime reports, off when it does not tell.
pub fn ascii_mode_of(current: Option<bool>) -> (r: bool)
    ensures
        r == (current == Some(true)),
{
    match current {
        Some(b) => b,
        None => false,
    }
}

/// Why the standalone input method could not start or stopped.
#[derive(Debug)]
pub enum Error {
    WaylandV2(ErrorV2),
    WaylandV1(ErrorV1),
    Rime(crate::rime_context::Error),
    Xkb(crate::keys::Error),
    Ui(crate::ui_error::Error),
    Config(String),
    /// Neither input-method protocol is offered by the compositor.
    NoProtocolAvailable,
}

impl Error {
    /// The text the error reads as: the failing part, then the cause's own
    /// text (for an I/O error of a Wayland connection, the system's text of it).
    pub fn message(&self) -> (r: String)
        ensures
            match *self {
                Error::WaylandV2(e) => (exists|t: Seq<char>| r@ == "Wayland v2 error: "@ + error_v2_message(&e, t))
                    && (!(e is Io) ==> r@ == "Wayland v2 error: "@ + error_v2_message(&e, Seq::empty())),
                Error::WaylandV1(e) => (exists|t: Seq<char>| r@ == "Wayland v1 error: "@ + error_v1_message(&e, t))
                    && (!(e is Io) ==> r@ == "Wayland v1 error: "@ + error_v1_message(&e, Seq::empty())),
                Error::Rime(e) => r@ == "Rime error: "@ + error_message(e),
                Error::Xkb(e) => r@ == "XKB error: "@ + xkb_error_message(e),
                Error::Ui(e) => r@ == "UI error: "@ + ui_error_message(e),
                Error::Config(d) => r@ == "Config error: "@ + d@,
                Error::NoProtocolAvailable => r@
                    == "No supported input method protocol available (tried v1 and v2)"@,
            },
    {
        match self {
            Error::WaylandV2(e) => {
                let m = e.message();
                concat("Wayland v2 error: ", m.as_str())
            },
            Error::WaylandV1(e) => {
                let m = e.message();
                concat("Wayland v1 error: ", m.as_str())
            },
            Error::Rime(e) => {
                let m = e.message();
                concat("Rime error: ", m.as_str())
            },
            Error::Xkb(e) => {
                let m = e.message();
                concat("XKB error: ", m.as_str())
            },
            Error::Ui(e) => {
                let m = e.message();
                concat("UI error: ", m.as_str())
            },
            Error::Config(d) => concat("Config error: ", d.as_str()),
            Error::NoProtocolAvailable => owned(
                "No supported input method protocol available (tried v1 and v2)",
            ),
        }
    }
}

} // verus!
