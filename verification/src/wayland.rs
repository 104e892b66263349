//! Events and errors of the Wayland input-method connection: key events,
//! pointer clicks on the candidate bar and panels, and the connection
//! errors of the v1 (KWin) and v2 (GNOME/wlroots) protocols with their
//! messages.

use vstd::prelude::*;

use crate::text::{concat, owned};

verus! {

/// A key event from the compositor.
#[derive(Debug, Clone, Copy, PartialEq, Eq, Structural)]
pub struct KeyEvent {
    pub serial: u32,
    pub time: u32,
    pub key: u32,
    pub pressed: bool,
}

/// A pointer click on the candidate bar or a panel, in surface coordinates.
#[derive(Debug, Clone, Copy, PartialEq, Eq, Structural)]
pub struct PointerEvent {
    pub serial: u32,
    pub time: u32,
    pub x: i32,
    pub y: i32,
    /// true for a press, false for a release.
    pub pressed: bool,
    /// The wl_pointer button code (BTN_LEFT is 272).
    pub button: u32,
    /// Whether the click landed on the menu panel surface.
    pub on_menu: bool,
}

/// The wl_pointer code of the left button.
pub const BTN_LEFT: u32 = 272;

impl PointerEvent {
    /// Whether the event is a left-button press (the only clicks the panels handle).
    pub fn is_left_press(&self) -> (b: bool)
        ensures
            b == (self.button == BTN_LEFT && self.pressed),
    {
        self.button == BTN_LEFT && self.pressed
    }
}

#[verifier::external_type_specification]
#[verifier::external_body]
pub struct ExIoError(std::io::Error);

/// Errors of the input-method v1 connection.
#[derive(Debug)]
pub enum ErrorV1 {
    ConnectFailed(String),
    GlobalNotFound(String),
    BindFailed(String),
    NoInputMethod,
    NoInputPanel,
    NoOutput,
    NoCompositor,
    NoShm,
    NoSeat,
    NoContext,
    Io(std::io::Error),
}

/// Errors of the input-method v2 connection.
#[derive(Debug)]
pub enum ErrorV2 {
    ConnectFailed(String),
    GlobalNotFound(String),
    BindFailed(String),
    NoInputMethodManager,
    NoVirtualKeyboardManager,
    NoInputMethod,
    NoCompositor,
    NoShm,
    NoSeat,
    Io(std::io::Error),
}

/// Text of an I/O error (its `Display` form).
#[verifier::external_body]
fn io_error_text(e: &std::io::Error) -> String {
    e.to_string()
}

/// The message of a v1 error; for `Io` the message starts with "IO error: ".
pub open spec fn error_v1_message(e: &ErrorV1, io_text: Seq<char>) -> Seq<char> {
    match e {
        ErrorV1::ConnectFailed(s) => "Failed to connect to Wayland display: "@ + s@,
        ErrorV1::GlobalNotFound(s) => "Failed to get global: "@ + s@,
        ErrorV1::BindFailed(s) => "Failed to bind interface: "@ + s@,
        ErrorV1::NoInputMethod => "No input method available"@,
        ErrorV1::NoInputPanel => "No input panel available"@,
        ErrorV1::NoOutput => "No output available"@,
        ErrorV1::NoCompositor => "No compositor available"@,
        ErrorV1::NoShm => "No SHM available"@,
        ErrorV1::NoSeat => "No seat available"@,
        ErrorV1::NoContext => "No active context"@,
        ErrorV1::Io(_) => "IO error: "@ + io_text,
    }
}

/// The message of a v2 error; for `Io` the message starts with "IO error: ".
pub open spec fn error_v2_message(e: &ErrorV2, io_text: Seq<char>) -> Seq<char> {
    match e {
        ErrorV2::ConnectFailed(s) => "Failed to connect to Wayland display: "@ + s@,
        ErrorV2::GlobalNotFound(s) => "Failed to get global: "@ + s@,
        ErrorV2::BindFailed(s) => "Failed to bind interface: "@ + s@,
        ErrorV2::NoInputMethodManager => "No input method manager available"@,
        ErrorV2::NoVirtualKeyboardManager => "No virtual keyboard manager available"@,
        ErrorV2::NoInputMethod => "No input method available"@,
        ErrorV2::NoCompositor => "No compositor available"@,
        ErrorV2::NoShm => "No SHM available"@,
        ErrorV2::NoSeat => "No seat available"@,
        ErrorV2::Io(_) => "IO error: "@ + io_text,
    }
}

impl ErrorV1 {
    /// The human-readable message of the error.
    pub fn message(&self) -> (r: String)
        ensures
            !(self is Io) ==> r@ == error_v1_message(self, Seq::empty()),
            self is Io ==> exists|io_text: Seq<char>| r@ == error_v1_message(self, io_text),
    {
        match self {
            ErrorV1::ConnectFailed(s) => concat("Failed to connect to Wayland display: ", s.as_str()),
            ErrorV1::GlobalNotFound(s) => concat("Failed to get global: ", s.as_str()),
            ErrorV1::BindFailed(s) => concat("Failed to bind interface: ", s.as_str()),
            ErrorV1::NoInputMethod => owned("No input method available"),
            ErrorV1::NoInputPanel => owned("No input panel available"),
            ErrorV1::NoOutput => owned("No output available"),
            ErrorV1::NoCompositor => owned("No compositor available"),
            ErrorV1::NoShm => owned("No SHM available"),
            ErrorV1::NoSeat => owned("No seat available"),
            ErrorV1::NoContext => owned("No active context"),
            ErrorV1::Io(e) => {
                let t = io_error_text(e);
                let r = concat("IO error: ", t.as_str());
                assert(r@ == error_v1_message(self, t@));
                r
            },
        }
    }
}

impl ErrorV2 {
    /// The human-readable message of the error.
    pub fn message(&self) -> (r: String)
        ensures
            !(self is Io) ==> r@ == error_v2_message(self, Seq::empty()),
            self is Io ==> exists|io_text: Seq<char>| r@ == error_v2_message(self, io_text),
    {
        match self {
            ErrorV2::ConnectFailed(s) => concat("Failed to connect to Wayland display: ", s.as_str()),
            ErrorV2::GlobalNotFound(s) => concat("Failed to get global: ", s.as_str()),
            ErrorV2::BindFailed(s) => concat("Failed to bind interface: ", s.as_str()),
            ErrorV2::NoInputMethodManager => owned("No input method manager available"),
            ErrorV2::NoVirtualKeyboardManager => owned("No virtual keyboard manager available"),
            ErrorV2::NoInputMethod => owned("No input method available"),
            ErrorV2::NoCompositor => owned("No compositor available"),
            ErrorV2::NoShm => owned("No SHM available"),
            ErrorV2::NoSeat => owned("No seat available"),
            ErrorV2::Io(e) => {
                let t = io_error_text(e);
                let r = concat("IO error: ", t.as_str());
                assert(r@ == error_v2_message(self, t@));
                r
            },
        }
    }
}

} // verus!
