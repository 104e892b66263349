//! What the input method keeps of the compositor's input-method events,
//! for the v2 protocol (GNOME/wlroots) and the v1 protocol (KWin): whether
//! it is active, the surrounding text, the content type and the serial to
//! commit with, and what to do with the keyboard grab.

use vstd::prelude::*;

verus! {

/// Whether the v2 input method is active.
#[derive(Debug, Clone, Copy, PartialEq, Eq, Structural)]
pub enum InputMethodState {
    Inactive,
    Active,
}

impl Default for InputMethodState {
    fn default() -> (s: Self)
        ensures
            s == InputMethodState::Inactive,
    {
        InputMethodState::Inactive
    }
}

/// An event of the v2 input method object.
pub enum ImEvent {
    Activate,
    Deactivate,
    SurroundingText { text: String, cursor: u32, anchor: u32 },
    TextChangeCause,
    ContentType { hint: u32, purpose: u32 },
    Done,
    Unavailable,
}

/// What to do with the keyboard grab after an event.
#[derive(Debug, Clone, Copy, PartialEq, Eq, Structural)]
pub enum GrabAction {
    /// Leave it as it is.
    Keep,
    /// Grab the keyboard (and keep the grab).
    Grab,
    /// Release the grab, if there is one.
    Release,
    /// Forget the grab without releasing it (the object is gone).
    Forget,
}

/// The v2 input method's state.
#[derive(Debug, Clone)]
pub struct InputMethodData {
    pub serial: u32,
    pub state: InputMethodState,
    pub surrounding_text: Option<String>,
    pub surrounding_cursor: u32,
    pub surrounding_anchor: u32,
    pub content_hint: u32,
    pub content_purpose: u32,
    pub unavailable: bool,
    /// Whether the menu panel is open.
    pub menu_open: bool,
}

impl Default for InputMethodData {
    fn default() -> (d: Self)
        ensures
            d.serial == 0,
            d.state == InputMethodState::Inactive,
            d.surrounding_text is None,
            d.surrounding_cursor == 0 && d.surrounding_anchor == 0,
            d.content_hint == 0 && d.content_purpose == 0,
            !d.unavailable && !d.menu_open,
    {
        InputMethodData {
            serial: 0,
            state: InputMethodState::Inactive,
            surrounding_text: None,
            surrounding_cursor: 0,
            surrounding_anchor: 0,
            content_hint: 0,
            content_purpose: 0,
            unavailable: false,
            menu_open: false,
        }
    }
}

impl InputMethodData {
    /// Takes in an event: activation grabs the keyboard, deactivation
    /// releases it, `done` counts one more serial, `unavailable` deactivates
    /// and forgets the grab; the others record what they carry.
    pub fn handle(&mut self, event: ImEvent) -> (a: GrabAction)
        requires
            event is Done ==> old(self).serial < u32::MAX,
        ensures
            *final(self) == match event {
                ImEvent::Activate => InputMethodData { state: InputMethodState::Active, ..*old(self) },
                ImEvent::Deactivate => InputMethodData { state: InputMethodState::Inactive, ..*old(self) },
                ImEvent::SurroundingText { text, cursor, anchor } => InputMethodData {
                    surrounding_text: Some(text),
                    surrounding_cursor: cursor,
                    surrounding_anchor: anchor,
                    ..*old(self)
                },
                ImEvent::TextChangeCause => *old(self),
                ImEvent::ContentType { hint, purpose } => InputMethodData {
                    content_hint: hint,
                    content_purpose: purpose,
                    ..*old(self)
                },
                ImEvent::Done => InputMethodData { serial: (old(self).serial + 1) as u32, ..*old(self) },
                ImEvent::Unavailable => InputMethodData {
                    unavailable: true,
                    state: InputMethodState::Inactive,
                    ..*old(self)
                },
            },
            a == match event {
                ImEvent::Activate => GrabAction::Grab,
                ImEvent::Deactivate => GrabAction::Release,
                ImEvent::Unavailable => GrabAction::Forget,
                _ => GrabAction::Keep,
            },
    {
        match event {
            ImEvent::Activate => {
                self.state = InputMethodState::Active;
                GrabAction::Grab
            },
            ImEvent::Deactivate => {
                self.state = InputMethodState::Inactive;
                GrabAction::Release
            },
            ImEvent::SurroundingText { text, cursor, anchor } => {
                self.surrounding_text = Some(text);
                self.surrounding_cursor = cursor;
                self.surrounding_anchor = anchor;
                GrabAction::Keep
            },
            ImEvent::TextChangeCause => GrabAction::Keep,
            ImEvent::ContentType { hint, purpose } => {
                self.content_hint = hint;
                self.content_purpose = purpose;
                GrabAction::Keep
            },
            ImEvent::Done => {
                self.serial = self.serial + 1;
                GrabAction::Keep
            },
            ImEvent::Unavailable => {
                self.unavailable = true;
                self.state = InputMethodState::Inactive;
                GrabAction::Forget
            },
        }
    }

    /// Whether the input method is active.
    pub fn is_active(&self) -> (b: bool)
        ensures
            b == (self.state == InputMethodState::Active),
    {
        self.state == InputMethodState::Active
    }
}

/// Whether the v1 input method is active.
#[derive(Debug, Clone, Copy, PartialEq, Eq, Structural)]
pub enum InputMethodV1State {
    Inactive,
    Active,
}

impl Default for InputMethodV1State {
    fn default() -> (s: Self)
        ensures
            s == InputMethodV1State::Inactive,
    {
        InputMethodV1State::Inactive
    }
}

/// An event of the v1 input method or of its context.
pub enum ImV1Event {
    Activate,
    Deactivate,
    SurroundingText { text: String, cursor: u32, anchor: u32 },
    ContentType { hint: u32, purpose: u32 },
    CommitState { serial: u32 },
    Reset,
    Other,
}

/// The v1 input method's state.
#[derive(Debug, Clone)]
pub struct InputMethodV1Data {
    pub serial: u32,
    pub state: InputMethodV1State,
    pub surrounding_text: Option<String>,
    pub surrounding_cursor: u32,
    pub surrounding_anchor: u32,
    pub content_hint: u32,
    pub content_purpose: u32,
}

impl Default for InputMethodV1Data {
    fn default() -> (d: Self)
        ensures
            d.serial == 0,
            d.state == InputMethodV1State::Inactive,
            d.surrounding_text is None,
            d.surrounding_cursor == 0 && d.surrounding_anchor == 0,
            d.content_hint == 0 && d.content_purpose == 0,
    {
        InputMethodV1Data {
            serial: 0,
            state: InputMethodV1State::Inactive,
            surrounding_text: None,
            surrounding_cursor: 0,
            surrounding_anchor: 0,
            content_hint: 0,
            content_purpose: 0,
        }
    }
}

impl InputMethodV1Data {
    /// Takes in an event: activation grabs the keyboard and keeps the
    /// context, deactivation forgets both; a commit state sets the serial
    /// to commit with; the others record what they carry.
    pub fn handle(&mut self, event: ImV1Event) -> (a: GrabAction)
        ensures
            *final(self) == match event {
                ImV1Event::Activate => InputMethodV1Data { state: InputMethodV1State::Active, ..*old(self) },
                ImV1Event::Deactivate => InputMethodV1Data {
                    state: InputMethodV1State::Inactive,
                    ..*old(self)
                },
                ImV1Event::SurroundingText { text, cursor, anchor } => InputMethodV1Data {
                    surrounding_text: Some(text),
                    surrounding_cursor: cursor,
                    surrounding_anchor: anchor,
                    ..*old(self)
                },
                ImV1Event::ContentType { hint, purpose } => InputMethodV1Data {
                    content_hint: hint,
                    content_purpose: purpose,
                    ..*old(self)
                },
                ImV1Event::CommitState { serial } => InputMethodV1Data { serial, ..*old(self) },
                _ => *old(self),
            },
            a == match event {
                ImV1Event::Activate => GrabAction::Grab,
                ImV1Event::Deactivate => GrabAction::Forget,
                _ => GrabAction::Keep,
            },
    {
        match event {
            ImV1Event::Activate => {
                self.state = InputMethodV1State::Active;
                GrabAction::Grab
            },
            ImV1Event::Deactivate => {
                self.state = InputMethodV1State::Inactive;
                GrabAction::Forget
            },
            ImV1Event::SurroundingText { text, cursor, anchor } => {
                self.surrounding_text = Some(text);
                self.surrounding_cursor = cursor;
                self.surrounding_anchor = anchor;
                GrabAction::Keep
            },
            ImV1Event::ContentType { hint, purpose } => {
                self.content_hint = hint;
                self.content_purpose = purpose;
                GrabAction::Keep
            },
            ImV1Event::CommitState { serial } => {
                self.serial = serial;
                GrabAction::Keep
            },
            _ => GrabAction::Keep,
        }
    }

    /// Whether the input method is active.
    pub fn is_active(&self) -> (b: bool)
        ensures
            b == (self.state == InputMethodV1State::Active),
    {
        self.state == InputMethodV1State::Active
    }
}

} // verus!
