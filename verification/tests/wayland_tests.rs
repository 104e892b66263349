use xime::im_state::{
    GrabAction, ImEvent, ImV1Event, InputMethodData, InputMethodState, InputMethodV1Data,
    InputMethodV1State,
};
use xime::wayland::{ErrorV1, ErrorV2, KeyEvent, PointerEvent};

#[test]
fn test_pointer_event_creation() {
    let event = PointerEvent {
        serial: 50,
        time: 2000,
        x: 320,
        y: 12,
        pressed: true,
        button: 272,
        on_menu: false,
    };
    assert_eq!(event.serial, 50);
    assert_eq!(event.x, 320);
    assert_eq!(event.y, 12);
    assert!(event.pressed);
    assert_eq!(event.button, 272);
    assert!(!event.on_menu);
}

#[test]
fn test_pointer_event_release() {
    let event = PointerEvent {
        serial: 51,
        time: 2001,
        x: 320,
        y: 12,
        pressed: false,
        button: 272,
        on_menu: true,
    };
    assert!(!event.pressed);
    assert!(event.on_menu);
}

#[test]
fn pointer_event_left_press_only() {
    let mut event = PointerEvent {
        serial: 1,
        time: 1,
        x: 0,
        y: 0,
        pressed: true,
        button: 272,
        on_menu: false,
    };
    assert!(event.is_left_press());
    event.pressed = false;
    assert!(!event.is_left_press());
    event.pressed = true;
    event.button = 273;
    assert!(!event.is_left_press());
}

#[test]
fn test_error_v1_display() {
    let err = ErrorV1::NoInputMethod;
    assert_eq!(err.message(), "No input method available");
}

#[test]
fn test_error_v1_no_seat() {
    let err = ErrorV1::NoSeat;
    assert_eq!(err.message(), "No seat available");
}

#[test]
fn test_error_v1_no_compositor() {
    let err = ErrorV1::NoCompositor;
    assert_eq!(err.message(), "No compositor available");
}

#[test]
fn test_error_v2_display() {
    let err = ErrorV2::NoSeat;
    assert_eq!(err.message(), "No seat available");
}

#[test]
fn test_error_v2_no_input_method_manager() {
    let err = ErrorV2::NoInputMethodManager;
    assert_eq!(err.message(), "No input method manager available");
}

#[test]
fn error_messages_with_detail() {
    assert_eq!(
        ErrorV1::ConnectFailed("no socket".to_string()).message(),
        "Failed to connect to Wayland display: no socket"
    );
    assert_eq!(
        ErrorV2::BindFailed("wl_seat".to_string()).message(),
        "Failed to bind interface: wl_seat"
    );
    let io = ErrorV2::Io(std::io::Error::new(std::io::ErrorKind::Other, "boom"));
    assert_eq!(io.message(), "IO error: boom");
}

#[test]
fn test_key_event_creation() {
    let event = KeyEvent {
        serial: 42,
        time: 1000,
        key: 30,
        pressed: true,
    };
    assert_eq!(event.serial, 42);
    assert_eq!(event.time, 1000);
    assert_eq!(event.key, 30);
    assert!(event.pressed);
}

#[test]
fn test_key_event_release() {
    let event = KeyEvent {
        serial: 43,
        time: 1001,
        key: 30,
        pressed: false,
    };
    assert!(!event.pressed);
}

#[test]
fn test_input_method_v1_state_default() {
    let state = InputMethodV1State::default();
    assert_eq!(state, InputMethodV1State::Inactive);
}

#[test]
fn test_input_method_v1_state_equality() {
    assert_eq!(InputMethodV1State::Inactive, InputMethodV1State::Inactive);
    assert_eq!(InputMethodV1State::Active, InputMethodV1State::Active);
    assert_ne!(InputMethodV1State::Inactive, InputMethodV1State::Active);
}

#[test]
fn test_input_method_v1_state_debug() {
    let debug = format!("{:?}", InputMethodV1State::Active);
    assert_eq!(debug, "Active");
}

#[test]
fn test_input_method_v2_state_default() {
    let state = InputMethodState::default();
    assert_eq!(state, InputMethodState::Inactive);
}

#[test]
fn test_input_method_v2_state_equality() {
    assert_eq!(InputMethodState::Inactive, InputMethodState::Inactive);
    assert_eq!(InputMethodState::Active, InputMethodState::Active);
    assert_ne!(InputMethodState::Inactive, InputMethodState::Active);
}

#[test]
fn test_input_method_v2_state_debug() {
    let debug = format!("{:?}", InputMethodState::Active);
    assert_eq!(debug, "Active");
}

#[test]
fn test_input_method_v1_data_default() {
    let data = InputMethodV1Data::default();
    assert_eq!(data.state, InputMethodV1State::Inactive);
    assert_eq!(data.serial, 0);
    assert!(data.surrounding_text.is_none());
}

#[test]
fn test_input_method_v2_data_default() {
    let data = InputMethodData::default();
    assert_eq!(data.state, InputMethodState::Inactive);
    assert_eq!(data.serial, 0);
    assert!(data.surrounding_text.is_none());
}

#[test]
fn test_input_method_v1_data_clone() {
    let data = InputMethodV1Data::default();
    let cloned = data.clone();
    assert_eq!(cloned.state, InputMethodV1State::Inactive);
}

#[test]
fn v2_events_drive_state() {
    let mut data = InputMethodData::default();
    assert_eq!(data.handle(ImEvent::Activate), GrabAction::Grab);
    assert!(data.is_active());
    assert_eq!(
        data.handle(ImEvent::SurroundingText {
            text: "hello".to_string(),
            cursor: 3,
            anchor: 1
        }),
        GrabAction::Keep
    );
    assert_eq!(data.surrounding_text.as_deref(), Some("hello"));
    assert_eq!((data.surrounding_cursor, data.surrounding_anchor), (3, 1));
    data.handle(ImEvent::ContentType { hint: 2, purpose: 4 });
    assert_eq!((data.content_hint, data.content_purpose), (2, 4));
    data.handle(ImEvent::Done);
    data.handle(ImEvent::Done);
    assert_eq!(data.serial, 2);
    assert_eq!(data.handle(ImEvent::Deactivate), GrabAction::Release);
    assert!(!data.is_active());
    data.handle(ImEvent::Activate);
    assert_eq!(data.handle(ImEvent::Unavailable), GrabAction::Forget);
    assert!(data.unavailable);
    assert_eq!(data.state, InputMethodState::Inactive);
    assert_eq!(data.handle(ImEvent::TextChangeCause), GrabAction::Keep);
}

#[test]
fn v1_events_drive_state() {
    let mut data = InputMethodV1Data::default();
    assert_eq!(data.handle(ImV1Event::Activate), GrabAction::Grab);
    assert!(data.is_active());
    data.handle(ImV1Event::CommitState { serial: 17 });
    assert_eq!(data.serial, 17);
    data.handle(ImV1Event::SurroundingText {
        text: "ab".to_string(),
        cursor: 1,
        anchor: 1,
    });
    assert_eq!(data.surrounding_text.as_deref(), Some("ab"));
    data.handle(ImV1Event::ContentType { hint: 1, purpose: 9 });
    assert_eq!((data.content_hint, data.content_purpose), (1, 9));
    assert_eq!(data.handle(ImV1Event::Reset), GrabAction::Keep);
    assert_eq!(data.handle(ImV1Event::Deactivate), GrabAction::Forget);
    assert!(!data.is_active());
    assert_eq!(data.serial, 17);
}
