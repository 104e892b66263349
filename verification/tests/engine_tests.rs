use xime::engine_loop::Error as CoreError;
use xime::engine_loop::{
    ascii_mode_of, candidate_items, toggled_ascii, xkb_keycode, Activation, CoreLoop, MenuStep,
};
use xime::predict::model_download_files;
use xime::rime_context::{Candidate, Menu};
use xime::theme::{detect_theme, text_contains, SystemTheme};

#[test]
fn core_loop_activation() {
    let mut l = CoreLoop::new();
    assert_eq!(l.on_state(false), Activation::Unchanged);
    assert_eq!(l.on_state(true), Activation::Activated);
    assert_eq!(l.on_state(true), Activation::Unchanged);
    assert_eq!(l.on_menu(3), MenuStep::Show);
    l.window_shown(true);
    assert!(l.candidate_window_visible);
    assert_eq!(l.on_menu(0), MenuStep::Clear { hide: true });
    assert_eq!(l.on_menu(0), MenuStep::Clear { hide: false });
    l.window_shown(true);
    assert_eq!(l.on_state(false), Activation::Deactivated);
    assert!(!l.candidate_window_visible);
    assert!(l.needs_keymap());
    l.keymap_loaded(false);
    assert!(l.needs_keymap());
    l.keymap_loaded(true);
    assert!(!l.needs_keymap());
    assert_eq!(xkb_keycode(30), 38);
}

#[test]
fn candidate_items_from_menu() {
    let menu = Menu {
        page_size: 5,
        page_no: 0,
        is_last_page: true,
        highlighted_candidate_index: 1,
        num_candidates: 2,
        candidates: vec![
            Candidate { text: "你好", comment: None },
            Candidate { text: "世界", comment: Some("shijie") },
        ],
        select_keys: None,
    };
    let items = candidate_items(&menu);
    assert_eq!(items.len(), 2);
    assert_eq!((items[0].text.as_str(), items[0].comment.as_str(), items[0].index), ("你好", "", 0));
    assert_eq!((items[1].text.as_str(), items[1].comment.as_str(), items[1].index), ("世界", "shijie", 1));
}

#[test]
fn ascii_mode_decisions() {
    assert!(toggled_ascii(None));
    assert!(toggled_ascii(Some(false)));
    assert!(!toggled_ascii(Some(true)));
    assert!(!ascii_mode_of(None));
    assert!(ascii_mode_of(Some(true)));
}

#[test]
fn theme_detection() {
    assert_eq!(detect_theme(Some("'prefer-dark'\n"), None, None, None), SystemTheme::Dark);
    assert_eq!(detect_theme(Some("'default'\n"), Some("'Adwaita'\n"), None, None), SystemTheme::Light);
    assert_eq!(detect_theme(None, Some("'Adwaita-dark'"), None, None), SystemTheme::Dark);
    assert_eq!(detect_theme(None, None, Some("Breeze-Dark"), None), SystemTheme::Dark);
    assert_eq!(detect_theme(None, None, None, Some("Dark")), SystemTheme::Dark);
    assert_eq!(detect_theme(None, None, None, Some("darker")), SystemTheme::Light);
    assert!(SystemTheme::Dark.is_dark());
    assert!(!SystemTheme::Light.is_dark());
    assert!(text_contains("abc", "bc"));
    assert!(text_contains("abc", ""));
    assert!(!text_contains("abc", "cd"));
}

#[test]
fn model_files() {
    let files = model_download_files("predictive-text-small");
    assert_eq!(files.len(), 3);
    assert_eq!(files[0].0, "vocab.json");
    assert_eq!(
        files[2].1,
        "https://modelscope.cn/models/bikeand/predictive-text-small/resolve/master/model.onnx.data"
    );
}

#[test]
fn core_error_messages() {
    assert_eq!(
        CoreError::NoProtocolAvailable.message(),
        "No supported input method protocol available (tried v1 and v2)"
    );
    assert_eq!(CoreError::Config("bad dir".into()).message(), "Config error: bad dir");
    assert_eq!(
        CoreError::Xkb(xime::keys::Error::InvalidKeymapFormat).message(),
        "XKB error: Invalid keymap format"
    );
    assert_eq!(
        CoreError::Ui(xime::ui_error::Error::RenderFailed("oops".into())).message(),
        "UI error: Failed to render: oops"
    );
    assert_eq!(
        CoreError::Ui(xime::ui_error::Error::PixmapCreationFailed("0x0".into())).message(),
        "UI error: Failed to create pixmap: 0x0"
    );
    assert_eq!(
        CoreError::Rime(xime::rime_context::Error::CreateSession).message(),
        "Rime error: Failed to create session"
    );
    assert_eq!(
        CoreError::WaylandV1(xime::wayland::ErrorV1::NoSeat).message(),
        "Wayland v1 error: No seat available"
    );
    assert_eq!(
        CoreError::WaylandV2(xime::wayland::ErrorV2::NoInputMethodManager).message(),
        "Wayland v2 error: No input method manager available"
    );
}
