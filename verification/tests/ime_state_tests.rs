use xime::daemon::{
    apply_query_results, needs_emoji_reload, query_limit, search_key, CtrlKey, EmojiItem,
    FocusChange, ImeState, InputMode, KeyGate, PanelMode, PanelState, PointerAction, SearchKey,
};
use xime::wayland::{KeyEvent, PointerEvent};

fn key(code: u32, pressed: bool) -> KeyEvent {
    KeyEvent { serial: 1, time: 1, key: code, pressed }
}

fn click(x: i32, y: i32) -> PointerEvent {
    PointerEvent { serial: 1, time: 1, x, y, pressed: true, button: 272, on_menu: false }
}

fn items(n: usize) -> Vec<EmojiItem> {
    (0..n)
        .map(|i| EmojiItem {
            id: format!("k{i}"),
            text: format!("t{i}"),
            image_url: None,
            category: "c".to_string(),
        })
        .collect()
}

#[test]
fn ctrl_space_switches_the_input_method_off_and_on() {
    let mut st = ImeState::new();
    st.candidate_window_visible = true;
    st.last_input_keysym = Some(0x61);
    // Ctrl+Space press: off, UI reset, the press recorded.
    assert_eq!(st.gate_key(key(57, true), 0x20, true), KeyGate::Disabled);
    assert!(!st.im_enabled);
    assert!(!st.candidate_window_visible);
    assert_eq!(st.last_input_keysym, None);
    assert!(st.consumed_presses.contains(&57));
    // Its release is dropped and forgotten.
    assert_eq!(st.gate_key(key(57, false), 0x20, false), KeyGate::Swallow);
    assert!(st.consumed_presses.is_empty());
    // While off, other keys are forwarded.
    assert_eq!(st.gate_key(key(30, true), 0x61, false), KeyGate::Forward);
    assert_eq!(st.gate_key(key(30, false), 0x61, false), KeyGate::Forward);
    // Ctrl+Space again: on.
    assert_eq!(st.gate_key(key(57, true), 0x20, true), KeyGate::Enabled);
    assert!(st.im_enabled);
    assert_eq!(st.gate_key(key(30, true), 0x61, false), KeyGate::Continue);
    // Space without Ctrl goes on to Rime.
    assert_eq!(st.gate_key(key(57, true), 0x20, false), KeyGate::Continue);
}

#[test]
fn a_key_closes_the_open_menu_but_modifiers_do_not() {
    let mut st = ImeState::new();
    st.panel_state = PanelState::MenuOpen;
    assert!(!st.close_menu_on_key(true, 0xFFE1));
    assert!(!st.close_menu_on_key(true, 0xFFE3));
    assert!(!st.close_menu_on_key(false, 0x61));
    assert_eq!(st.panel_state, PanelState::MenuOpen);
    assert!(st.close_menu_on_key(true, 0x61));
    assert_eq!(st.panel_state, PanelState::Closed);
    assert!(!st.close_menu_on_key(true, 0x61));
}

#[test]
fn ctrl_shows_the_last_letters_radicals_and_release_restores() {
    let mut st = ImeState::new();
    assert_eq!(st.ctrl_key(true, true, false, false, false), CtrlKey::Nothing);
    st.last_input_keysym = Some(0x47);
    assert_eq!(st.ctrl_key(true, true, false, false, false), CtrlKey::ShowRoot('g'));
    assert_eq!(st.ctrl_key(true, true, true, false, false), CtrlKey::Nothing);
    assert_eq!(st.ctrl_key(true, true, false, false, true), CtrlKey::Nothing);
    st.ctrl_root_visible = true;
    assert_eq!(st.ctrl_key(false, false, false, false, false), CtrlKey::RestoreCandidates);
    assert!(!st.ctrl_root_visible);
    assert_eq!(st.ctrl_key(false, false, false, false, false), CtrlKey::Nothing);
    st.last_input_keysym = Some(0xFF0D);
    assert_eq!(st.ctrl_key(true, true, false, false, false), CtrlKey::Nothing);
}

#[test]
fn rime_results_decide_forwarding_and_the_last_letter() {
    let mut st = ImeState::new();
    // Rime takes the press of 'a': not forwarded, recorded, remembered.
    assert!(!st.after_rime(key(30, true), 0x61, true));
    assert!(st.consumed_presses.contains(&30));
    assert_eq!(st.last_input_keysym, Some(0x61));
    // Its release is not forwarded either, and clears the record.
    assert!(!st.after_rime(key(30, false), 0x61, false));
    assert!(st.consumed_presses.is_empty());
    // Return that Rime does not take is forwarded; the last letter stays.
    assert!(st.after_rime(key(28, true), 0xFF0D, false));
    assert!(st.after_rime(key(28, false), 0xFF0D, false));
    assert_eq!(st.last_input_keysym, Some(0x61));
    // A taken non-letter press is recorded but not remembered as a letter.
    assert!(!st.after_rime(key(2, true), 0x31, true));
    assert_eq!(st.last_input_keysym, Some(0x61));
}

#[test]
fn mode_changes_are_reported_once() {
    let mut st = ImeState::new();
    assert_eq!(st.ascii_mode_seen(false), None);
    assert_eq!(st.ascii_mode_seen(true), Some(InputMode::English));
    assert_eq!(st.ascii_mode_seen(true), None);
    assert_eq!(st.ascii_mode_seen(false), Some(InputMode::Chinese));
    assert_eq!(st.mode_toggled(true), InputMode::English);
    assert!(st.last_ascii_mode);
    assert_eq!(st.mode_toggled(false), InputMode::Chinese);
}

#[test]
fn losing_focus_resets_the_ui() {
    let mut st = ImeState::new();
    assert_eq!(st.focus_seen(true), FocusChange::Activated);
    assert_eq!(st.focus_seen(true), FocusChange::Unchanged);
    st.candidate_window_visible = true;
    st.panel_state = PanelState::MenuOpen;
    st.ctrl_root_visible = true;
    st.consumed_presses.insert(30);
    st.search_panel.active = true;
    assert_eq!(st.focus_seen(false), FocusChange::Deactivated);
    assert!(!st.candidate_window_visible);
    assert_eq!(st.panel_state, PanelState::Closed);
    assert!(!st.ctrl_root_visible);
    assert!(st.consumed_presses.is_empty());
    assert!(!st.search_panel.active);
    assert_eq!(st.focus_seen(false), FocusChange::Unchanged);
}

#[test]
fn emoji_opens_only_with_a_plugin() {
    let mut st = ImeState::new();
    assert!(!st.open_emoji(0));
    assert!(!st.search_panel.active);
    assert_eq!(st.panel_state, PanelState::Closed);
    assert!(st.open_emoji(2));
    assert!(st.search_panel.active);
    assert_eq!(st.search_panel.mode, PanelMode::Emoji);
    assert_eq!(st.panel_state, PanelState::ContentOpen);
}

#[test]
fn search_panel_keys() {
    let mut st = ImeState::new();
    let (p, s) = (&mut st.search_panel, &mut st.panel_state);
    // Closed: releases pass, ';' needs a plugin.
    assert_eq!(search_key(p, s, false, 0x3B, 1, false, false), SearchKey::Pass);
    assert!(needs_emoji_reload(p, true, 0x3B, false, false));
    assert!(!needs_emoji_reload(p, true, 0x61, false, false));
    assert_eq!(search_key(p, s, true, 0x3B, 0, false, false), SearchKey::Pass);
    // ';' opens nothing in ASCII mode or while composing: it goes on as a key.
    assert!(!needs_emoji_reload(p, true, 0x3B, true, false));
    assert!(!needs_emoji_reload(p, true, 0x3B, false, true));
    assert_eq!(search_key(p, s, true, 0x3B, 1, true, false), SearchKey::Pass);
    assert_eq!(search_key(p, s, true, 0x3B, 1, false, true), SearchKey::Pass);
    assert!(!p.active);
    assert_eq!(*s, PanelState::Closed);
    assert_eq!(search_key(p, s, true, 0x61, 1, false, false), SearchKey::Pass);
    assert_eq!(search_key(p, s, true, 0x3B, 1, false, false), SearchKey::Open);
    assert!(p.active);
    assert_eq!(*s, PanelState::ContentOpen);
    assert!(!needs_emoji_reload(p, true, 0x3B, false, false));
    assert_eq!(query_limit(p), 90);

    // 35 results: two pages of 30 and 5.
    assert!(apply_query_results(p, s, items(35)));
    assert_eq!(p.columns, 10);
    assert_eq!(p.total_pages(), 2);

    assert_eq!(search_key(p, s, true, 0xFF53, 1, false, false), SearchKey::Show);
    assert_eq!(p.highlighted, 1);
    assert_eq!(search_key(p, s, true, 0xFF09, 1, false, false), SearchKey::Show);
    assert_eq!(p.highlighted, 2);
    assert_eq!(search_key(p, s, true, 0xFF51, 1, false, false), SearchKey::Show);
    assert_eq!(search_key(p, s, true, 0xFF51, 1, false, false), SearchKey::Show);
    assert_eq!(p.highlighted, 0);
    assert_eq!(search_key(p, s, true, 0xFF51, 1, false, false), SearchKey::Show);
    assert_eq!(p.highlighted, 29);
    assert_eq!(search_key(p, s, true, 0xFF0D, 1, false, false), SearchKey::Commit("t29".to_string()));
    assert_eq!(search_key(p, s, true, 0x31, 1, false, false), SearchKey::Commit("t0".to_string()));
    assert_eq!(search_key(p, s, true, 0x30, 1, false, false), SearchKey::Commit("t9".to_string()));
    assert_eq!(search_key(p, s, true, 0x3B, 1, false, false), SearchKey::Commit(";".to_string()));

    // Paging.
    assert_eq!(search_key(p, s, true, 0xFF52, 1, false, false), SearchKey::Consumed);
    assert_eq!(search_key(p, s, true, 0xFF54, 1, false, false), SearchKey::Show);
    assert_eq!((p.page, p.highlighted), (1, 0));
    assert_eq!(search_key(p, s, true, 0xFF54, 1, false, false), SearchKey::Consumed);
    assert_eq!(search_key(p, s, true, 0x36, 1, false, false), SearchKey::Consumed);
    assert_eq!(search_key(p, s, true, 0x35, 1, false, false), SearchKey::Commit("t34".to_string()));
    assert_eq!(search_key(p, s, true, 0xFF51, 1, false, false), SearchKey::Show);
    assert_eq!(p.highlighted, 4);
    assert_eq!(search_key(p, s, true, 0x20, 1, false, false), SearchKey::Commit("t34".to_string()));
    assert_eq!(search_key(p, s, true, 0xFF52, 1, false, false), SearchKey::Show);
    assert_eq!((p.page, p.highlighted), (0, 0));

    // Query editing.
    assert_eq!(search_key(p, s, true, 0x78, 1, false, false), SearchKey::Refresh);
    assert_eq!(p.query, "x");
    assert_eq!(search_key(p, s, true, 0x79, 1, false, false), SearchKey::Refresh);
    assert_eq!(p.query, "xy");
    assert_eq!(search_key(p, s, true, 0xFF08, 1, false, false), SearchKey::Refresh);
    assert_eq!(p.query, "x");

    // Other keys and releases are taken.
    assert_eq!(search_key(p, s, true, 0xFFE1, 1, false, false), SearchKey::Consumed);
    assert_eq!(search_key(p, s, false, 0x78, 1, false, false), SearchKey::Consumed);

    // Escape closes.
    assert_eq!(search_key(p, s, true, 0xFF1B, 1, false, false), SearchKey::Exit);
    assert!(!p.active);
    assert_eq!(*s, PanelState::Closed);
    assert_eq!(search_key(p, s, false, 0xFF1B, 1, false, false), SearchKey::Pass);
}

#[test]
fn an_empty_result_closes_the_panel() {
    let mut st = ImeState::new();
    assert!(st.open_emoji(1));
    assert!(!apply_query_results(&mut st.search_panel, &mut st.panel_state, Vec::new()));
    assert!(!st.search_panel.active);
    assert_eq!(st.panel_state, PanelState::Closed);
}

#[test]
fn clicks_with_nothing_open() {
    let mut st = ImeState::new();
    st.last_panel_width = 300;
    assert_eq!(st.pointer_press(click(280, 10)), PointerAction::ShowMenu);
    assert_eq!(st.pointer_press(click(100, 10)), PointerAction::Ignore);
    assert_eq!(st.pointer_press(click(280, 40)), PointerAction::Ignore);
    let mut right = click(280, 10);
    right.button = 273;
    assert_eq!(st.pointer_press(right), PointerAction::Ignore);
    let mut release = click(280, 10);
    release.pressed = false;
    assert_eq!(st.pointer_press(release), PointerAction::Ignore);
    assert_eq!(st.panel_state, PanelState::Closed);
}

#[test]
fn clicks_on_the_menu() {
    let mut st = ImeState::new();
    st.last_panel_width = 300;

    st.panel_state = PanelState::MenuOpen;
    assert_eq!(st.pointer_press(click(10, 40)), PointerAction::OpenEmoji);
    assert_eq!(st.panel_state, PanelState::Closed);

    st.panel_state = PanelState::MenuOpen;
    assert_eq!(st.pointer_press(click(10, 90)), PointerAction::KeepMenu);
    assert_eq!(st.panel_state, PanelState::MenuOpen);
    assert_eq!(st.pointer_press(click(200, 90)), PointerAction::KeepMenu);

    assert_eq!(st.pointer_press(click(10, 10)), PointerAction::Ignore);
    assert_eq!(st.panel_state, PanelState::MenuOpen);

    assert_eq!(st.pointer_press(click(10, 200)), PointerAction::CloseMenu);
    assert_eq!(st.panel_state, PanelState::Closed);

    st.panel_state = PanelState::MenuOpen;
    assert_eq!(st.pointer_press(click(280, 10)), PointerAction::CloseMenu);
    assert_eq!(st.panel_state, PanelState::Closed);

    st.panel_state = PanelState::MenuOpen;
    assert_eq!(st.pointer_press(click(200, 40)), PointerAction::OpenSymbols);
    assert_eq!(st.panel_state, PanelState::ContentOpen);
    assert!(st.search_panel.active);
    assert_eq!(st.search_panel.mode, PanelMode::Symbols);
}

#[test]
fn clicks_on_the_content_grid() {
    let mut st = ImeState::new();
    st.last_panel_width = 1000;
    assert!(st.open_emoji(1));
    assert!(apply_query_results(&mut st.search_panel, &mut st.panel_state, items(3)));
    assert_eq!(st.pointer_press(click(1, 40)), PointerAction::Commit("t0".to_string()));
    assert_eq!(st.pointer_press(click(995, 10)), PointerAction::ShowMenu);
    assert_eq!(st.pointer_press(click(500, 10)), PointerAction::Ignore);
    assert_eq!(st.pointer_press(click(1, 200)), PointerAction::Ignore);
    assert_eq!(st.panel_state, PanelState::ContentOpen);
}
