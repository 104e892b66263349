use std::collections::HashSet;
use xime::daemon::{
    emoji_select_index, panel_commit_text, should_forward_key, EmojiItem, PanelMode, SearchPanel,
};
use xime::menu::{content_capacity, CONTENT_COLUMNS_MAX};

fn item(id: &str, text: &str, category: &str) -> EmojiItem {
    EmojiItem {
        id: id.into(),
        text: text.into(),
        image_url: None,
        category: category.into(),
    }
}

#[test]
fn test_should_forward_key_empty() {
    let consumed = HashSet::new();
    assert!(should_forward_key(true, false, &consumed, 10));
    assert!(should_forward_key(false, false, &consumed, 10));
}

#[test]
fn test_should_forward_key_consumed_press() {
    let mut consumed = HashSet::new();
    assert!(!should_forward_key(true, true, &consumed, 10));
    consumed.insert(10);
    assert!(!should_forward_key(false, false, &consumed, 10));
}

#[test]
fn test_should_forward_key_after_commit() {
    let consumed = HashSet::new();
    assert!(should_forward_key(true, false, &consumed, 10));
}

#[test]
fn test_should_forward_key_different_keys() {
    let mut consumed = HashSet::new();
    consumed.insert(10);
    assert!(!should_forward_key(false, false, &consumed, 10));
    assert!(should_forward_key(false, false, &consumed, 20));
}

#[test]
fn test_emoji_select_index() {
    for (key, idx) in [(0x31, 0usize), (0x35, 4), (0x39, 8)] {
        assert_eq!(emoji_select_index(key), Some(idx));
    }
    assert_eq!(emoji_select_index(0x30), Some(9));
    assert_eq!(emoji_select_index(0x20), None);
    assert_eq!(emoji_select_index(0x61), None);
    assert_eq!(emoji_select_index(0xFF0D), None);
}

#[test]
fn test_panel_commit_text() {
    let panel = SearchPanel::default();
    assert_eq!(panel_commit_text(&panel, 0), None);

    let panel = SearchPanel {
        items: vec![item("k1", "(ﾟ∀ﾟ)", "颜文字"), item("k2", "(^u^)", "颜文字")],
        ..SearchPanel::default()
    };
    assert_eq!(panel_commit_text(&panel, 0).as_deref(), Some("(ﾟ∀ﾟ)"));
    assert_eq!(panel_commit_text(&panel, 1).as_deref(), Some("(^u^)"));
    assert_eq!(panel_commit_text(&panel, 2), None);
    assert_eq!(panel.per_page(), content_capacity(CONTENT_COLUMNS_MAX));
}

#[test]
fn test_panel_commit_text_paged() {
    let items: Vec<EmojiItem> = (0..35)
        .map(|i| item(&format!("k{i}"), &format!("t{i}"), "c"))
        .collect();
    let panel = SearchPanel {
        page: 1,
        items: items.clone(),
        ..SearchPanel::default()
    };
    assert_eq!(panel_commit_text(&panel, 0).as_deref(), Some("t30"));
    assert_eq!(panel_commit_text(&panel, 4).as_deref(), Some("t34"));
    assert_eq!(panel_commit_text(&panel, 5), None);
    assert_eq!(panel.total_pages(), 2);
    assert_eq!(panel.page_len(), 5);
    let first = SearchPanel {
        items,
        ..SearchPanel::default()
    };
    assert_eq!(first.page_len(), content_capacity(CONTENT_COLUMNS_MAX));
}

#[test]
fn test_symbols_commit_text() {
    let panel = SearchPanel {
        mode: PanelMode::Symbols,
        page: 1,
        items: (0..70)
            .map(|i| item(&format!("s{i}"), &format!("s{i}"), "数"))
            .collect(),
        ..SearchPanel::default()
    };
    assert_eq!(panel.per_page(), content_capacity(CONTENT_COLUMNS_MAX));
    assert_eq!(panel.total_pages(), 3);
    assert_eq!(panel_commit_text(&panel, 0).as_deref(), Some("s30"));
    assert_eq!(panel.page_len(), content_capacity(CONTENT_COLUMNS_MAX));
}

#[test]
fn consumed_press_then_release_law_example() {
    // A consumed press is not forwarded, and neither is its release; other keys still are.
    let mut consumed = HashSet::new();
    assert!(!should_forward_key(true, true, &consumed, 36));
    consumed.insert(36);
    assert!(!should_forward_key(false, false, &consumed, 36));
    assert!(should_forward_key(false, false, &consumed, 37));
    consumed.remove(&36);
    assert!(should_forward_key(false, false, &consumed, 36));
}
