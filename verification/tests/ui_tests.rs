use xime::candidate::{CandidateList, MoveDirection};
use xime::daemon_config::get_primary_color;
use xime::menu::{
    content_capacity, content_cell_width, content_columns_for, content_item_hit,
    content_panel_height, content_panel_width, content_text_width, menu_button_hit,
    menu_item_hit, menu_panel_height, panel_height_for, MenuAction, PanelView,
    CONTENT_MAX_WIDTH,
};

#[test]
fn test_content_text_width() {
    assert_eq!(content_text_width("。"), 17);
    assert_eq!(content_text_width("abc"), 30);
    assert_eq!(content_text_width("0️⃣"), 10);
    assert_eq!(content_text_width(""), 0);
}

#[test]
fn test_content_grid_sizing() {
    let cell = content_cell_width(content_text_width("。"));
    assert_eq!(cell, 36);
    let cols = content_columns_for(cell);
    assert_eq!(cols, 10);
    assert_eq!(content_panel_width(cell, cols), 414);
    assert_eq!(content_capacity(cols), 30);

    let kaomoji = "(ﾟ∀ﾟ)";
    let cell = content_cell_width(content_text_width(kaomoji));
    assert!(cell >= 36);
    let cols = content_columns_for(cell);
    assert!(cols < 10, "wide items should reduce columns");
    assert!(content_panel_width(cell, cols) <= CONTENT_MAX_WIDTH + cell);
    assert!(content_panel_width(cell, cols) > 414);

    let cols = content_columns_for(200);
    assert_eq!(cols, 4);
}

#[test]
fn test_content_panel_geometry() {
    assert_eq!(content_panel_height(), 120);
}

#[test]
fn test_content_item_hit() {
    let w = 414u32;
    let cols = 10usize;
    assert_eq!(content_item_hit(0, 36, w, cols, 30), Some(0));
    assert_eq!(content_item_hit(w as i32 - 1, 36, w, cols, 30), Some(9));
    assert_eq!(content_item_hit(0, 78, w, cols, 30), Some(10));
    assert_eq!(content_item_hit(0, 120, w, cols, 30), Some(20));
    assert_eq!(content_item_hit(0, 155, w, cols, 30), Some(20));
    assert_eq!(content_item_hit(0, 35, w, cols, 30), None);
    assert_eq!(content_item_hit(0, 36 + 120, w, cols, 30), None);
    assert_eq!(content_item_hit(-1, 36, w, cols, 30), None);
    assert_eq!(content_item_hit(0, 36, w, cols, 0), None);
    assert_eq!(content_item_hit(0, 36, w, cols, 5), Some(0));
    assert_eq!(content_item_hit(w as i32 - 1, 36, w, cols, 5), None);
}

#[test]
fn test_panel_height_for() {
    assert_eq!(panel_height_for(&PanelView::Closed), 0);
    assert_eq!(panel_height_for(&PanelView::Menu(None)), menu_panel_height());
    assert_eq!(
        panel_height_for(&PanelView::Content {
            items: vec![],
            highlighted: None,
        }),
        content_panel_height()
    );
}

#[test]
fn menu_actions_are_laid_out_in_two_columns() {
    for (i, a) in MenuAction::ALL.iter().enumerate() {
        assert_eq!(a.index(), i);
        assert_eq!(a.row() * 2 + a.col(), i);
    }
}

#[test]
fn menu_hits() {
    assert!(!menu_button_hit(-1, 0, 300));
    let first = menu_item_hit(1, 37, 300);
    assert_eq!(first.map(|a| a.index()), Some(0));
    assert_eq!(menu_item_hit(1, 10, 300).map(|a| a.index()), None);
}

#[test]
fn test_primary_color_lavender_purple() {
    let primary_color = (0x8F, 0x73, 0xE2);
    assert_eq!(primary_color.0, 143);
    assert_eq!(primary_color.1, 115);
    assert_eq!(primary_color.2, 226);
    assert_eq!(get_primary_color(None), primary_color);
}

#[test]
fn renderer_test_primary_color_ocean_blue() {
    let primary_color = (0x1A, 0x73, 0xE8);
    assert_eq!(primary_color.0, 26);
    assert_eq!(primary_color.1, 115);
    assert_eq!(primary_color.2, 232);
    assert_eq!(xime::daemon_config::rgb_of(0x1A73E8), primary_color);
}

#[test]
fn test_draw_highlight_primary_color_applied() {
    let primary_color = (0xC6, 0x28, 0x28);
    let r = primary_color.0;
    let g = primary_color.1;
    let b = primary_color.2;
    assert_eq!(r, 198);
    assert_eq!(g, 40);
    assert_eq!(b, 40);
}

fn twelve() -> CandidateList {
    let mut list = CandidateList::new(5);
    let texts: Vec<String> = (0..12).map(|i| format!("c{i}")).collect();
    let pairs: Vec<(&str, Option<&str>)> = texts.iter().map(|t| (t.as_str(), None)).collect();
    list.set_candidates(pairs, None);
    list
}

#[test]
fn candidate_paging() {
    let mut list = twelve();
    let info = list.get_page_info();
    assert_eq!(info.total_pages, 3);
    assert_eq!(info.current_page, 0);
    assert!(!info.is_last_page);
    assert_eq!(info.select_keys, "12345");
    list.page_down();
    list.page_down();
    assert_eq!(list.get_page_info().current_page, 2);
    assert!(list.get_page_info().is_last_page);
    list.page_down();
    assert_eq!(list.get_page_info().current_page, 2);
    list.page_up();
    assert_eq!(list.get_page_info().current_page, 1);
    assert_eq!(list.select_highlighted(), Some("c5"));
}

#[test]
fn candidate_highlight_stays_on_page() {
    let mut list = twelve();
    list.page_down();
    list.page_down();
    list.move_highlight(MoveDirection::Down);
    assert_eq!(list.select_highlighted(), Some("c11"));
    list.move_highlight(MoveDirection::Down);
    assert_eq!(list.select_highlighted(), Some("c11"));
    list.move_highlight(MoveDirection::Up);
    list.move_highlight(MoveDirection::Up);
    assert_eq!(list.select_highlighted(), Some("c10"));
}

#[test]
fn candidate_select_by_key() {
    let mut list = twelve();
    assert_eq!(list.select_by_key('3'), Some("c2"));
    assert_eq!(list.select_by_key('9'), None);
    let pairs = vec![("甲", Some("jia")), ("乙", None)];
    list.set_candidates(pairs, Some("asdf"));
    assert_eq!(list.select_by_key('s'), Some("乙"));
    assert_eq!(list.select_by_key('d'), None);
    assert_eq!(list.get_page_info().select_keys, "asdf");
    list.clear();
    assert!(list.is_empty());
    assert_eq!(list.select_highlighted(), None);
}

#[test]
fn candidate_list_clone_is_independent_copy() {
    let mut list = twelve();
    list.page_down();
    list.move_highlight(MoveDirection::Down);
    let mut copy = list.clone();
    assert_eq!(copy.select_highlighted(), Some("c6"));
    assert_eq!(copy.get_page_info().current_page, 1);
    copy.page_down();
    assert_eq!(copy.select_highlighted(), Some("c10"));
    assert_eq!(list.select_highlighted(), Some("c6"));
}
