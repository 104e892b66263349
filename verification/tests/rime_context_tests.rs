use xime::rime_context::{Candidate, Composition, Error, Menu};

#[test]
fn test_composition_default_values() {
    let comp = Composition {
        length: 0,
        cursor_pos: 0,
        sel_start: 0,
        sel_end: 0,
        preedit: None,
    };
    assert_eq!(comp.length, 0);
    assert_eq!(comp.cursor_pos, 0);
    assert!(comp.preedit.is_none());
}

#[test]
fn test_composition_with_preedit() {
    let comp = Composition {
        length: 4,
        cursor_pos: 4,
        sel_start: 0,
        sel_end: 4,
        preedit: Some("nihao"),
    };
    assert_eq!(comp.length, 4);
    assert_eq!(comp.preedit, Some("nihao"));
}

#[test]
fn test_menu_default_values() {
    let menu = Menu {
        page_size: 5,
        page_no: 0,
        is_last_page: true,
        highlighted_candidate_index: 0,
        num_candidates: 0,
        candidates: Vec::new(),
        select_keys: None,
    };
    assert_eq!(menu.page_size, 5);
    assert!(menu.is_last_page);
    assert!(menu.candidates.is_empty());
    assert!(menu.select_keys.is_none());
}

#[test]
fn test_menu_with_candidates() {
    let candidates = vec![
        Candidate {
            text: "你好",
            comment: None,
        },
        Candidate {
            text: "世界",
            comment: Some("shijie"),
        },
    ];
    let menu = Menu {
        page_size: 5,
        page_no: 0,
        is_last_page: false,
        highlighted_candidate_index: 0,
        num_candidates: 2,
        candidates,
        select_keys: Some("12345"),
    };
    assert!(!menu.is_last_page);
    assert_eq!(menu.num_candidates, 2);
    assert_eq!(menu.candidates[0].text, "你好");
    assert!(menu.candidates[0].comment.is_none());
    assert_eq!(menu.candidates[1].text, "世界");
    assert_eq!(menu.candidates[1].comment, Some("shijie"));
    assert_eq!(menu.select_keys, Some("12345"));
}

#[test]
fn test_candidate_with_comment() {
    let candidate = Candidate {
        text: "测试",
        comment: Some("ceshi"),
    };
    assert_eq!(candidate.text, "测试");
    assert_eq!(candidate.comment, Some("ceshi"));
}

#[test]
fn test_composition_debug() {
    let comp = Composition {
        length: 2,
        cursor_pos: 2,
        sel_start: 0,
        sel_end: 2,
        preedit: Some("wo"),
    };
    let debug = format!("{:?}", comp);
    assert!(debug.contains("preedit"));
    assert!(debug.contains("wo"));
}

#[test]
fn test_menu_debug() {
    let menu = Menu {
        page_size: 5,
        page_no: 0,
        is_last_page: true,
        highlighted_candidate_index: 0,
        num_candidates: 0,
        candidates: Vec::new(),
        select_keys: None,
    };
    let debug = format!("{:?}", menu);
    assert!(debug.contains("page_size"));
    assert!(debug.contains("page_no"));
}

#[test]
fn test_candidate_debug() {
    let candidate = Candidate {
        text: "测试",
        comment: None,
    };
    let debug = format!("{:?}", candidate);
    assert!(debug.contains("测试"));
}

#[test]
fn test_error_display_api_not_initialized() {
    let err = Error::ApiNotInitialized;
    assert_eq!(err.message(), "Rime API not initialized");
}

#[test]
fn test_error_display_function_not_available() {
    let err = Error::FunctionNotAvailable("process_key");
    assert_eq!(err.message(), "Rime function 'process_key' not available");
}

#[test]
fn test_error_display_create_session() {
    let err = Error::CreateSession;
    assert_eq!(err.message(), "Failed to create session");
}

#[test]
fn test_error_display_start_maintenance() {
    let err = Error::StartMaintenance;
    assert_eq!(err.message(), "Failed to start maintenance");
}

#[test]
fn test_error_display_sync_user_data() {
    let err = Error::SyncUserData;
    assert_eq!(err.message(), "Failed to sync user data");
}

#[test]
fn test_error_display_get_context() {
    let err = Error::GetContext;
    assert_eq!(err.message(), "Failed to get context");
}

#[test]
fn test_error_display_get_status() {
    let err = Error::GetStatus;
    assert_eq!(err.message(), "Failed to get status");
}

#[test]
fn test_error_display_get_commit() {
    let err = Error::GetCommit;
    assert_eq!(err.message(), "Failed to get commit");
}

#[test]
fn test_error_display_select_schema() {
    let err = Error::SelectSchema;
    assert_eq!(err.message(), "Failed to select schema");
}

#[test]
fn test_error_display_close_session() {
    let err = Error::CloseSession;
    assert_eq!(err.message(), "Failed to close session");
}

#[test]
fn test_error_display_simulate_key_sequence() {
    let err = Error::SimulateKeySequence;
    assert_eq!(err.message(), "Failed to simulate key sequence");
}

#[test]
fn test_error_display_invalid_utf8() {
    let err = Error::InvalidUtf8;
    assert_eq!(err.message(), "Invalid UTF-8 string");
}

#[test]
fn error_test_error_debug() {
    let err = Error::ApiNotInitialized;
    let debug = format!("{:?}", err);
    assert!(debug.contains("ApiNotInitialized"));
}

#[test]
fn rime_error_nul_byte_message() {
    assert_eq!(Error::NulByte(5).message(), "String contains null byte");
}
