use xime::rime_config::get_yaml_value;
use xime::menu::{expanded_height, menu_panel_height, MenuAction};
use xime::pairing::{PairStatus, PairStore};
use xime::schema_config::{
    merge_reverse_lookup, merge_speller, merge_translator, ReverseLookupConfig, SpellerConfig,
    TranslatorConfig,
};
use xime::schema_info::{extract_author, extract_description, SchemaInfo};
use xime::schema_list::{name_lt, sort_infos};
use xime::settings::InputSchemaState;
use xime::smart_suggestion::{
    default_learning_threshold, default_model_name, default_model_provider,
    default_suggestion_count,
};
use xime::theme::{SystemTheme, ThemeColors};
use xime::text::{parse_bool_text, parse_i32_text, split_char, trim_chars, CharClass};
use xime::webdav::{
    build_download_url, build_probe_url, choose_config, default_remote_dir, download_outcome,
    notification, notification_urgency, pack_failure, probe_outcome, probe_succeeded,
    upload_accepted, ConfigChoice, DownloadOutcome, ProbeOutcome, WebdavConfig,
};

fn lines(ls: &[&str]) -> Vec<Vec<char>> {
    ls.iter().map(|l| l.chars().collect()).collect()
}

fn info(id: &str, name: &str) -> SchemaInfo {
    SchemaInfo {
        schema_id: id.to_string(),
        name: name.to_string(),
        version: "1".to_string(),
        author: "a".to_string(),
        description: String::new(),
    }
}

#[test]
fn author_on_one_line_or_as_a_list() {
    assert_eq!(extract_author(&lines(&["  author: \"Carol\""]), 0), "Carol");
    assert_eq!(extract_author(&lines(&["  author: 'Dan'"]), 0), "Dan");
    let list = lines(&["  author:", "    - \"Alice\"", "    - 'Bob'", "  description: x"]);
    assert_eq!(extract_author(&list, 0), "Alice, Bob");
    let inline_list = lines(&["  author: [a, b]", "  name: n"]);
    assert_eq!(extract_author(&inline_list, 0), "未知");
    assert_eq!(extract_author(&lines(&["  author:", "  version: 1"]), 0), "未知");
}

#[test]
fn description_on_one_line_or_as_a_block() {
    assert_eq!(extract_description(&lines(&["  description: \"Simple\""]), 0), "Simple");
    let block = lines(&["  description: |", "    Line one", "", "    line two", "version: 1"]);
    assert_eq!(extract_description(&block, 0), "Line one line two");
    assert_eq!(extract_description(&lines(&["  description:"]), 0), "");
}

#[test]
fn schemas_sort_by_name() {
    assert!(name_lt("a", "b"));
    assert!(name_lt("ab", "abc"));
    assert!(!name_lt("b", "a"));
    assert!(!name_lt("a", "a"));
    let sorted = sort_infos(vec![info("w", "五笔"), info("p", "Pinyin"), info("c", "Cangjie")]);
    let ids: Vec<&str> = sorted.iter().map(|s| s.schema_id.as_str()).collect();
    assert_eq!(ids, vec!["c", "p", "w"]);
}

#[test]
fn selected_schema_in_range() {
    let mut state = InputSchemaState {
        selected_schema: 1,
        available_schemas: vec![info("a", "A"), info("b", "B")],
        schema_config: Default::default(),
        config_loaded: false,
    };
    assert_eq!(state.selected_schema_id().as_deref(), Some("b"));
    state.selected_schema = 2;
    assert_eq!(state.selected_schema_id(), None);
}

#[test]
fn merging_patch_sections() {
    let base = SpellerConfig { max_code_length: Some(4), auto_select: Some(true), auto_clear: Some("max_length".into()) };
    let custom = SpellerConfig { max_code_length: Some(5), auto_select: None, auto_clear: None };
    let m = merge_speller(base, custom);
    assert_eq!(m.max_code_length, Some(5));
    assert_eq!(m.auto_select, Some(true));
    assert_eq!(m.auto_clear.as_deref(), Some("max_length"));

    let t = merge_translator(
        TranslatorConfig { enable_sentence: Some(true), max_phrase_length: Some(4), ..Default::default() },
        TranslatorConfig { enable_sentence: Some(false), ..Default::default() },
    );
    assert_eq!(t.enable_sentence, Some(false));
    assert_eq!(t.max_phrase_length, Some(4));
    assert_eq!(t.enable_completion, None);

    let r = merge_reverse_lookup(
        ReverseLookupConfig { prefix: Some("z".into()), suffix: Some("'".into()) },
        ReverseLookupConfig { prefix: Some("`".into()), suffix: None },
    );
    assert_eq!(r.prefix.as_deref(), Some("`"));
    assert_eq!(r.suffix.as_deref(), Some("'"));
}

#[test]
fn webdav_urls_and_statuses() {
    let config = WebdavConfig {
        url: "https://dav.example.com/".into(),
        username: "u".into(),
        password: "p".into(),
        remote_dir: "/backup/".into(),
    };
    assert!(config.is_valid());
    assert!(!WebdavConfig { username: String::new(), ..config.clone() }.is_valid());
    assert_eq!(build_download_url(&config), "https://dav.example.com/backup/xime-backup.tar.gz");
    assert_eq!(build_probe_url(&config), "https://dav.example.com/backup/");
    assert_eq!(default_remote_dir(), "xime");

    assert_eq!(probe_outcome(207), ProbeOutcome::Reachable);
    assert_eq!(probe_outcome(401), ProbeOutcome::Unauthorized);
    assert_eq!(probe_outcome(403), ProbeOutcome::Forbidden);
    assert_eq!(probe_outcome(404), ProbeOutcome::MissingDirectory);
    assert_eq!(probe_outcome(503), ProbeOutcome::ServerError);
    assert_eq!(probe_outcome(302), ProbeOutcome::Unexpected);
    assert!(probe_succeeded(ProbeOutcome::Reachable));
    assert!(probe_succeeded(ProbeOutcome::MissingDirectory));
    assert!(!probe_succeeded(ProbeOutcome::Forbidden));

    assert!(upload_accepted(201));
    assert!(upload_accepted(204));
    assert!(!upload_accepted(409));
    assert_eq!(download_outcome(200), DownloadOutcome::Found);
    assert_eq!(download_outcome(404), DownloadOutcome::NoBackup);
    assert_eq!(download_outcome(500), DownloadOutcome::Failed);
    assert_eq!(pack_failure("no space"), "打包 Rime 配置失败: no space");
}

#[test]
fn pairing_session_created_and_removed() {
    let mut store = PairStore::load_from("/cfg", Vec::new());
    let s = store.create_session("dev".into(), "phone".into(), 1_000);
    assert_eq!(s.code.chars().count(), 6);
    assert!(s.code.chars().all(|c| c.is_ascii_digit()));
    assert_eq!(s.expires_at, 1_000 + 600_000);
    assert_eq!(s.status, PairStatus::Pending);
    let code = s.code.clone();
    assert!(store.get_session(&code).is_some());
    store.remove_session(&code);
    assert!(store.get_session(&code).is_none());
}

#[test]
fn menu_geometry_constants() {
    assert_eq!(menu_panel_height(), 88);
    assert_eq!(expanded_height(), 36 + 88);
    assert!(MenuAction::Emoji.is_available());
    assert!(MenuAction::Symbols.is_available());
    assert!(!MenuAction::Clipboard.is_available());
    assert!(!MenuAction::QuickSend.is_available());
}

#[test]
fn smart_suggestion_defaults_by_function() {
    assert_eq!(default_suggestion_count(), 5);
    assert_eq!(default_learning_threshold(), 3);
    assert_eq!(default_model_provider(), "modelscope");
    assert_eq!(default_model_name(), "predictive-text-small");
}

#[test]
fn text_helpers() {
    assert_eq!(trim_chars("//a/b//", CharClass::Is('/')), "a/b");
    assert_eq!(trim_chars("  x y \t", CharClass::Ws), "x y");
    assert_eq!(split_char("a/b//c", '/'), vec!["a", "b", "", "c"]);
    assert_eq!(parse_i32_text("-42"), Some(-42));
    assert_eq!(parse_i32_text("+7"), Some(7));
    assert_eq!(parse_i32_text("2147483648"), None);
    assert_eq!(parse_i32_text("4a"), None);
    assert_eq!(parse_bool_text("true"), Some(true));
    assert_eq!(parse_bool_text("false"), Some(false));
    assert_eq!(parse_bool_text("True"), None);
}

#[test]
fn style_defaults() {
    assert_eq!(xime::daemon_config::default_font_size(), 14);
    assert_eq!(xime::daemon_config::default_candidate_count(), 5);
    assert!(xime::daemon_config::default_horizontal());
    assert_eq!(xime::daemon_config::default_color_scheme(), "lavender_purple");
    assert_eq!(xime::daemon_config::default_primary_color(), 0x8F73E2);
}

#[test]
fn theme_palette() {
    let dark = ThemeColors::from_theme(&SystemTheme::Dark, 0x8F73E2);
    assert_eq!(dark.primary, 0x8F73E2);
    assert_eq!(dark.primary_hover, 0x8067CB);
    assert_eq!(dark.surface, 0x1a1a1a);
    assert_eq!(dark.selection, 0x3a2a5a);
    let light = ThemeColors::from_theme(&SystemTheme::Light, 0x1A73E8);
    assert_eq!(light.surface, 0xffffff);
    assert_eq!(light.foreground, 0x1a1a1a);
    assert_eq!(light.primary_hover, 0x1767D0);
    assert_eq!(light.error, 0xc42b1c);
    // Darkening to nine tenths in integers agrees with scaling by 0.9 as a float.
    for c in 0u32..=255 {
        let color = (c << 16) | (c << 8) | c;
        let by_float = ((c as f32 * 0.9) as u8) as u32;
        let expected = (by_float << 16) | (by_float << 8) | by_float;
        assert_eq!(ThemeColors::from_theme(&SystemTheme::Light, color).primary_hover, expected);
    }
}

#[test]
fn settings_page_icons() {
    assert_eq!(xime::settings::get_page_icon(0), "icons/keyboard.svg");
    assert_eq!(xime::settings::get_page_icon(3), "icons/sync.svg");
    assert_eq!(xime::settings::get_page_icon(4), "icons/about.svg");
    assert_eq!(xime::settings::get_page_icon(9), "icons/keyboard.svg");
}

#[test]
fn sync_settings_choice_and_notifications() {
    let full = WebdavConfig {
        url: "https://dav.example.com".into(),
        username: "u".into(),
        password: String::new(),
        remote_dir: String::new(),
    };
    let empty = WebdavConfig::default();
    assert_eq!(choose_config(&full, &empty), ConfigChoice::Saved);
    assert_eq!(choose_config(&full, &full), ConfigChoice::Saved);
    assert_eq!(choose_config(&empty, &full), ConfigChoice::Typed);
    assert_eq!(choose_config(&empty, &empty), ConfigChoice::Missing);
    let ok: Result<String, String> = Ok("上传成功".into());
    assert_eq!(
        notification(&ok),
        ("Xime".to_string(), "上传成功".to_string(), "normal".to_string())
    );
    let err: Result<String, String> = Err("失败".into());
    assert_eq!(
        notification(&err),
        ("Xime 错误".to_string(), "失败".to_string(), "critical".to_string())
    );
    assert_eq!(notification_urgency(true), "critical");
    assert_eq!(notification_urgency(false), "normal");
}

#[test]
fn yaml_key_path_lookup() {
    let doc = "a:\n  b: 1\n  c: [x, y]\nd: true\ne: 'str'\nf: 1.5\nn: ~\n";
    assert_eq!(get_yaml_value(doc, "a/b").as_deref(), Some("1"));
    assert_eq!(get_yaml_value(doc, "d").as_deref(), Some("true"));
    assert_eq!(get_yaml_value(doc, "e").as_deref(), Some("str"));
    assert_eq!(get_yaml_value(doc, "f").as_deref(), Some("1.5"));
    assert_eq!(get_yaml_value(doc, "n"), None);
    assert_eq!(get_yaml_value(doc, "a/c"), None);
    assert_eq!(get_yaml_value(doc, "a/x"), None);
    assert_eq!(get_yaml_value(doc, "a/b/c"), None);
    assert_eq!(get_yaml_value(doc, "a"), None);
    // Whole nested entries before the key are skipped.
    let nested = "x: {p: [1, {q: 2}], r: s}\ny: 5\n";
    assert_eq!(get_yaml_value(nested, "y").as_deref(), Some("5"));
    assert_eq!(get_yaml_value(nested, "x/r").as_deref(), Some("s"));
    // A tag is looked through on the way down, but a tagged scalar is no scalar.
    assert_eq!(get_yaml_value("m: !tag {k: v}\n", "m/k").as_deref(), Some("v"));
    assert_eq!(get_yaml_value("t: !foo bar\n", "t"), None);
    // Only plain string keys match; a broken document has no values.
    assert_eq!(get_yaml_value("1: one\n", "1"), None);
    assert_eq!(get_yaml_value("a: [\n", "a"), None);
}
