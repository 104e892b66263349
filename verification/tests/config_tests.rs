use xime::smart_suggestion::SmartSuggestionConfig;

#[test]
fn test_smart_suggestion_defaults() {
    let config = SmartSuggestionConfig::default();
    assert!(!config.enabled);
    assert_eq!(config.suggestion_count, 5);
    assert_eq!(config.learning_threshold, 3);
    assert_eq!(config.model.provider, "modelscope");
    assert_eq!(config.model.name, "predictive-text-small");
}

use xime::daemon_config::{
    color_from_number, default_primary_color, default_show_last_key_root, parse_color_text,
    ColorScheme, HotkeyConfig, WubiRootConfig,
};
use xime::rime_config::{get_yaml_value, FileContent, RimeConfigManager, SchemaConfigManager};
use xime::schema_config::{merge_configs, SchemaConfig};
use xime::schema_info::{extract_schema_info, extract_selected_schema};
use xime::schema_list::{deploy_all, schema_id_from_file_name, DeployResult, SchemaFile, SchemaManager};
use xime::settings::{deploy_message, primary_color_in, schema_config_settings, SmartSuggestionState};

const SCHEMA: &str = "# Rime schema
schema:
  schema_id: wubi86
  name: \"五笔86\"
  version: '2.0'
  author:
    - 发明人 王永民
    - \"Rime 移植\"
  description: |
    五笔字型86版
    极点风格

switches:
  - name: ascii_mode
";

#[test]
fn schema_info_from_block() {
    let info = extract_schema_info(SCHEMA, "wubi86");
    assert_eq!(info.schema_id, "wubi86");
    assert_eq!(info.name, "五笔86");
    assert_eq!(info.version, "2.0");
    assert_eq!(info.author, "发明人 王永民, Rime 移植");
    assert_eq!(info.description, "五笔字型86版 极点风格");
}

#[test]
fn schema_info_defaults() {
    let info = extract_schema_info("switches:\n  - name: x\n", "pinyin");
    assert_eq!(info.name, "pinyin");
    assert_eq!(info.version, "未知");
    assert_eq!(info.author, "未知");
    assert_eq!(info.description, "");
}

#[test]
fn schema_info_inline_author_and_description() {
    let text = "schema:\n  name: Test\n  author: someone\n  description: short one\n";
    let info = extract_schema_info(text, "t");
    assert_eq!(info.name, "Test");
    assert_eq!(info.author, "someone");
    assert_eq!(info.description, "short one");
}

#[test]
fn selected_schema_from_default_custom() {
    let text = "customization:\n  distribution_code_name: Xime\n\npatch:\n  schema_list:\n    - schema: wubi86_jidian\n";
    assert_eq!(extract_selected_schema(text).as_deref(), Some("wubi86_jidian"));
    assert_eq!(extract_selected_schema("patch:\n  schema_list: []\n"), None);
    assert_eq!(extract_selected_schema("- schema:   \n- schema: 'b'\n").as_deref(), Some("b"));
}

#[test]
fn schema_file_names() {
    assert_eq!(schema_id_from_file_name("wubi86.schema.yaml").as_deref(), Some("wubi86"));
    assert_eq!(schema_id_from_file_name("wubi86.dict.yaml"), None);
    assert_eq!(schema_id_from_file_name("a.schema.yaml.schema.yaml").as_deref(), Some("a"));
}

fn file(name: &str, content: Option<&str>) -> SchemaFile {
    SchemaFile {
        file_name: name.to_string(),
        content: content.map(|c| c.to_string()),
    }
}

#[test]
fn schema_list_merges_and_sorts() {
    let manager = SchemaManager::new("/home/u/.config/xime/rime").unwrap();
    let user = vec![
        file("zeta.schema.yaml", Some("schema:\n  name: Zeta\n")),
        file("broken.schema.yaml", None),
        file("notes.txt", Some("schema:\n  name: X\n")),
    ];
    let xime = vec![
        file("zeta.schema.yaml", Some("schema:\n  name: Other\n")),
        file("alpha.schema.yaml", Some("schema:\n  name: Alpha\n")),
    ];
    let shared = vec![
        file("alpha.schema.yaml", Some("schema:\n  name: Shadowed\n")),
        file("mid.schema.yaml", Some("schema:\n  name: Mid\n")),
    ];
    let list = manager.get_schema_list(&user, &xime, &shared);
    let names: Vec<&str> = list.iter().map(|s| s.name.as_str()).collect();
    assert_eq!(names, vec!["Alpha", "Mid", "Zeta"]);
    let ids: Vec<&str> = list.iter().map(|s| s.schema_id.as_str()).collect();
    assert_eq!(ids, vec!["alpha", "mid", "zeta"]);
}

#[test]
fn schema_list_text() {
    let manager = SchemaManager::new("/tmp").unwrap();
    let text = manager.set_schema_list(&vec!["wubi86".to_string(), "pinyin".to_string()]);
    assert_eq!(
        text,
        "customization:\n  distribution_code_name: Xime\n  distribution_version: 1.0\n\npatch:\n  schema_list:\n    - schema: wubi86\n    - schema: pinyin\n"
    );
    assert!(manager.save().is_ok());
    assert_eq!(
        manager.get_selected_schema(&FileContent::Text(text)).as_deref(),
        Some("wubi86")
    );
    assert_eq!(manager.get_selected_schema(&FileContent::Missing), None);
}

#[test]
fn deploy_results() {
    assert!(deploy_all(DeployResult::Success).is_ok());
    assert_eq!(deploy_all(DeployResult::Failure).unwrap_err(), "Deploy failed");
}

#[test]
fn yaml_values() {
    let doc = "style:\n  font_size: 14\n  color_scheme: lavender_purple\n  horizontal: true\n  list: [1, 2]\n";
    assert_eq!(get_yaml_value(doc, "style/font_size").as_deref(), Some("14"));
    assert_eq!(get_yaml_value(doc, "style/color_scheme").as_deref(), Some("lavender_purple"));
    assert_eq!(get_yaml_value(doc, "style/horizontal").as_deref(), Some("true"));
    assert_eq!(get_yaml_value(doc, "style/list"), None);
    assert_eq!(get_yaml_value(doc, "style/missing"), None);
    assert_eq!(get_yaml_value(": : not yaml [", "a"), None);
}

#[test]
fn rime_config_reads_custom_before_base() {
    let m = RimeConfigManager::new("/tmp/xime").unwrap();
    let base = FileContent::Text("style:\n  candidate_count: 5\n  horizontal: true\n".to_string());
    let custom = FileContent::Text("style:\n  candidate_count: 7\n".to_string());
    assert_eq!(m.get_int(&custom, &base, "style/candidate_count"), Some(7));
    assert_eq!(m.get_bool(&custom, &base, "style/horizontal"), Some(true));
    assert_eq!(m.get_int(&FileContent::Missing, &base, "style/candidate_count"), Some(5));
    assert_eq!(m.get_int(&FileContent::Unreadable, &base, "style/candidate_count"), None);
    assert_eq!(m.get_string(&custom, &FileContent::Missing, "style/horizontal"), None);
    assert_eq!(m.get_int(&custom, &base, "style/horizontal"), None);
    assert!(m.save().is_ok());
}

#[test]
fn rime_config_writes_patch() {
    let m = RimeConfigManager::new("/tmp/xime").unwrap();
    let first = m.set_int(None, "style/font_size", 16);
    assert_eq!(
        first,
        "customization:\n  distribution_code_name: Xime\n  distribution_version: 1.0\n\npatch:\n    style_font_size: 16\n"
    );
    let second = m.set_bool(Some(&first), "style/font_size", false);
    assert!(second.ends_with("patch:\n    style_font_size: false\n"));
    let third = m.set_string(Some(&second), "default_schema", "wubi86");
    assert!(third.ends_with("patch:\n    default_schema: wubi86\n    style_font_size: false\n"));
    let no_patch = m.set_int(Some("a: 1\n"), "x", -3);
    assert_eq!(no_patch, "a: 1\n");
}

#[test]
fn schema_config_writes_patch() {
    let m = SchemaConfigManager::new("/tmp/xime", "wubi86").unwrap();
    assert_eq!(m.custom_file_name(), "wubi86.custom.yaml");
    assert_eq!(m.schema_file_name(), "wubi86.schema.yaml");
    let text = m.set_int(None, "speller/max_code_length", 4);
    assert!(text.ends_with("patch:\n  speller_max_code_length: 4\n"));
    let again = m.set_int(Some(&text), "speller/max_code_length", 5);
    assert!(again.ends_with("patch:\n  speller_max_code_length: 5\n"));
    assert!(m.save().is_ok());
}

#[test]
fn schema_settings_are_written_in_order() {
    let mut config = SchemaConfig::default();
    config.speller.max_code_length = Some(4);
    config.speller.auto_clear = Some(String::new());
    config.translator.enable_sentence = Some(false);
    config.tradition.opencc_config = Some("s2t.json".to_string());
    let settings = schema_config_settings(&config);
    let keys: Vec<&str> = settings.iter().map(|s| s.key.as_str()).collect();
    assert_eq!(
        keys,
        vec!["speller/max_code_length", "translator/enable_sentence", "tradition/opencc_config"]
    );
    let m = SchemaConfigManager::new("/tmp/xime", "wubi86").unwrap();
    let text = m.apply_settings(None, &settings).unwrap();
    assert!(text.ends_with(
        "patch:\n  tradition_opencc_config: s2t.json\n  translator_enable_sentence: false\n  speller_max_code_length: 4\n"
    ));
    assert_eq!(m.apply_settings(None, &Vec::new()), None);
}

#[test]
fn smart_suggestion_settings_written() {
    let s = SmartSuggestionState {
        enabled: true,
        suggestion_count: 6,
        prefer_common_words: false,
        record_user_frequency: true,
        auto_adjust_frequency: false,
        learning_threshold: 2,
    };
    let settings = s.settings();
    assert_eq!(settings.len(), 6);
    let m = RimeConfigManager::new("/tmp").unwrap();
    let text = m.apply_settings(Some("patch:\n"), &settings).unwrap();
    assert!(text.contains("    smart_suggestion_suggestion_count: 6\n"));
    assert!(text.contains("    smart_suggestion_enabled: true\n"));
    assert!(!SmartSuggestionState::default().enabled);
}

#[test]
fn merge_prefers_custom() {
    let mut base = SchemaConfig::default();
    base.speller.max_code_length = Some(4);
    base.speller.auto_select = Some(true);
    let mut custom = SchemaConfig::default();
    custom.speller.max_code_length = Some(5);
    let merged = merge_configs(Some(base), Some(custom));
    assert_eq!(merged.speller.max_code_length, Some(5));
    assert_eq!(merged.speller.auto_select, Some(true));
    let none = merge_configs(None, None);
    assert_eq!(none.speller.max_code_length, None);
}

#[test]
fn colors() {
    assert_eq!(default_primary_color(), 0x8F73E2);
    assert_eq!(parse_color_text("0x1A73E8"), Ok(0x1A73E8));
    assert_eq!(parse_color_text(" #c62828 "), Ok(0xC62828));
    assert_eq!(parse_color_text("4342338"), Ok(4342338));
    assert_eq!(parse_color_text("+42"), Ok(42));
    assert_eq!(parse_color_text("0xZZ").unwrap_err(), "Invalid hex color");
    assert_eq!(parse_color_text("#").unwrap_err(), "Invalid hex color");
    assert_eq!(parse_color_text("blue").unwrap_err(), "Invalid color number");
    assert_eq!(parse_color_text("4294967296").unwrap_err(), "Invalid color number");
    assert_eq!(color_from_number(Some(0x1_0000_0042)), 0x42);
    assert_eq!(color_from_number(None), 0x8F73E2);
    let scheme = ColorScheme {
        name: "ocean".to_string(),
        primary_color: 0x1A73E8,
    };
    assert_eq!(xime::daemon_config::get_primary_color(Some(&scheme)), (0x1A, 0x73, 0xE8));
    assert_eq!(ColorScheme::default().primary_color, 0);
}

#[test]
fn hotkey_and_roots() {
    assert_eq!(default_show_last_key_root(), "Ctrl");
    assert_eq!(HotkeyConfig::default().show_last_key_root, "");
    let mut roots = WubiRootConfig::default();
    roots.g = "王龶五一戋".to_string();
    assert_eq!(roots.get_root_for_key('g').as_deref(), Some("王龶五一戋"));
    assert_eq!(roots.get_root_for_key('G').as_deref(), Some("王龶五一戋"));
    assert_eq!(roots.get_root_for_key('f'), None);
    assert_eq!(roots.get_root_for_key('z'), None);
    assert_eq!(roots.get_root_for_key('1'), None);
}

#[test]
fn settings_helpers() {
    let schemes = vec![
        ("ocean_blue".to_string(), "海洋蔚蓝".to_string(), 0x1A73E8u32),
        ("slate_gray".to_string(), "石板灰".to_string(), 0x424242u32),
    ];
    assert_eq!(primary_color_in(&schemes, "slate_gray"), 0x424242);
    assert_eq!(primary_color_in(&schemes, "unknown"), 0x8F73E2);
    assert_eq!(deploy_message(&Ok(()), true), "部署成功！配置已重载。");
    assert_eq!(
        deploy_message(&Ok(()), false),
        "部署成功！(服务器未运行，配置将在下次启动时生效)"
    );
    assert_eq!(deploy_message(&Err("x".to_string()), true), "部署失败: x");
}

#[test]
fn setting_twice_equals_setting_once() {
    let m = RimeConfigManager::new("/tmp").unwrap();
    let base = "style:\n  x: 1\npatch:\n  other: y\n";
    let twice = m.set_string(Some(&m.set_int(Some(base), "style/font_size", 12)), "style/font_size", "20");
    let once = m.set_string(Some(base), "style/font_size", "20");
    assert_eq!(twice, once);
    let s = SchemaConfigManager::new("/tmp", "wubi86").unwrap();
    let twice = s.set_bool(Some(&s.set_bool(None, "a/b", true)), "a/b", false);
    assert_eq!(twice, s.set_bool(None, "a/b", false));
    let first = m.set_string(Some(base), "style/font_size", "12\r");
    let twice = m.set_string(Some(&first), "style/font_size", "20");
    assert_eq!(twice, once);
    let same = m.set_string(Some(&once), "style/font_size", "20");
    assert_eq!(same, once);
}

#[test]
fn empty_schema_list_selects_nothing() {
    let manager = SchemaManager::new("/tmp").unwrap();
    let text = manager.set_schema_list(&vec![]);
    assert_eq!(manager.get_selected_schema(&FileContent::Text(text)), None);
    let text = manager.set_schema_list(&vec!["luna_pinyin".to_string()]);
    assert_eq!(
        manager.get_selected_schema(&FileContent::Text(text)).as_deref(),
        Some("luna_pinyin")
    );
}

#[test]
fn seeded_config_files() {
    let both = xime::rime_config::ensure_config_files(false, false);
    assert_eq!(both.len(), 2);
    assert_eq!(both[0].0, "default.custom.yaml");
    assert!(both[0].1.ends_with("  schema_list:\n    - schema: wubi86_jidian\n"));
    assert_eq!(both[1].0, "xime.yaml");
    assert!(both[1].1.contains("color_scheme: lavender_purple\n"));
    let only_style = xime::rime_config::ensure_config_files(true, false);
    assert_eq!(only_style.len(), 1);
    assert_eq!(only_style[0].0, "xime.yaml");
    assert!(xime::rime_config::ensure_config_files(true, true).is_empty());
    assert_eq!(xime::rime_config::get_shared_data_dir(), "/usr/share/rime-data");
    assert_eq!(xime::rime_config::get_xime_data_dir(), "/usr/share/xime/rime-data");
}
