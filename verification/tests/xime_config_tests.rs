use xime::daemon_config::{ColorScheme, WubiRootConfig};
use xime::smart_suggestion::SmartSuggestionConfig;
use xime::xime_config::{RadicalsHotkeys, WubiRadicalsConfig, XimeConfig};

#[derive(Debug, Clone, PartialEq)]
struct Style {
    color_scheme: String,
    font_size: f32,
}

fn default_style() -> Style {
    Style { color_scheme: "lavender_purple".to_string(), font_size: 14.0 }
}

fn radicals(schema: &str, g: &str) -> (String, WubiRootConfig) {
    let mut r = WubiRootConfig::default();
    r.g = g.to_string();
    (schema.to_string(), r)
}

fn scheme(name: &str, label: &str, color: u32) -> (String, ColorScheme) {
    (name.to_string(), ColorScheme { name: label.to_string(), primary_color: color })
}

/// The settings shipped with the input method.
fn system() -> XimeConfig<Style> {
    XimeConfig {
        wubi_radicals: WubiRadicalsConfig {
            hotkeys: RadicalsHotkeys { show_key: "Ctrl".to_string() },
            schema_radicals: vec![radicals("wubi86", "王龶五一戋")],
        },
        style: default_style(),
        color_schemes: vec![
            scheme("lavender_purple", "薰衣草紫", 0x8F73E2),
            scheme("ocean_blue", "海洋蔚蓝", 0x1A73E8),
        ],
        smart_suggestion: SmartSuggestionConfig::default(),
    }
}

/// A user file that sets only `style`.
fn user_with_style(style: Style) -> XimeConfig<Style> {
    XimeConfig {
        wubi_radicals: WubiRadicalsConfig {
            hotkeys: RadicalsHotkeys { show_key: "Ctrl".to_string() },
            schema_radicals: vec![],
        },
        style,
        color_schemes: vec![],
        smart_suggestion: SmartSuggestionConfig::default(),
    }
}

fn radicals_of<'a>(c: &'a XimeConfig<Style>, schema: &str) -> Option<&'a WubiRootConfig> {
    c.wubi_radicals.schema_radicals.iter().find(|(k, _)| k == schema).map(|(_, v)| v)
}

fn scheme_of<'a>(c: &'a XimeConfig<Style>, name: &str) -> Option<&'a ColorScheme> {
    c.color_schemes.iter().find(|(k, _)| k == name).map(|(_, v)| v)
}

#[test]
fn test_merge_configs_full_user() {
    let mut smart = SmartSuggestionConfig::default();
    smart.enabled = true;
    let user = XimeConfig {
        wubi_radicals: WubiRadicalsConfig {
            hotkeys: RadicalsHotkeys { show_key: "Shift".to_string() },
            schema_radicals: vec![radicals("wubi86", "用户字根")],
        },
        style: Style { color_scheme: "ocean_blue".to_string(), font_size: 18.0 },
        color_schemes: vec![scheme("ocean_blue", "海洋蔚蓝", 0x1A73E8)],
        smart_suggestion: smart,
    };
    let merged = XimeConfig::merge_configs(system(), Some(user));

    assert_eq!(merged.wubi_radicals.hotkeys.show_key, "Shift");
    let radicals = radicals_of(&merged, "wubi86").unwrap();
    assert_eq!(radicals.g, "用户字根");
    assert_eq!(merged.style.color_scheme, "ocean_blue");
    assert_eq!(merged.style.font_size, 18.0);
    assert!(!merged.color_schemes.is_empty());
    assert!(merged.smart_suggestion.enabled);
}

#[test]
fn test_merge_configs_empty_wubi_root() {
    let user = user_with_style(Style { color_scheme: "coral_red".to_string(), font_size: 14.0 });
    let merged = XimeConfig::merge_configs(system(), Some(user));

    let radicals = radicals_of(&merged, "wubi86").unwrap();
    assert_eq!(radicals.g, "王龶五一戋");
    assert_eq!(merged.style.color_scheme, "coral_red");
}

#[test]
fn test_merge_configs_empty_color_schemes() {
    let user = user_with_style(Style { color_scheme: "lavender_purple".to_string(), font_size: 16.0 });
    let merged = XimeConfig::merge_configs(system(), Some(user));

    assert!(!merged.color_schemes.is_empty());
    assert_eq!(scheme_of(&merged, "lavender_purple").unwrap().primary_color, 0x8F73E2);
}

#[test]
fn test_merge_configs_no_user() {
    let merged = XimeConfig::merge_configs(system(), None);

    assert_eq!(merged.wubi_radicals.hotkeys.show_key, "Ctrl");
    let radicals = radicals_of(&merged, "wubi86").unwrap();
    assert_eq!(radicals.g, "王龶五一戋");
    assert_eq!(merged.style.color_scheme, "lavender_purple");
}

#[test]
fn merge_configs_user_style_wins_even_when_it_is_the_default() {
    let mut user = user_with_style(default_style());
    user.smart_suggestion.suggestion_count = 9;
    let mut sys = system();
    sys.style.font_size = 20.0;
    let merged = XimeConfig::merge_configs(sys, Some(user));
    assert_eq!(merged.style, default_style());
    assert_eq!(merged.smart_suggestion.suggestion_count, 9);
    assert_eq!(merged.color_schemes.len(), 2);
    assert_eq!(merged.wubi_radicals.schema_radicals.len(), 1);
}

#[test]
fn primary_color_of_named_scheme() {
    let schemes = vec![
        scheme("slate_gray", "石板灰", 0x424242),
        scheme("ocean_blue", "海洋蔚蓝", 0x1A73E8),
        scheme("ocean_blue", "second", 0x000001),
    ];
    assert_eq!(xime::daemon_config::primary_color_named(&schemes, "slate_gray"), (0x42, 0x42, 0x42));
    assert_eq!(xime::daemon_config::primary_color_named(&schemes, "ocean_blue"), (0x1A, 0x73, 0xE8));
    assert_eq!(xime::daemon_config::primary_color_named(&schemes, "unknown_scheme"), (0x8F, 0x73, 0xE2));
    assert_eq!(xime::daemon_config::primary_color_named(&vec![], "ocean_blue"), (0x8F, 0x73, 0xE2));
}
