use xime::daemon::InputMode;
use xime::pairing::{
    bearer_token, check_write_hash, clipboard_read, generate_pair_code, pair_code_from, pair_confirm,
    pair_request, pair_status, write_accepted, ApiError, ClipboardState, PairSession, PairStatus,
    PairStore, PairedDevice,
};
use xime::predict::{check_model_exists, model_name_or_default, PredictError, Vocab};
use xime::tray::{about_to_show, menu_action_for, visibility_change, DBusMenu, MenuAction, StatusNotifierItem};
use xime::webdav::{
    build_upload_url, download_reply, probe_reply, request_failure_message, require_valid,
    unpack_reply, upload_reply, WebdavConfig,
};

const VOCAB: &str = r#"{"[PAD]":0,"[BOS]":1,"[EOS]":2,"[UNK]":3,"你":4,"好":5,"世":6,"界":7,"吗":8,"很":9,"棒":10}"#;

#[test]
fn test_vocab_load() {
    let vocab = Vocab::from_json(VOCAB).unwrap();
    assert_eq!(vocab.vocab_size(), 11);
    assert_eq!(vocab.bos_id(), 1);
    assert_eq!(vocab.eos_id(), 2);
    assert_eq!(vocab.unk_id(), 3);
    assert_eq!(vocab.pad_id(), 0);
}

#[test]
fn test_vocab_encode_basic() {
    let vocab = Vocab::from_json(VOCAB).unwrap();
    assert_eq!(vocab.encode("你好"), vec![1, 4, 5]);
}

#[test]
fn test_vocab_encode_with_unknown() {
    let vocab = Vocab::from_json(VOCAB).unwrap();
    assert_eq!(vocab.encode("你好X"), vec![1, 4, 5, 3]);
}

#[test]
fn test_vocab_encode_empty() {
    let vocab = Vocab::from_json(VOCAB).unwrap();
    assert_eq!(vocab.encode(""), vec![1]);
}

#[test]
fn test_vocab_decode() {
    let vocab = Vocab::from_json(VOCAB).unwrap();
    assert_eq!(vocab.decode(0), Some("[PAD]"));
    assert_eq!(vocab.decode(1), Some("[BOS]"));
    assert_eq!(vocab.decode(4), Some("你"));
    assert_eq!(vocab.decode(5), Some("好"));
    assert_eq!(vocab.decode(99), None);
}

#[test]
fn test_vocab_is_special() {
    let vocab = Vocab::from_json(VOCAB).unwrap();
    assert!(vocab.is_special(0));
    assert!(vocab.is_special(1));
    assert!(vocab.is_special(2));
    assert!(vocab.is_special(3));
    assert!(!vocab.is_special(4));
    assert!(!vocab.is_special(5));
}

#[test]
fn test_vocab_roundtrip() {
    let vocab = Vocab::from_json(VOCAB).unwrap();
    let text = "世界很棒";
    let chars: Vec<char> = text.chars().collect();
    let encoded = vocab.encode(text);
    assert_eq!(encoded.len(), chars.len() + 1);
    for (i, id) in encoded.iter().skip(1).enumerate() {
        let decoded = vocab.decode(*id);
        assert!(decoded.is_some());
        assert_eq!(decoded.unwrap().chars().next(), Some(chars[i]));
    }
}

#[test]
fn test_vocab_invalid_json() {
    match Vocab::from_json("not json") {
        Err(PredictError::VocabLoad(msg)) => assert!(!msg.is_empty()),
        _ => panic!("expected a vocabulary error"),
    }
}

#[test]
fn vocab_special_defaults() {
    let vocab = Vocab::from_json(r#"{"a":7}"#).unwrap();
    assert_eq!((vocab.bos_id(), vocab.eos_id(), vocab.unk_id(), vocab.pad_id()), (1, 2, 3, 0));
    assert_eq!(vocab.encode("ab"), vec![1, 7, 3]);
}

#[test]
fn vocab_top_tokens_skip_specials() {
    let vocab = Vocab::from_json(VOCAB).unwrap();
    let ranked = vec![1usize, 5, 99, 4, 3, 6];
    let top = vocab.top_tokens(&ranked, 5);
    let got: Vec<(usize, &str)> = top.iter().map(|(r, t)| (*r, t.as_str())).collect();
    assert_eq!(got, vec![(1, "好"), (3, "你")]);
    assert!(vocab.top_tokens(&ranked, 0).is_empty());
}

#[test]
fn predict_error_messages() {
    assert_eq!(
        PredictError::ModelNotFound("/m/model.onnx".to_string()).message(),
        "Model not found: /m/model.onnx"
    );
    assert_eq!(PredictError::Ort("x".to_string()).message(), "ORT error: x");
    assert_eq!(model_name_or_default(None), "predictive-text-small");
    assert_eq!(model_name_or_default(Some("custom-model")), "custom-model");
    assert!(check_model_exists(true, true, true));
    assert!(!check_model_exists(true, false, true));
}

const NOW: i64 = 1_700_000_000_000;

#[test]
fn pair_codes() {
    assert_eq!(pair_code_from(0, 0, 7), "000007");
    assert_eq!(pair_code_from(0xFF, 0xFF, 0xFF), "777215");
    assert_eq!(pair_code_from(0x0F, 0x42, 0x40), "000000");
    let code = generate_pair_code();
    assert_eq!(code.len(), 6);
    assert!(code.chars().all(|c| c.is_ascii_digit()));
}

#[test]
fn pair_session_times() {
    let s = PairSession::new("d1".into(), "phone".into(), "123456".into(), NOW);
    assert_eq!(s.expires_at, NOW + 600_000);
    assert_eq!(s.status, PairStatus::Pending);
    assert!(!s.is_expired(NOW));
    assert_eq!(s.expires_in_seconds(NOW), 600);
    assert_eq!(s.expires_in_seconds(NOW + 599_999), 0);
    assert!(s.is_expired(NOW + 600_001));
    assert_eq!(s.expires_in_seconds(NOW + 700_000), 0);
}

#[test]
fn pairing_flow() {
    let mut store = PairStore::load_from("/tmp/pairs", Vec::new());
    let (code, secs) = pair_request(&mut store, "d1".into(), "phone".into(), NOW).unwrap();
    assert_eq!(secs, 600);
    assert_eq!(pair_status(&mut store, &code, NOW + 1000).unwrap(), (PairStatus::Pending, 599));
    pair_confirm(&mut store, &code, true, "tok".into(), NOW + 2000).unwrap();
    assert!(store.is_device_paired("d1"));
    let d = store.get_device_by_token("tok").unwrap();
    assert_eq!(d.device_name, "phone");
    assert_eq!(d.paired_at, NOW + 2000);
    assert!(matches!(pair_status(&mut store, &code, NOW), Err(ApiError::PairCodeNotFound)));
    assert!(matches!(
        pair_request(&mut store, "d1".into(), "phone".into(), NOW),
        Err(ApiError::PairAlreadyConfirmed)
    ));
    match pair_request(&mut store, "".into(), "x".into(), NOW) {
        Err(ApiError::InvalidRequest(m)) => assert_eq!(m, "device_id and device_name required"),
        _ => panic!("expected an invalid request"),
    }
    assert!(store.update_last_seen("d1", NOW + 5000));
    assert_eq!(store.get_device("d1").unwrap().last_seen, NOW + 5000);
    assert!(!store.update_last_seen("nobody", NOW));
    store.remove_device("d1");
    assert!(!store.is_device_paired("d1"));
    assert!(store.list_devices().is_empty());
}

#[test]
fn pairing_refusals() {
    let mut store = PairStore::load_from("/tmp/pairs", Vec::new());
    let s = store.create_session_with_code("d2".into(), "tablet".into(), "000123".into(), NOW);
    assert_eq!(s.code, "000123");
    assert!(matches!(
        store.confirm_session("000123", "t".into(), NOW + 600_001),
        Err(ApiError::PairCodeExpired)
    ));
    assert!(store.get_session("000123").is_some());
    assert!(matches!(
        pair_status(&mut store, "000123", NOW + 600_001),
        Err(ApiError::PairCodeExpired)
    ));
    assert!(store.get_session("000123").is_none());
    store.create_session_with_code("d2".into(), "tablet".into(), "000124".into(), NOW);
    pair_confirm(&mut store, "000124", false, String::new(), NOW).unwrap();
    assert!(store.get_session("000124").is_none());
    assert!(!store.is_device_paired("d2"));
    assert!(matches!(store.reject_session("000124"), Err(ApiError::PairCodeNotFound)));
}

#[test]
fn pair_store_load_keeps_last_device() {
    let dev = |id: &str, name: &str| PairedDevice {
        device_id: id.into(),
        device_name: name.into(),
        token: format!("t-{name}"),
        paired_at: 1,
        last_seen: 2,
        auto_approve: false,
    };
    let store = PairStore::load_from("/cfg", vec![dev("a", "one"), dev("b", "two"), dev("a", "three")]);
    assert_eq!(store.list_devices().len(), 2);
    assert_eq!(store.get_device("a").unwrap().device_name, "three");
    assert_eq!(store.config_dir(), "/cfg");
    assert!(store.get_device_by_token("t-one").is_none());
}

#[test]
fn clipboard_decisions() {
    let (content, hash) = clipboard_read("hello".into(), "h1".into(), Some("h1"));
    assert_eq!((content.as_str(), hash.as_str()), ("", "h1"));
    let (content, _) = clipboard_read("hello".into(), "h1".into(), Some("h0"));
    assert_eq!(content, "hello");
    assert!(check_write_hash("a", "a").is_ok());
    assert!(matches!(check_write_hash("a", "b"), Err(ApiError::HashMismatch)));
    assert!(!write_accepted("same", "same"));
    assert!(write_accepted("old", "new"));
    assert_eq!(bearer_token(Some("Bearer abc")).unwrap(), "abc");
    assert!(matches!(bearer_token(Some("Basic abc")), Err(ApiError::InvalidToken)));
    assert!(matches!(bearer_token(None), Err(ApiError::InvalidToken)));
    let state = ClipboardState::new("x".into(), "hx".into());
    assert_eq!((state.content.as_str(), state.hash.as_str()), ("x", "hx"));
}

#[test]
fn test_default_primary_color() {
    let sni = StatusNotifierItem::new();
    let color = sni.get_primary_color();
    assert_eq!(color, (0x8F, 0x73, 0xE2));
}

#[test]
fn test_set_primary_color() {
    let mut sni = StatusNotifierItem::new();
    sni.set_primary_color((0x1A, 0x73, 0xE8));
    let color = sni.get_primary_color();
    assert_eq!(color, (26, 115, 232));
    sni.set_primary_color((0xC6, 0x28, 0x28));
    let color = sni.get_primary_color();
    assert_eq!(color, (198, 40, 40));
}

#[test]
fn test_primary_color_coral_red() {
    let mut sni = StatusNotifierItem::new();
    sni.set_primary_color((0xC6, 0x28, 0x28));
    assert_eq!(sni.get_primary_color(), (198, 40, 40));
}

#[test]
fn sni_test_primary_color_ocean_blue() {
    let mut sni = StatusNotifierItem::new();
    sni.set_primary_color((0x1A, 0x73, 0xE8));
    assert_eq!(sni.get_primary_color(), (26, 115, 232));
}

#[test]
fn test_primary_color_slate_gray() {
    let mut sni = StatusNotifierItem::new();
    sni.set_primary_color((0x42, 0x42, 0x42));
    assert_eq!(sni.get_primary_color(), (66, 66, 66));
}

#[test]
fn test_input_mode_default() {
    let sni = StatusNotifierItem::new();
    assert_eq!(sni.get_mode(), InputMode::Chinese);
}

#[test]
fn test_input_mode_toggle() {
    let mut sni = StatusNotifierItem::new();
    assert_eq!(sni.get_mode(), InputMode::Chinese);
    sni.set_mode(InputMode::English);
    assert_eq!(sni.get_mode(), InputMode::English);
    sni.set_mode(InputMode::Chinese);
    assert_eq!(sni.get_mode(), InputMode::Chinese);
}

#[test]
fn test_visibility() {
    let mut sni = StatusNotifierItem::new();
    assert!(!sni.is_visible());
    sni.set_visible(true);
    assert!(sni.is_visible());
    sni.set_visible(false);
    assert!(!sni.is_visible());
}

#[test]
fn tray_faces_and_menu() {
    let mut sni = StatusNotifierItem::new();
    assert_eq!(sni.icon_face(), ("ZH".to_string(), (0x8F, 0x73, 0xE2)));
    assert_eq!(sni.tooltip_title(), "中文输入");
    assert_eq!(sni.status(), "Passive");
    sni.toggle_mode();
    assert_eq!(sni.icon_face(), ("EN".to_string(), (0x60, 0x60, 0x60)));
    assert_eq!(sni.tooltip_title(), "英文输入");
    sni.toggle_mode();
    assert_eq!(sni.get_mode(), InputMode::Chinese);
    assert_eq!(menu_action_for(1, "clicked"), Some(MenuAction::ToggleMode));
    assert_eq!(menu_action_for(3, "clicked"), Some(MenuAction::Deploy));
    assert_eq!(menu_action_for(4, "clicked"), Some(MenuAction::Exit));
    assert_eq!(menu_action_for(2, "clicked"), None);
    assert_eq!(menu_action_for(1, "hovered"), None);
    assert!(about_to_show(0));
    assert!(!about_to_show(1));
    assert_eq!(visibility_change(false, true).as_deref(), Some("Active"));
    assert_eq!(visibility_change(true, false).as_deref(), Some("Passive"));
    assert_eq!(visibility_change(true, true), None);
}

fn webdav(url: &str, user: &str, dir: &str) -> WebdavConfig {
    WebdavConfig {
        url: url.into(),
        username: user.into(),
        password: "p".into(),
        remote_dir: dir.into(),
    }
}

#[test]
fn webdav_urls_and_replies() {
    let c = webdav("https://dav.example.com/remote/", "me", "/xime/");
    assert_eq!(build_upload_url(&c), "https://dav.example.com/remote/xime/xime-backup.tar.gz");
    assert!(require_valid(&c).is_ok());
    assert_eq!(
        require_valid(&webdav("", "me", "x")).unwrap_err(),
        "请先填写 WebDAV 服务器地址和用户名"
    );
    assert_eq!(probe_reply(207, "207 Multi-Status").unwrap(), "✅ 连接成功！服务器可达，认证通过。");
    assert_eq!(probe_reply(401, "401 Unauthorized").unwrap_err(), "❌ 认证失败：用户名或密码错误 (HTTP 401)");
    assert!(probe_reply(404, "404 Not Found").is_ok());
    assert_eq!(
        probe_reply(503, "503 Service Unavailable").unwrap_err(),
        "❌ 服务器错误 (HTTP 503 Service Unavailable)"
    );
    assert_eq!(probe_reply(302, "302 Found").unwrap_err(), "❌ 未预期的响应 (HTTP 302 Found)");
    assert_eq!(upload_reply(201, "201 Created", "").unwrap(), "上传成功！");
    assert_eq!(
        upload_reply(507, "507 Insufficient Storage", "quota\nmore").unwrap_err(),
        "上传失败 (HTTP 507 Insufficient Storage): quota"
    );
    assert!(download_reply(200, "200 OK").is_ok());
    assert_eq!(download_reply(404, "404 Not Found").unwrap_err(), "服务器上未找到备份文件");
    assert_eq!(
        download_reply(403, "403 Forbidden").unwrap_err(),
        "下载失败 (HTTP 403 Forbidden): 请检查服务器地址和凭据"
    );
    assert_eq!(unpack_reply(true, "").unwrap(), "下载成功！配置已更新。");
    assert_eq!(unpack_reply(false, "bad").unwrap_err(), "解压配置失败: bad");
    assert_eq!(request_failure_message(true, false, "x"), "连接超时：服务器无响应，请检查地址是否正确");
    assert_eq!(request_failure_message(false, true, "refused"), "无法连接：refused");
}

#[test]
fn tray_menu_layout_root() {
    let menu = DBusMenu::new();
    let (revision, root) = menu.get_layout(0);
    assert_eq!(revision, 0);
    assert_eq!(root.id, 0);
    assert_eq!(root.properties, vec![("children-display".to_string(), "submenu".to_string())]);
    let ids: Vec<i32> = root.children.iter().map(|c| c.id).collect();
    assert_eq!(ids, vec![1, 2, 3, 4]);
    assert_eq!(root.children[0].properties[0], ("label".to_string(), "切换中英文".to_string()));
    assert_eq!(root.children[1].properties, vec![("type".to_string(), "separator".to_string())]);
    assert_eq!(root.children[3].properties[1], ("icon-name".to_string(), "application-exit".to_string()));
    assert!(root.children.iter().all(|c| c.children.is_empty()));
}

#[test]
fn tray_menu_layout_other_node() {
    let menu = DBusMenu::new();
    let (_, node) = menu.get_layout(3);
    assert_eq!(node.id, 3);
    assert!(node.properties.is_empty());
    assert!(node.children.is_empty());
    assert_eq!(menu.version(), 2);
    assert_eq!(menu.status(), "normal");
    assert!(menu.get_group_properties(&vec![1, 3]).is_empty());
}
