use tzibbur_bridge::bridge::callbacks::disconnected_text;
use tzibbur_bridge::bridge::commands::not_sent_text;
use tzibbur_bridge::bridge::config::{next_startup_pause, Config, Settings, KEY_REQUIRED};
use tzibbur_bridge::bridge::dialogue::{
    connected_text, not_renamed_text, renamed_text, setup_failed_text,
};
use tzibbur_bridge::bridge::outbound::permission_request;
use tzibbur_bridge::constants::DEFAULT_BASE_URL;
use tzibbur_bridge::error::AppError;
use tzibbur_bridge::http::{
    command_reply, decode_send_reply, decode_sent_message, fill_page, fill_sent, fill_start, fill_verify, group_path,
    legal_document, member_path, next_groups_cursor, next_members_cursor, ClientBuilder,
    DeviceInfo, SendReply,
};
use tzibbur_bridge::json::{as_bool, Json};
use tzibbur_bridge::models::{
    CategoriesEnvelope, GroupDto, LegalDocKey, ListParams, MemberDto, MessageDto, MessagesPage,
    Page, Permission, StartAuthRequest, ThemeOverride, VerifyAuthRequest,
};
use tzibbur_bridge::outbox::{step_after_failure, Step};
use tzibbur_bridge::session::AppPrefs;
use tzibbur_bridge::socket::SyncState;
use tzibbur_bridge::validation::{validate_display_name, TextValidation};

const NOW: i64 = 1_700_000_000_000;

fn text(s: &str) -> Json {
    Json::Str(s.to_owned())
}

fn object(members: Vec<(&str, Json)>) -> Json {
    Json::Obj(members.into_iter().map(|(k, v)| (k.to_owned(), v)).collect())
}

fn sent(raw: &Json) -> Result<MessageDto, AppError> {
    decode_sent_message(raw, "raw", "g", "c", "hello")
}

fn message(group_id: Option<&str>, client_message_id: Option<&str>) -> MessageDto {
    MessageDto {
        id: "m".into(),
        group_id: group_id.map(str::to_owned),
        seq: 3,
        sender_id: "u".into(),
        body: "hi".into(),
        client_message_id: client_message_id.map(str::to_owned),
        created_at: None,
        extra: vec![],
    }
}

#[test]
fn sign_in_requests_name_the_device() {
    let d = DeviceInfo::android();
    let r = fill_start(
        StartAuthRequest {
            phone: "+12127365000".into(),
            display_name: None,
            region: None,
            platform: None,
            device_model: Some("Mine".into()),
        },
        &d,
    );
    assert_eq!(r.platform.as_deref(), Some("android"));
    assert_eq!(r.device_model.as_deref(), Some("Mine"));
    assert_eq!(r.phone, "+12127365000");
    let r = fill_verify(
        VerifyAuthRequest {
            challenge_id: "ch".into(),
            code: "123456".into(),
            phone: "+12127365000".into(),
            display_name: None,
            region: None,
            platform: Some("ios".into()),
            device_model: None,
        },
        &d,
    );
    assert_eq!(r.platform.as_deref(), Some("ios"));
    assert_eq!(r.device_model.as_deref(), Some("Pixel 7"));
    assert_eq!((r.challenge_id.as_str(), r.code.as_str()), ("ch", "123456"));
}

#[test]
fn a_client_is_built_step_by_step() {
    let b = ClientBuilder::new();
    assert_eq!(b.base_url, DEFAULT_BASE_URL);
    assert_eq!(b.user_agent, "Tzibbur/0.1.0 (Android 14; Pixel 7) Ktor");
    let b = b
        .base_url("http://x".into())
        .token("t".into())
        .timeout(5_000)
        .device(DeviceInfo {
            platform: "ios".into(),
            model: "iPhone".into(),
            app_version: "2".into(),
            os_version: "17".into(),
        });
    assert_eq!(b.user_agent, "Tzibbur/2 (iOS 17; iPhone) Ktor");
    assert_eq!((b.base_url.as_str(), b.timeout_ms), ("http://x", 5_000));
    assert_eq!(b.token.as_deref(), Some("t"));
    let b = b.user_agent("own/1".into()).device(DeviceInfo::android());
    assert_eq!(b.user_agent, "own/1");
}

#[test]
fn legal_replies_are_read() {
    let flat = object(vec![("markdown", text("# T")), ("checksum", text("a"))]);
    let d = legal_document(&flat, LegalDocKey::Terms).unwrap();
    assert_eq!(d.key.as_deref(), Some("terms"));
    assert_eq!((d.markdown.as_str(), d.checksum.as_str()), ("# T", "a"));
    let wrapped = object(vec![(
        "document",
        object(vec![
            ("key", text("own")),
            ("markdown", text("# P")),
            ("checksum", text("b")),
        ]),
    )]);
    let d = legal_document(&wrapped, LegalDocKey::Privacy).unwrap();
    assert_eq!(d.key.as_deref(), Some("own"));
    assert_eq!(d.markdown, "# P");
    assert!(matches!(
        legal_document(&Json::Null, LegalDocKey::Terms),
        Err(AppError::Json(_))
    ));
    let beside = object(vec![
        ("document", object(vec![("text", text("T"))])),
        ("version", Json::Int(3)),
    ]);
    assert_eq!(legal_document(&beside, LegalDocKey::Terms).unwrap().markdown, "T");
    let empty = object(vec![("document", Json::Null), ("text", text("x"))]);
    assert!(matches!(
        legal_document(&empty, LegalDocKey::Terms),
        Err(AppError::Json(m)) if m == "legal reply holds no document"
    ));
}

#[test]
fn cursors_lead_to_the_next_page() {
    let groups = |next: Option<&str>, has_more: bool| Page::<GroupDto> {
        items: vec![],
        next_cursor: next.map(str::to_owned),
        has_more,
    };
    assert_eq!(next_groups_cursor(&groups(None, true)), None);
    assert_eq!(next_groups_cursor(&groups(Some(""), false)), None);
    assert_eq!(next_groups_cursor(&groups(Some(""), true)).as_deref(), Some(""));
    assert_eq!(next_groups_cursor(&groups(Some("c"), false)).as_deref(), Some("c"));
    let members = |next: Option<&str>| Page::<MemberDto> {
        items: vec![],
        next_cursor: next.map(str::to_owned),
        has_more: true,
    };
    assert_eq!(next_members_cursor(&members(None)), None);
    assert_eq!(next_members_cursor(&members(Some(""))), None);
    assert_eq!(next_members_cursor(&members(Some("c"))).as_deref(), Some("c"));
    let p = ListParams::limit(50).with_cursor("c".into());
    assert_eq!((p.limit, p.cursor.as_deref()), (Some(50), Some("c")));
}

#[test]
fn replies_to_a_send_come_in_many_shapes() {
    let core = || {
        object(vec![
            ("id", text("m1")),
            ("seq", Json::Int(7)),
            ("senderId", text("u")),
            ("body", text("hello")),
        ])
    };
    for raw in [
        core(),
        object(vec![("message", core())]),
        object(vec![("data", core())]),
        object(vec![("data", object(vec![("item", core())]))]),
        object(vec![("result", core())]),
    ] {
        let m = sent(&raw).unwrap();
        assert_eq!((m.id.as_str(), m.seq, m.body.as_str()), ("m1", 7, "hello"));
    }
    // An id and a seq are enough.
    let m = sent(&object(vec![
        ("messageId", text("m2")),
        ("seq", Json::Int(8)),
    ]))
    .unwrap();
    assert_eq!((m.id.as_str(), m.seq, m.body.as_str()), ("m2", 8, "hello"));
    assert_eq!(m.group_id.as_deref(), Some("g"));
    assert_eq!(m.client_message_id.as_deref(), Some("c"));
    match sent(&object(vec![("ok", Json::Bool(true)), ("n", Json::Int(1))])) {
        Err(AppError::Json(m)) => assert_eq!(m, "send reply has no usable message (keys: ok,n)"),
        other => panic!("{other:?}"),
    }
    match sent(&Json::Null) {
        Err(AppError::Json(m)) => assert_eq!(m, "send reply has no usable message (keys: raw)"),
        other => panic!("{other:?}"),
    }
}

#[test]
fn commands_are_answered_not_stored() {
    let raw = object(vec![(
        "command",
        object(vec![
            ("name", text("help")),
            ("ok", Json::Bool(true)),
            ("code", text("done")),
            ("text", text("Commands: #add")),
        ]),
    )]);
    match decode_send_reply(&raw, "raw", "g", "c", "#help") {
        Ok(SendReply::Command(c)) => {
            assert_eq!((c.name.as_str(), c.ok, c.code.as_str()), ("help", true, "done"));
            assert_eq!(c.text, "Commands: #add");
        }
        other => panic!("{other:?}"),
    }
    let silent = object(vec![("command", object(vec![("name", text("help"))]))]);
    assert!(command_reply(&silent).is_none());
    assert!(decode_send_reply(&silent, "raw", "g", "c", "#help").is_err());
    let message = object(vec![
        ("message", object(vec![("messageId", text("m")), ("seq", Json::Int(4))])),
        ("duplicate", Json::Bool(false)),
    ]);
    match decode_send_reply(&message, "raw", "g", "c", "hello") {
        Ok(SendReply::Message(m)) => {
            assert_eq!((m.id.as_str(), m.seq, m.body.as_str()), ("m", 4, "hello"));
            assert_eq!(m.client_message_id.as_deref(), Some("c"));
        }
        other => panic!("{other:?}"),
    }
}

#[test]
fn messages_learn_where_they_belong() {
    let m = fill_sent(message(None, None), "g", "c");
    assert_eq!(m.group_id.as_deref(), Some("g"));
    assert_eq!(m.client_message_id.as_deref(), Some("c"));
    let m = fill_sent(message(Some("h"), Some("d")), "g", "c");
    assert_eq!(m.group_id.as_deref(), Some("h"));
    assert_eq!(m.client_message_id.as_deref(), Some("d"));
    let page = fill_page(
        MessagesPage {
            items: vec![message(None, None), message(Some("h"), None)],
            next_after_seq: Some(3),
            next_before_seq: None,
            extra: vec![],
        },
        &"g".to_owned(),
    );
    let groups: Vec<_> = page.items.iter().map(|m| m.group_id.clone().unwrap()).collect();
    assert_eq!(groups, vec!["g", "h"]);
    assert_eq!((page.next_after_seq, page.next_before_seq), (Some(3), None));
}

#[test]
fn paths_name_groups_and_members() {
    assert_eq!(group_path("g1"), "v1/groups/g1");
    assert_eq!(member_path("g1", "u1"), "v1/groups/g1/members/u1");
}

#[test]
fn permissions_are_asked_for_one_by_one() {
    let r = permission_request(Some(Permission::admins()), None);
    assert!(r.name.is_none() && r.who_can_add_members.is_none());
    assert_eq!(r.who_can_post.unwrap().as_str(), "admins");
}

#[test]
fn small_helpers_answer_plainly() {
    assert_eq!(as_bool(&Json::Bool(true)), Some(true));
    assert_eq!(as_bool(&Json::Int(1)), None);
    assert!(matches!(step_after_failure(NOW), Step::WaitUntil(t) if t > NOW));
    assert!(SyncState::Connected.is_connected());
    assert!(!SyncState::Connecting.is_connected());
    assert_eq!(
        validate_display_name(" Ann ").into_valid().as_deref(),
        Some("Ann")
    );
    assert!(TextValidation::Empty.into_valid().is_none());
}

#[test]
fn preferences_of_the_app_are_kept_apart() {
    let mut p = AppPrefs::default();
    p.set_theme_override(ThemeOverride::Dark);
    assert!(p.categories.is_none());
    p.set_categories(CategoriesEnvelope {
        categories: vec!["shul".into()],
        fetched_at: "now".into(),
    });
    assert!(matches!(p.theme_override, ThemeOverride::Dark));
    assert_eq!(p.categories.unwrap().categories, vec!["shul"]);
}

#[test]
fn news_is_escaped() {
    assert_eq!(not_sent_text("a<b"), "Not sent: a&lt;b.");
    assert_eq!(
        connected_text("A & B"),
        "Connected as <b>A &amp; B</b>. Your groups are being added as topics."
    );
    assert_eq!(setup_failed_text("<x>"), "Signed in, but setup failed: &lt;x&gt;");
    assert_eq!(renamed_text("N<"), "Renamed to <b>N&lt;</b>.");
    assert_eq!(not_renamed_text("no"), "Could not rename: no");
    assert_eq!(
        disconnected_text(true),
        "Disconnected and erased. Your Tzibbur account is untouched."
    );
    assert_eq!(
        disconnected_text(false),
        "Disconnected. Your topics stay; /reconnect restores them."
    );
}

fn key(byte: u8, n: usize) -> String {
    base64::Engine::encode(&base64::engine::general_purpose::STANDARD, vec![byte; n])
}

fn settings() -> Settings {
    Settings {
        teloxide_token: Some("tok".into()),
        telegram_bot_token: None,
        directus_url: None,
        directus_token: Some(" dt ".into()),
        master_key: Some(key(3, 32)),
        master_key_previous: None,
        tzibbur_base_url: None,
        data_dir: None,
        public_url: None,
        listen: None,
        history_import: None,
        collection_prefix: None,
        default_region: None,
        admin_telegram_id: None,
        platform: None,
        device_model: None,
        app_version: None,
        os_version: None,
    }
}

#[test]
fn the_configuration_has_defaults() {
    let c = Config::from_env(&settings()).unwrap();
    assert_eq!(c.telegram_token, "tok");
    assert_eq!(c.directus_url, "http://localhost:8055/");
    assert_eq!(c.directus_token, "dt");
    assert_eq!(c.master_key, [3u8; 32]);
    assert!(c.master_key_previous.is_none() && c.public_url.is_none());
    assert_eq!(c.tzibbur_base_url, DEFAULT_BASE_URL);
    assert_eq!(c.data_dir, "./data");
    assert_eq!(c.listen, "0.0.0.0:8080");
    assert_eq!(c.history_import, 20);
    assert_eq!(c.collection_prefix, "bridge_");
    assert_eq!(c.default_region, "US");
    assert_eq!(c.admin_telegram_id, None);
    assert_eq!(c.device.user_agent(), "Tzibbur/0.1.0 (Android 14; Pixel 7) Ktor");
}

#[test]
fn the_configuration_is_read_from_the_environment() {
    let mut s = settings();
    s.teloxide_token = Some("  ".into());
    s.telegram_bot_token = Some("other".into());
    s.master_key_previous = Some(key(4, 32));
    s.public_url = Some("https://example.org/tz".into());
    s.history_import = Some("5".into());
    s.admin_telegram_id = Some("-77".into());
    s.platform = Some("ios".into());
    let c = Config::from_env(&s).unwrap();
    assert_eq!(c.telegram_token, "other");
    assert_eq!(c.master_key_previous, Some([4u8; 32]));
    assert_eq!(c.public_url.as_deref(), Some("https://example.org/tz"));
    assert_eq!(c.history_import, 5);
    assert_eq!(c.admin_telegram_id, Some(-77));
    assert_eq!(c.device.platform, "ios");
    s.history_import = Some("many".into());
    s.admin_telegram_id = Some("me".into());
    let c = Config::from_env(&s).unwrap();
    assert_eq!((c.history_import, c.admin_telegram_id), (20, None));
}

#[test]
fn faults_of_the_configuration_are_named() {
    let fault = |change: &dyn Fn(&mut Settings)| {
        let mut s = settings();
        change(&mut s);
        Config::from_env(&s).unwrap_err()
    };
    assert_eq!(fault(&|s| s.teloxide_token = None), "TELOXIDE_TOKEN is required");
    assert_eq!(
        fault(&|s| s.directus_url = Some("nowhere".into())),
        "DIRECTUS_URL is not a valid URL"
    );
    assert_eq!(fault(&|s| s.directus_token = None), "DIRECTUS_TOKEN is required");
    assert_eq!(fault(&|s| s.master_key = None), KEY_REQUIRED);
    assert_eq!(
        fault(&|s| s.master_key = Some("***".into())),
        "BRIDGE_MASTER_KEY is not valid base64"
    );
    assert_eq!(
        fault(&|s| s.master_key = Some(key(3, 31))),
        "BRIDGE_MASTER_KEY must decode to exactly 32 bytes, got 31"
    );
    assert_eq!(
        fault(&|s| s.master_key_previous = Some(key(3, 33))),
        "BRIDGE_MASTER_KEY_PREVIOUS must decode to exactly 32 bytes, got 33"
    );
    assert_eq!(
        fault(&|s| s.public_url = Some("nowhere".into())),
        "BRIDGE_PUBLIC_URL is not a valid URL"
    );
}

#[test]
fn pauses_at_the_start_double() {
    assert_eq!(next_startup_pause(500), 1_000);
    assert_eq!(next_startup_pause(8_000), 15_000);
    assert_eq!(next_startup_pause(u64::MAX), 15_000);
}
