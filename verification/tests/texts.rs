use tzibbur_bridge::bridge::format::{chunk, escape_html};
use tzibbur_bridge::bridge::i18n::{lookup, t, Lang};
use tzibbur_bridge::models::{Permission, Role};
use tzibbur_bridge::socket::is_update_required_code;
use tzibbur_bridge::validation::{
    composer_info, extract_otp, is_valid_otp, looks_like_e164, normalize_phone,
    validate_display_name, validate_group_name, validate_message_body, TextValidation,
};

#[test]
fn escapes() {
    assert_eq!(escape_html("a<b>&c"), "a&lt;b&gt;&amp;c");
    assert_eq!(chunk("abcdef", 4), vec!["abcd", "ef"]);
}

#[test]
fn placeholders_match_across_languages() {
    let args = ["§", "§", "§"];
    for key in ["joined", "too_long_ask", "welcome", "connect_choice", "find_none"] {
        let count = |lang: Lang| t(lang, key, &args).matches('§').count();
        assert_eq!(count(Lang::He), count(Lang::En), "{key}");
        assert_eq!(count(Lang::Yi), count(Lang::En), "{key}");
    }
    assert_eq!(t(Lang::Yi, "too_long_ask", &args).matches('§').count(), 3);
    assert_eq!(lookup(Lang::En, "joined"), Some("{} joined"));
    assert_eq!(lookup(Lang::He, "no_such_key"), None);
}

#[test]
fn fills_placeholders_and_falls_back() {
    assert_eq!(t(Lang::En, "joined", &["Dov"]), "Dov joined");
    assert_eq!(t(Lang::He, "joined", &["דב"]), "דב הצטרף/ה");
    assert_eq!(t(Lang::Yi, "no_such_key", &[]), "no_such_key");
    assert_eq!(Lang::from_code(Some("he-IL")), Lang::He);
    assert_eq!(Lang::from_code(Some("yi")), Lang::Yi);
    assert_eq!(Lang::from_code(None), Lang::En);
    assert_eq!(
        t(Lang::En, "too_long_ask", &["1500", "1000", "2"]),
        "This message is 1500 characters; Tzibbur allows 1000. Send it as 2 parts?"
    );
}

#[test]
fn permission_allows() {
    assert!(Permission::everyone().allows(Role::Member));
    assert!(!Permission::admins().allows(Role::Member));
    assert!(Permission::admins().allows(Role::Admin));
    assert!(!Permission::from("admins_only".to_string()).allows(Role::Member));
}

#[test]
fn text_limits() {
    assert_eq!(
        validate_display_name("  Bob "),
        TextValidation::Valid { text: "Bob".into() }
    );
    assert_eq!(validate_display_name("   "), TextValidation::Empty);
    let long = "é".repeat(65);
    assert_eq!(
        validate_display_name(&long),
        TextValidation::TooLong { count: 65, max: 64 }
    );
    assert!(validate_group_name(&"x".repeat(100)).is_valid());
    assert!(!validate_message_body(&"x".repeat(2001)).is_valid());
    assert!(composer_info(&"x".repeat(1800)).is_near_limit);
}

#[test]
fn phones_and_otp() {
    assert!(looks_like_e164("+972501234567"));
    assert!(!looks_like_e164("0501234567"));
    assert_eq!(normalize_phone("+972 (50) 123-4567"), "+972501234567");
    assert_eq!(normalize_phone("00972501234567"), "+972501234567");
    assert!(is_valid_otp("123456"));
    assert!(!is_valid_otp("12345"));
    assert_eq!(
        extract_otp("Your Tzibbur code is 482913. Expires in 5 min (id 12)").as_deref(),
        Some("482913")
    );
}

#[test]
fn update_required_codes() {
    assert!(is_update_required_code("update-required"));
    assert!(is_update_required_code("version-mismatch"));
    assert!(!is_update_required_code("bad-frame"));
}
