use tzibbur_bridge::bridge::config::{app_path, parse_key, webhook_path};
use tzibbur_bridge::bridge::directus::{collection_names, list_query, schema, Filter};
use tzibbur_bridge::bridge::forward::{
    bookmark, forwards, history_of, leftovers, plan_forward, Search,
};
use tzibbur_bridge::bridge::i18n::Lang;
use tzibbur_bridge::bridge::outbound::{
    big_enough, explain_rejection, forget_confirmed, forget_member, mark_conversation_read,
    reason_needs_group, rejection_reason, retry_all, send_text, unlock, waiting_for_members,
};
use tzibbur_bridge::bridge::phone::{decide, parse_phone, parse_phone_list, NumberFacts};
use tzibbur_bridge::bridge::records::{
    Account, AccountStatus, BridgeUser, Conversation, Direction, MessageMap,
};
use tzibbur_bridge::bridge::runtime::{
    code_only, conversation_needed, handle_sync_event, is_missing_thread, left, legacy_topic,
    reconcile_topic, recover, recreated_title, retired_topics, topic_title,
    warn_topics_unavailable, Action, AlertLog, Recovery,
};
use tzibbur_bridge::bridge::store::{
    account_for_user, account_status, advance_forwarded_seq, by_topic, in_chat, inbound,
    set_setting,
};
use tzibbur_bridge::crypto::{KeyRing, SessionCipher};
use tzibbur_bridge::json::Json;
use tzibbur_bridge::models::{
    GroupDto, GroupKind, GroupLimits, MessageDto, MessagesPage, Permission, Role,
};
use tzibbur_bridge::session::{AesGcmCipher, SecretCipher};
use tzibbur_bridge::socket::SyncState;
use tzibbur_bridge::store::{
    GroupEntity, LocalStore, MemberEntity, MessageEntity, OutboxEntity, OutboxState,
};
use tzibbur_bridge::sync::{AckVia, SyncEvent};
use tzibbur_bridge::wire::Wire;

fn conversation() -> Conversation {
    Conversation {
        id: 42,
        account: 7,
        group_id: "g".into(),
        telegram_chat_id: "100".into(),
        telegram_topic_id: Some("9".into()),
        name: Some("G".into()),
        kind: Some("standard".into()),
        last_forwarded_seq: 2,
        closed: false,
    }
}

fn group() -> GroupEntity {
    GroupEntity {
        id: "g".into(),
        name: "G".into(),
        category: "c".into(),
        kind: GroupKind::Standard,
        who_can_post: Permission::everyone(),
        who_can_add_members: Permission::admins(),
        created_by: None,
        created_at: 1,
        my_role: Role::Member,
        member_count: 2,
        muted: false,
        last_activity_at: None,
        last_message_preview: None,
        is_deleted: false,
        last_read_seq: 0,
    }
}

fn live(member_count: i64, min: Option<u32>) -> GroupDto {
    GroupDto {
        id: "g".into(),
        name: "G".into(),
        category: "c".into(),
        kind: GroupKind::Standard,
        who_can_post: Permission::everyone(),
        who_can_add_members: Permission::admins(),
        created_by: None,
        created_at: None,
        my_role: Role::Member,
        member_count,
        muted: false,
        last_activity_at: None,
        last_message_preview: None,
        last_read_seq: None,
        unread_count: None,
        latest_seq: None,
        limits: Some(GroupLimits {
            member_cap: None,
            message_max_length: None,
            min_members_to_post: min,
        }),
        extra: vec![],
    }
}

fn msg(id: &str, seq: i64, body: &str) -> MessageEntity {
    MessageEntity {
        id: id.into(),
        group_id: "g".into(),
        seq,
        sender_id: "u".into(),
        body: body.into(),
        client_message_id: None,
        created_at: seq,
    }
}

fn dto(id: &str, seq: i64, body: &str) -> MessageDto {
    MessageDto {
        id: id.into(),
        group_id: Some("g".into()),
        seq,
        sender_id: "u".into(),
        body: body.into(),
        client_message_id: None,
        created_at: None,
        extra: vec![],
    }
}

fn member(uid: &str, name: &str) -> MemberEntity {
    MemberEntity {
        group_id: "g".into(),
        user_id: uid.into(),
        display_name: name.into(),
        phone_e164: None,
        role: Role::Member,
        joined_at: 1,
    }
}

fn map(telegram: Option<&str>) -> MessageMap {
    MessageMap {
        id: 1,
        conversation: 42,
        tzibbur_message_id: None,
        client_message_id: Some("c".into()),
        seq: None,
        telegram_message_id: telegram.map(str::to_owned),
        direction: Direction::Out,
    }
}

fn user(settings: Option<Vec<(String, Json)>>) -> BridgeUser {
    BridgeUser {
        id: 3,
        telegram_user_id: "100".into(),
        telegram_username: None,
        telegram_first_name: None,
        settings,
    }
}

#[test]
fn international_and_defaults() {
    assert_eq!(
        parse_phone("+972 50-123-4567", "US").unwrap(),
        "+972501234567"
    );
    assert_eq!(parse_phone("0501234567", "IL").unwrap(), "+972501234567");
    assert_eq!(
        parse_phone("00972501234567", "US").unwrap(),
        "+972501234567"
    );
    assert_eq!(
        parse_phone("+44 20 7946 0958", "US").unwrap(),
        "+442079460958"
    );
    assert!(parse_phone("hello", "US").is_err());
    assert!(parse_phone("12345", "US").is_err());
    // Plausible, though no such number is assigned: still accepted.
    assert_eq!(
        parse_phone("+972 50-123-4567", "US").unwrap(),
        "+972501234567"
    );
}

#[test]
fn us_number_formats() {
    for s in [
        "2127365000",
        "212-736-5000",
        "(212) 736 5000",
        "1 212 736 5000",
        "12127365000",
        "+12127365000",
    ] {
        assert_eq!(parse_phone(s, "US").unwrap(), "+12127365000", "{s}");
    }
}

#[test]
fn lists() {
    let (ok, bad) = parse_phone_list("212-736-5000, +972501234567; 212 736 5000\nabc", "US");
    assert_eq!(ok, vec!["+12127365000", "+972501234567", "+12127365000"]);
    assert_eq!(bad, vec!["abc"]);
    let (ok, _) = parse_phone_list("+12127365000 +12127365000", "US");
    assert_eq!(ok.len(), 2);
}

#[test]
fn valid_readings_win_over_plausible_ones() {
    let facts = |valid: bool, national: u64, e164: &str| {
        Some(NumberFacts {
            valid,
            national,
            e164: e164.into(),
        })
    };
    let r = decide(
        &vec![facts(false, 5550100123, "+1"), facts(true, 5, "+2")],
        "US",
    );
    assert_eq!(r.unwrap(), "+2");
    let r = decide(&vec![None, facts(false, 5550100123, "+1")], "US");
    assert_eq!(r.unwrap(), "+1");
    assert!(decide(&vec![None, facts(false, 5, "+1")], "US").is_err());
}

#[test]
fn events_become_actions() {
    let lang = Lang::En;
    let c = Some(conversation());
    let acts = handle_sync_event(
        SyncEvent::GroupChanged {
            group_id: "g".into(),
        },
        &c,
        Some("New & better"),
        "me",
        lang,
    );
    assert_eq!(acts.len(), 2);
    match &acts[0] {
        Action::Rename {
            conversation: 42,
            topic: Some(9),
            title,
            name,
        } => assert_eq!((title.as_str(), name.as_str()), ("New & better", "New & better")),
        other => panic!("{other:?}"),
    }
    match &acts[1] {
        Action::Note {
            conversation: 42,
            html,
        } => assert_eq!(html, "<i>Group renamed to “New &amp; better”</i>"),
        other => panic!("{other:?}"),
    }
    let same = SyncEvent::GroupChanged {
        group_id: "g".into(),
    };
    assert!(handle_sync_event(same, &c, Some("G"), "me", lang).is_empty());
}

#[test]
fn members_come_and_go() {
    let lang = Lang::En;
    let c = Some(conversation());
    let added = || SyncEvent::MemberAdded {
        group_id: "g".into(),
        member: member("u", "Ann"),
    };
    let acts = handle_sync_event(added(), &c, None, "me", lang);
    assert!(matches!(&acts[0], Action::Note { html, .. } if html == "<i>Ann joined</i>"));
    assert!(matches!(&acts[1], Action::RetryTooSmall { group_id } if group_id == "g"));
    let acts = handle_sync_event(added(), &c, None, "u", lang);
    assert!(matches!(&acts[0], Action::Note { html, .. } if html == "<i>You joined</i>"));
    let gone = |uid: &str| SyncEvent::MemberRemoved {
        group_id: "g".into(),
        user_id: uid.into(),
        display_name: None,
    };
    let acts = handle_sync_event(gone("u"), &c, None, "me", lang);
    assert!(matches!(&acts[0], Action::Note { html, .. } if html == "<i>A member left</i>"));
    assert!(handle_sync_event(gone("me"), &c, None, "me", lang).is_empty());
    assert!(conversation_needed(&gone("me"), "me").is_none());
    assert_eq!(
        conversation_needed(&gone("u"), "me").as_deref(),
        Some("g")
    );
    let role = |uid: &str, role: Role| SyncEvent::RoleChanged {
        group_id: "g".into(),
        user_id: uid.into(),
        role,
        display_name: Some("Ann".into()),
    };
    let acts = handle_sync_event(role("u", Role::Admin), &c, None, "me", lang);
    assert!(matches!(&acts[0], Action::Note { html, .. } if html == "<i>Ann is now an admin</i>"));
    let acts = handle_sync_event(role("me", Role::Member), &c, None, "me", lang);
    assert!(
        matches!(&acts[0], Action::Note { html, .. } if html == "<i>You are no longer an admin</i>")
    );
}

#[test]
fn groups_close_once() {
    let gone = || SyncEvent::GroupDeleted {
        group_id: "g".into(),
    };
    let mut c = conversation();
    let acts = handle_sync_event(gone(), &Some(c.clone()), None, "me", Lang::En);
    assert_eq!(acts.len(), 3);
    assert!(matches!(acts[1], Action::CloseTopic { topic: 9 }));
    assert!(matches!(
        acts[2],
        Action::SetClosed {
            conversation: 42,
            closed: true
        }
    ));
    c.closed = true;
    assert!(handle_sync_event(gone(), &Some(c), None, "me", Lang::En).is_empty());
    assert!(handle_sync_event(gone(), &None, None, "me", Lang::En).is_empty());
    assert!(matches!(
        &left(&conversation())[0],
        Action::Note { html, .. } if html == "<i>You left this group.</i>"
    ));
}

#[test]
fn news_without_a_conversation() {
    assert!(matches!(
        handle_sync_event(SyncEvent::CaughtUp, &None, None, "me", Lang::En)[0],
        Action::Reconcile
    ));
    let joined = SyncEvent::GroupJoined {
        group_id: "g".into(),
    };
    assert!(matches!(
        handle_sync_event(joined, &None, None, "me", Lang::En)[0],
        Action::Reconcile
    ));
    let fresh = SyncEvent::NewMessages {
        group_id: "g".into(),
        messages: vec![msg("a", 1, "x")],
    };
    assert!(matches!(
        &handle_sync_event(fresh, &None, None, "me", Lang::En)[0],
        Action::Forward { messages, .. } if messages.len() == 1
    ));
    assert!(matches!(
        handle_sync_event(SyncEvent::UpdateRequired, &None, None, "me", Lang::En)[0],
        Action::Notify { .. }
    ));
    let state = SyncEvent::StateChanged(SyncState::Idle);
    assert!(handle_sync_event(state, &None, None, "me", Lang::En).is_empty());
}

#[test]
fn topics_are_reconciled() {
    assert!(matches!(
        &reconcile_topic(&None, "g", "G")[0],
        Action::Create { group_id } if group_id == "g"
    ));
    assert!(reconcile_topic(&Some(conversation()), "g", "G").is_empty());
    let mut c = conversation();
    c.closed = true;
    let acts = reconcile_topic(&Some(c), "g", "H");
    assert!(matches!(&acts[0], Action::Rename { name, .. } if name == "H"));
    assert!(matches!(
        acts[1],
        Action::SetClosed {
            conversation: 42,
            closed: false
        }
    ));
    assert!(matches!(acts[2], Action::ReopenTopic { topic: 9 }));
}

#[test]
fn missing_topics_are_recovered() {
    assert!(is_missing_thread(
        "Bad Request: message THREAD not found"
    ));
    assert!(is_missing_thread("TOPIC_DELETED"));
    assert!(!is_missing_thread("Too Many Requests"));
    let e = "topic not found";
    assert_eq!(recover(e, Some(1), Some(2)), Recovery::Reuse(2));
    assert_eq!(recover(e, Some(1), Some(1)), Recovery::Recreate);
    assert_eq!(recover(e, Some(1), None), Recovery::Recreate);
    assert_eq!(recover(e, None, Some(2)), Recovery::GiveUp);
    assert_eq!(recover("flood", Some(1), Some(2)), Recovery::GiveUp);
    assert_eq!(topic_title(&"é".repeat(200)).chars().count(), 128);
    let mut c = conversation();
    c.name = None;
    assert_eq!(recreated_title(&c), "Tzibbur");
    assert_eq!(retired_topics(&vec![conversation(), c]), vec![(100, 9), (100, 9)]);
}

#[test]
fn alerts_are_spaced() {
    let mut log = AlertLog::new();
    assert_eq!(
        log.alert("sync", "down", 0).as_deref(),
        Some("Alert [sync]: down")
    );
    assert!(log.alert("sync", "down", 1_799_999).is_none());
    assert!(log.alert("send", "down", 10).is_some());
    assert!(log.alert("sync", "down", 1_800_000).is_some());
    let mut warned = false;
    assert!(warn_topics_unavailable(&mut warned, false)
        .unwrap()
        .starts_with("ℹ️ Topic mode is not enabled"));
    assert!(warn_topics_unavailable(&mut warned, true).is_none());
    assert_eq!(code_only("send: secret text"), "send");
    assert_eq!(code_only(&"x".repeat(100)).len(), 80);
}

#[test]
fn forwarding_is_planned() {
    let messages = vec![
        msg("d", 5, "last"),
        msg("a", 2, "old"),
        msg("b", 3, "first"),
        msg("b", 3, "first"),
        msg("c", 4, ""),
        msg("k", 6, "known"),
    ];
    let members = vec![member("u", "Ann")];
    let plan = plan_forward(
        &conversation(),
        messages,
        &vec!["k".into()],
        &members,
        "me",
        true,
    );
    let ids: Vec<&str> = plan
        .deliveries
        .iter()
        .map(|d| d.message_id.as_str())
        .collect();
    assert_eq!(ids, vec!["b", "d"]);
    assert_eq!(plan.advance, Some(5));
    assert_eq!(plan.deliveries[0].parts, vec!["<b>Ann</b>\nfirst"]);
    let again = plan_forward(
        &conversation(),
        vec![msg("d", 5, "last"), msg("b", 3, "first")],
        &vec!["b".into(), "d".into()],
        &members,
        "me",
        true,
    );
    assert!(again.deliveries.is_empty());
    assert!(again.advance.is_none());
}

#[test]
fn flat_chats_are_tagged() {
    let mut c = conversation();
    c.telegram_topic_id = None;
    let long = "y".repeat(5000);
    let plan = plan_forward(
        &c,
        vec![msg("a", 3, "hi"), msg("b", 4, &long)],
        &vec![],
        &vec![],
        "u",
        true,
    );
    assert_eq!(
        plan.deliveries[0].parts,
        vec!["<i>[G]</i>\n<b>You</b>\nhi"]
    );
    assert_eq!(plan.deliveries[1].parts.len(), 2);
    assert_eq!(plan.deliveries[1].parts[0].chars().count(), 4000);
}

#[test]
fn history_and_leftovers() {
    let thread = || vec![msg("a", 2, "x"), msg("b", 3, ""), msg("c", 4, "y")];
    let h = history_of(thread());
    assert_eq!(h.len(), 2);
    assert_eq!(bookmark(&h, Some(4)), 1);
    assert_eq!(bookmark(&vec![], Some(4)), 4);
    assert_eq!(bookmark(&vec![], None), 0);
    assert_eq!(bookmark(&vec![msg("z", 0, "x")], None), 0);
    let rest = leftovers(&conversation(), thread());
    assert_eq!(rest.len(), 1);
    assert_eq!(rest[0].id, "c");
    let mut c = conversation();
    c.closed = true;
    assert!(leftovers(&c, thread()).is_empty());
    assert!(forwards(&Some(group()), false, true));
    assert!(!forwards(&Some(group()), false, false));
    assert!(!forwards(&None, true, true));
}

#[test]
fn searching_goes_back_page_by_page() {
    let mut s = Search::start("HeLLo", 150);
    let q = s.next_query().unwrap();
    assert_eq!((q.before_seq, q.limit), (None, Some(100)));
    s.take_page(MessagesPage {
        items: (0..100)
            .map(|i| dto("x", 200 - i, if i == 3 { "say HELLO" } else { "no" }))
            .collect(),
        next_after_seq: None,
        next_before_seq: None,
        extra: vec![],
    });
    let q = s.next_query().unwrap();
    assert_eq!((q.before_seq, q.limit), (Some(101), Some(50)));
    s.take_page(MessagesPage {
        items: vec![dto("y", 50, "ÉHello"), dto("z", 40, "no")],
        next_after_seq: None,
        next_before_seq: Some(101),
        extra: vec![],
    });
    assert!(s.next_query().is_none());
    let hits: Vec<i64> = s.finish().iter().map(|m| m.seq).collect();
    assert_eq!(hits, vec![50, 197]);
    let mut empty = Search::start("x", 10);
    empty.take_page(MessagesPage {
        items: vec![],
        next_after_seq: None,
        next_before_seq: Some(3),
        extra: vec![],
    });
    assert!(empty.next_query().is_none());
}

#[test]
fn sending_checks_the_group() {
    let mut s = LocalStore::new();
    let c = conversation();
    assert_eq!(
        send_text(&mut s, &c, "x", 1).unwrap_err(),
        "group not in local cache yet; try again in a moment"
    );
    s.upsert_group(&group());
    let row = send_text(&mut s, &c, " hi ", 1).unwrap();
    assert_eq!(row.body, "hi");
    assert_eq!(s.pending_count(), 1);
    assert_eq!(
        send_text(&mut s, &c, &"x".repeat(1001), 1).unwrap_err(),
        "message is 1001 characters; Tzibbur allows 1000"
    );
    assert_eq!(
        send_text(&mut s, &c, "  ", 1).unwrap_err(),
        "invalid input: message body is empty"
    );
    s.apply_group_updated("g", None, Some(&Permission::admins()), None);
    assert_eq!(
        send_text(&mut s, &c, "x", 1).unwrap_err(),
        "only admins can post in this group"
    );
    let mut system = group();
    system.kind = GroupKind::System;
    s.upsert_group(&system);
    assert_eq!(
        send_text(&mut s, &c, "x", 1).unwrap_err(),
        "this is a system announcement thread; nobody can post here"
    );
}

#[test]
fn rejections_are_explained() {
    assert_eq!(
        rejection_reason("group-too-small", &Some(live(1, Some(4)))),
        "Tzibbur needs 4 members before anyone can post; the group has 1. Add members with /add and this message will be sent automatically"
    );
    assert_eq!(
        rejection_reason("forbidden", &Some(live(1, Some(3)))),
        "this group needs at least 3 members before anyone can post (it has 1). Add members with /add"
    );
    assert_eq!(
        rejection_reason("forbidden", &Some(live(5, Some(3)))),
        "you are not allowed to post in this group"
    );
    assert_eq!(
        rejection_reason("not-found", &None),
        "the group no longer exists"
    );
    assert_eq!(
        rejection_reason("invalid-message", &None),
        "the message was rejected (max 1000 characters)"
    );
    assert_eq!(
        rejection_reason("unauthorized", &None),
        "your session expired; use /reconnect"
    );
    assert_eq!(
        rejection_reason("posting-not-allowed", &Some(live(1, Some(3)))),
        "this group needs at least 3 members before anyone can post (it has 1). Add members with /add"
    );
    assert_eq!(
        rejection_reason("admin-required", &None),
        "you are not allowed to post in this group"
    );
    assert_eq!(
        rejection_reason("device-blocked", &None),
        "your session expired; use /reconnect"
    );
    assert!(reason_needs_group("posting-not-allowed"));
    assert_eq!(rejection_reason("odd", &None), "error `odd`");
    assert!(reason_needs_group("forbidden"));
    assert!(!reason_needs_group("odd"));
    let e = explain_rejection(
        "odd",
        &Some(map(Some("55"))),
        &Some(conversation()),
        &None,
        Lang::En,
    )
    .unwrap();
    assert_eq!(e.text, "Not sent: error `odd`.");
    assert_eq!((e.reply_to, e.topic), (55, Some(9)));
    assert!(explain_rejection(
        "odd",
        &Some(map(None)),
        &Some(conversation()),
        &None,
        Lang::En
    )
    .is_none());
}

#[test]
fn small_groups_are_retried() {
    let mut s = LocalStore::new();
    s.upsert_group(&group());
    let e = OutboxEntity::new("g", "x", 1);
    s.insert_outbox(&e);
    s.mark_rejected(&e.client_message_id, "group-too-small");
    let ids = waiting_for_members(&s.failed_outbox("g"));
    assert_eq!(ids, vec![e.client_message_id.clone()]);
    assert!(!big_enough(&live(2, Some(3))));
    assert!(big_enough(&live(3, Some(3))));
    assert!(big_enough(&live(0, None)));
    retry_all(&mut s, &ids, 9);
    let row = s.get_outbox(&e.client_message_id).unwrap();
    assert!(row.error_code.is_none());
    assert_eq!(row.next_attempt_at, Some(9));
}

#[test]
fn confirmed_texts_are_forgotten() {
    let mut s = LocalStore::new();
    s.upsert_group(&group());
    s.insert_messages(&vec![msg("a", 1, "x"), msg("b", 5, "y")]);
    let e = OutboxEntity::new("g", "secret", 1);
    s.insert_outbox(&e);
    s.confirm_sent(&e.client_message_id, &"b".to_string(), 5);
    forget_confirmed(&mut s, &dto("b", 5, "y"));
    let row = s.get_outbox(&e.client_message_id).unwrap();
    assert_eq!((row.body.as_str(), row.state), ("", OutboxState::Confirmed));
    assert!(s.thread("g", 10).iter().all(|m| m.body.is_empty()));
}

#[test]
fn reading_marks_the_newest() {
    let mut s = LocalStore::new();
    s.upsert_group(&group());
    let c = conversation();
    assert_eq!(
        mark_conversation_read(&mut s, SyncState::Connected, &c),
        (0, AckVia::Nothing)
    );
    s.insert_messages(&vec![msg("a", 4, "x")]);
    assert_eq!(
        mark_conversation_read(&mut s, SyncState::Connected, &c),
        (4, AckVia::Socket)
    );
    assert_eq!(s.get_group("g").unwrap().last_read_seq, 4);
    assert_eq!(
        mark_conversation_read(&mut s, SyncState::Idle, &c).1,
        AckVia::Rest
    );
    s.upsert_member(&member("u", "Ann")).unwrap();
    forget_member(&mut s, "g", "u");
    assert!(s.members("g").is_empty());
    assert_eq!(s.get_group("g").unwrap().member_count, 1);
}

fn stored(session: Option<String>) -> Account {
    Account {
        id: 7,
        user: 1,
        tzibbur_user_id: "tz-1".into(),
        phone_e164: None,
        display_name: None,
        device_id: None,
        encrypted_session: session,
        status: AccountStatus::Connected,
        settings: None,
    }
}

#[test]
fn sessions_are_unlocked_and_rewrapped() {
    let old = SessionCipher::new(KeyRing::new([1u8; 32], None));
    let new = SessionCipher::new(KeyRing::new([2u8; 32], Some([1u8; 32])));
    let blob = old.encrypt("tok", "tz-1").unwrap();
    let u = unlock(&old, &stored(Some(blob.clone()))).unwrap();
    assert_eq!(u.token, "tok");
    assert!(u.fresh.is_none());
    let u = unlock(&new, &stored(Some(blob))).unwrap();
    let again = unlock(&new, &stored(u.fresh)).unwrap();
    assert_eq!(again.token, "tok");
    assert!(again.fresh.is_none());
    assert_eq!(
        unlock(&new, &stored(None)).unwrap_err(),
        "account 7 has no session"
    );
    assert_eq!(
        unlock(&new, &stored(Some("v2:***".into()))).unwrap_err(),
        "session base64"
    );
    let wire = AesGcmCipher::new([9u8; 32]).encrypt(b"x").unwrap();
    let foreign = base64::Engine::encode(&base64::engine::general_purpose::STANDARD, wire);
    assert!(unlock(&new, &stored(Some(foreign))).is_err());
}

#[test]
fn rows_are_read_leniently() {
    let j = Json::Obj(vec![
        ("id".into(), Json::Str("42".into())),
        (
            "account".into(),
            Json::Obj(vec![("id".into(), Json::Int(7))]),
        ),
        ("group_id".into(), Json::Str("g".into())),
        ("telegram_chat_id".into(), Json::Str("100".into())),
        ("telegram_topic_id".into(), Json::Str("9".into())),
        ("name".into(), Json::Null),
        ("kind".into(), Json::Null),
        ("last_forwarded_seq".into(), Json::Str("12".into())),
        ("closed".into(), Json::Int(1)),
    ]);
    let c = Conversation::from_json(&j).unwrap();
    assert_eq!((c.id, c.account, c.last_forwarded_seq), (42, 7, 12));
    assert!(c.closed);
    assert_eq!(c.topic_id(), Some(9));
    assert!(in_chat(&c, 100));
    assert!(Conversation::from_json(&Json::Null).is_none());
}

#[test]
fn preferences_are_merged() {
    let s = set_setting(None, "lang", Json::Str("he".into()));
    let u = user(Some(s));
    assert_eq!(u.lang().as_deref(), Some("he"));
    let s = set_setting(u.settings, "home_topic_id", Json::Str("5".into()));
    let u = user(Some(s));
    assert_eq!(u.lang().as_deref(), Some("he"));
    assert_eq!(legacy_topic(&u), Some((100, 5)));
    assert_eq!(legacy_topic(&user(None)), None);
}

#[test]
fn the_best_account_is_used() {
    let account = |id: i64, status: AccountStatus| {
        let mut a = stored(None);
        a.id = id;
        a.status = status;
        a
    };
    let list = vec![
        account(1, AccountStatus::Disconnected),
        account(2, AccountStatus::ReauthRequired),
        account(3, AccountStatus::Connected),
    ];
    assert_eq!(account_for_user(list).unwrap().id, 3);
    assert!(account_for_user(vec![]).is_none());
}

fn member_of<'a>(j: &'a Json, key: &str) -> Option<&'a Json> {
    match j {
        Json::Obj(o) => o.iter().find(|(k, _)| k == key).map(|(_, v)| v),
        _ => None,
    }
}

#[test]
fn leaving_erases_the_session() {
    let j = account_status(AccountStatus::Disconnected, "now");
    assert!(matches!(
        member_of(&j, "encrypted_session"),
        Some(Json::Null)
    ));
    let j = account_status(AccountStatus::Connected, "now");
    assert!(member_of(&j, "encrypted_session").is_none());
    assert!(advance_forwarded_seq(&conversation(), 2, "now").is_none());
    assert!(advance_forwarded_seq(&conversation(), 3, "now").is_some());
    let j = inbound(42, "m", 3, 55, "now");
    assert!(matches!(member_of(&j, "seq"), Some(Json::Int(3))));
    assert!(member_of(&j, "body").is_none());
}

#[test]
fn collections_bear_the_prefix() {
    let names = collection_names("bridge_");
    assert_eq!(names.users, "bridge_users");
    assert_eq!(names.messages, "bridge_messages");
    assert_eq!(schema("b_").len(), 4);
    let q = list_query(&vec![Filter::eq("status", "connected")], Some(1), None);
    assert!(q.iter().any(|(k, v)| k == "limit" && v == "1"));
    assert!(q
        .iter()
        .any(|(k, v)| k == "filter[status][_eq]" && v == "connected"));
    assert_eq!(by_topic(100, 9).len(), 2);
}

#[test]
fn paths_and_keys_of_the_configuration() {
    assert_eq!(webhook_path("/tzibbur/"), "/tzibbur/telegram/webhook");
    assert_eq!(webhook_path("/"), "/telegram/webhook");
    assert_eq!(app_path("/tzibbur"), "/tzibbur/app");
    let key = base64::Engine::encode(&base64::engine::general_purpose::STANDARD, [3u8; 32]);
    assert_eq!(parse_key("BRIDGE_MASTER_KEY", &key).unwrap(), [3u8; 32]);
    assert!(parse_key("BRIDGE_MASTER_KEY", "c2hvcnQ=").is_err());
}
