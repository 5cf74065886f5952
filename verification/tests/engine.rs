use tzibbur_bridge::catchup::{
    announce_member, history_query, join_news, mark_read, more_pending, next_history, older_query,
    outbox_news, reconcile_groups, refresh_group, refresh_members, refreshes_members, Refreshed,
};
use tzibbur_bridge::error::{AppError, ProblemDto};
use tzibbur_bridge::http::{
    batches, check_batch, endpoint, group_part_path, legal_path, map_error, normalized_base,
    read_url, relative_path, to_socket_url, ws_url, DeviceInfo,
};
use tzibbur_bridge::models::{
    AccountKind, Device, GroupDto, GroupKind, LegalDocKey, LegalDocument, MemberDto, MessageDto,
    MessagesPage, PendingResponse, Permission, Role, Session, User,
};
use tzibbur_bridge::outbox::{claim, enqueue, rest_after, settle, Claim, OutboxEvent, Step};
use tzibbur_bridge::session::{
    lifecycle, open_token, persist, restore, seal_token, wipe_local, AesGcmCipher, LegalStore,
    Lifecycle, MemorySessionStore, PlainCipher, SecretCipher, SessionFile, SessionState,
    StoredSession, WipeGuard,
};
use tzibbur_bridge::socket::{
    retry_after, DisconnectReason, SocketEvent, SocketLoop, SyncState,
};
use tzibbur_bridge::store::{GroupEntity, LocalStore, MessageEntity, OutboxEntity, OutboxState};
use tzibbur_bridge::sync::{
    apply_group_event, apply_incoming, handle_socket_event, needs_group, set_state, should_poll,
    AckVia, AfterGroupEvent, GroupFetch, MemberObservationRegistry, MemberRefreshPolicy,
    SocketReaction, SyncEvent,
};
use tzibbur_bridge::ws::{GroupEvent, HelloLimits, ServerFrame};

const NOW: i64 = 1_700_000_000_000;

fn group(id: &str) -> GroupEntity {
    GroupEntity {
        id: id.into(),
        name: "G".into(),
        category: "c".into(),
        kind: GroupKind::Standard,
        who_can_post: Permission::everyone(),
        who_can_add_members: Permission::admins(),
        created_by: None,
        created_at: 1,
        my_role: Role::Member,
        member_count: 2,
        muted: false,
        last_activity_at: None,
        last_message_preview: None,
        is_deleted: false,
        last_read_seq: 0,
    }
}

fn group_dto(id: &str) -> GroupDto {
    GroupDto {
        id: id.into(),
        name: "Live".into(),
        category: "c".into(),
        kind: GroupKind::Standard,
        who_can_post: Permission::everyone(),
        who_can_add_members: Permission::admins(),
        created_by: None,
        created_at: None,
        my_role: Role::Admin,
        member_count: 3,
        muted: false,
        last_activity_at: None,
        last_message_preview: None,
        last_read_seq: None,
        unread_count: None,
        latest_seq: None,
        limits: None,
        extra: vec![],
    }
}

fn member_dto(uid: &str) -> MemberDto {
    MemberDto {
        user_id: uid.into(),
        display_name: format!("name of {uid}"),
        phone_e164: None,
        role: Role::Member,
        kind: AccountKind::Person,
        joined_at: Some(5),
        extra: vec![],
    }
}

fn msg(id: &str, seq: i64, cmid: Option<&str>) -> MessageEntity {
    MessageEntity {
        id: id.into(),
        group_id: "g".into(),
        seq,
        sender_id: "u".into(),
        body: "b".into(),
        client_message_id: cmid.map(str::to_owned),
        created_at: seq,
    }
}

fn dto(id: &str, seq: i64, cmid: Option<&str>) -> MessageDto {
    MessageDto {
        id: id.into(),
        group_id: None,
        seq,
        sender_id: "me".into(),
        body: "hi".into(),
        client_message_id: cmid.map(str::to_owned),
        created_at: Some(seq),
        extra: vec![],
    }
}

fn user() -> User {
    User {
        id: "u".into(),
        display_name: "N".into(),
        phone_e164: Some("+1".into()),
        kind: AccountKind::Person,
        created_at: None,
        email: None,
        google_linked: false,
    }
}

fn device() -> Device {
    Device {
        id: "d".into(),
        name: None,
        platform: None,
        app_version: None,
        device_model: None,
        user_id: None,
        imei: None,
        serial_number: None,
        created_at: None,
        last_seen_at: None,
        extra: vec![],
    }
}

fn hello(version: u32, heartbeat: Option<u32>) -> ServerFrame {
    ServerFrame::Hello {
        protocol_version: version,
        user_id: None,
        device_id: None,
        limits: HelloLimits {
            heartbeat_seconds: heartbeat,
            max_connections_per_device: None,
            max_frame_bytes: None,
        },
    }
}

#[test]
fn a_greeting_connects_and_resets_the_backoff() {
    let mut s = SocketLoop::new();
    assert!(s.start(false));
    assert!(!s.start(true));
    s.connecting();
    s.failed("no route".into());
    s.failed("no route".into());
    assert_eq!(s.attempt, 2);
    assert_eq!(s.state, SyncState::BackingOff);
    s.opened();
    let step = s.handle_frame(hello(1, Some(30)));
    assert!(step.end.is_none());
    assert!(matches!(step.events[1], SocketEvent::Connected));
    assert_eq!((s.attempt, s.state), (0, SyncState::Connected));
}

#[test]
fn messages_before_the_greeting_connect_too() {
    let mut s = SocketLoop::new();
    s.opened();
    let step = s.handle_frame(ServerFrame::Messages {
        group_id: "g".into(),
        messages: vec![dto("m", 1, None)],
        has_more: false,
    });
    assert!(matches!(step.events[0], SocketEvent::Connected));
    match &step.events[1] {
        SocketEvent::Messages { messages, .. } => {
            assert_eq!(messages[0].group_id.as_deref(), Some("g"))
        }
        other => panic!("{other:?}"),
    }
}

#[test]
fn an_update_demand_is_final() {
    let mut s = SocketLoop::new();
    let step = s.handle_frame(hello(99, None));
    assert!(matches!(step.end, Some(DisconnectReason::UpdateRequired)));
    let n = s.ended(DisconnectReason::UpdateRequired, false);
    assert!(n.wait_ms.is_none());
    assert_eq!(s.state, SyncState::UpdateRequired);
    assert!(!s.start(false));
    let mut s = SocketLoop::new();
    let step = s.handle_frame(ServerFrame::Error {
        code: "update-required".into(),
        detail: None,
    });
    assert!(matches!(step.end, Some(DisconnectReason::UpdateRequired)));
    let step = s.handle_frame(ServerFrame::Error {
        code: "bad-frame".into(),
        detail: None,
    });
    assert!(step.end.is_none());
}

#[test]
fn revoked_sessions_stop_the_socket() {
    let mut s = SocketLoop::new();
    let n = s.refused(403, "403 Forbidden", None);
    assert!(n.invalidate && n.wait_ms.is_none());
    assert!(matches!(
        n.reason,
        DisconnectReason::SessionRevoked { blocked: true }
    ));
    let n = s.ended(
        DisconnectReason::Closed {
            code: Some(4001),
            message: None,
        },
        false,
    );
    assert!(n.invalidate && n.wait_ms.is_none());
}

#[test]
fn waits_follow_the_server() {
    assert_eq!(retry_after(Some(" 7 ")), Some(7000));
    assert_eq!(retry_after(Some("soon")), None);
    let mut s = SocketLoop::new();
    let n = s.refused(429, "429 Too Many Requests", Some("100"));
    assert!(n.wait_ms.unwrap() >= 100_000);
    let n = s.ended(
        DisconnectReason::Closed {
            code: Some(4029),
            message: None,
        },
        false,
    );
    assert!(n.wait_ms.unwrap() >= 60_000);
    let n = s.ended(
        DisconnectReason::Closed {
            code: None,
            message: None,
        },
        true,
    );
    assert!(n.wait_ms.is_none());
}

#[test]
fn queued_messages_are_sent_and_confirmed() {
    let mut s = LocalStore::new();
    s.upsert_group(&group("g"));
    let e = enqueue(&mut s, "g", "  hi there  ", NOW).unwrap();
    assert_eq!(e.body, "hi there");
    let row = match claim(&mut s, NOW) {
        Claim::Send(row) => row,
        other => panic!("{other:?}"),
    };
    assert_eq!(
        s.get_outbox(&row.client_message_id).unwrap().state,
        OutboxState::InFlight
    );
    let id = row.client_message_id.clone();
    let ev = settle(&mut s, row, Ok(dto("srv", 9, Some(&id))), NOW).unwrap();
    match &ev {
        OutboxEvent::Confirmed { message, .. } => assert_eq!(message.id, "srv"),
        other => panic!("{other:?}"),
    }
    let row = s.get_outbox(&id).unwrap();
    assert_eq!((row.state, row.confirmed_seq), (OutboxState::Confirmed, Some(9)));
    assert_eq!(s.max_seq("g"), Some(9));
    assert!(matches!(
        outbox_news(ev),
        Some(SyncEvent::EchoConfirmed { seq: 9, .. })
    ));
    assert!(matches!(claim(&mut s, NOW), Claim::Rest(Step::Idle)));
}

#[test]
fn failures_are_rejected_or_tried_again() {
    let mut s = LocalStore::new();
    s.upsert_group(&group("g"));
    assert!(matches!(
        enqueue(&mut s, "g", "   ", NOW),
        Err(AppError::InvalidInput(_))
    ));
    assert!(enqueue(&mut s, "g", &"x".repeat(2001), NOW).is_err());
    let take = |s: &mut LocalStore, now: i64| match claim(s, now) {
        Claim::Send(row) => row,
        other => panic!("{other:?}"),
    };
    enqueue(&mut s, "g", "bad", NOW).unwrap();
    let row = take(&mut s, NOW);
    let id = row.client_message_id.clone();
    let ev = settle(
        &mut s,
        row,
        Err(AppError::InvalidMessage { request_id: None }),
        NOW,
    );
    assert!(matches!(ev, Some(OutboxEvent::Rejected { code, .. }) if code == "invalid-message"));
    assert_eq!(
        s.get_outbox(&id).unwrap().error_code.as_deref(),
        Some("invalid-message")
    );
    enqueue(&mut s, "g", "flaky", NOW).unwrap();
    let row = take(&mut s, NOW);
    let ev = settle(
        &mut s,
        row,
        Err(AppError::RateLimited {
            retry_after_seconds: Some(3),
            request_id: None,
        }),
        NOW,
    );
    match ev {
        Some(OutboxEvent::Rescheduled {
            next_at, attempt, ..
        }) => {
            assert_eq!(next_at, NOW + 3000);
            assert_eq!(attempt, 1);
        }
        other => panic!("{other:?}"),
    }
    match claim(&mut s, NOW) {
        Claim::Rest(step) => {
            assert!(matches!(step, Step::WaitUntil(at) if at == NOW + 3000));
            assert_eq!(rest_after(step, NOW), Some(3000));
        }
        other => panic!("{other:?}"),
    }
    assert!(matches!(claim(&mut s, NOW + 3000), Claim::Send(_)));
}

#[test]
fn batches_are_applied_and_acknowledged() {
    let mut s = LocalStore::new();
    assert!(needs_group(&s, "g"));
    let a = apply_incoming(
        &mut s,
        "g",
        vec![msg("b", 2, None), msg("a", 1, None)],
        AckVia::Socket,
        GroupFetch::Found(group_dto("g")),
        NOW,
    );
    assert_eq!(a.ack, Some(2));
    assert_eq!(a.outcome.inserted, 2);
    assert!(a
        .events
        .iter()
        .any(|e| matches!(e, SyncEvent::NewMessages { messages, .. } if messages.len() == 2)));
    assert!(!needs_group(&s, "g"));
    let again = apply_incoming(
        &mut s,
        "g",
        vec![msg("b", 2, None)],
        AckVia::Socket,
        GroupFetch::Unknown,
        NOW,
    );
    assert_eq!(again.outcome.inserted, 0);
    assert_eq!(again.ack, Some(2));
    let history = apply_incoming(
        &mut s,
        "g",
        vec![msg("c", 3, None)],
        AckVia::Nothing,
        GroupFetch::Unknown,
        NOW,
    );
    assert!(history.ack.is_none());
}

#[test]
fn group_events_change_the_cache() {
    let mut s = LocalStore::new();
    s.upsert_group(&group("g"));
    let added = GroupEvent::MemberAdded {
        group_id: "g".into(),
        user_id: "u".into(),
        role: None,
        member: Some(member_dto("u")),
    };
    match apply_group_event(&mut s, Some("me"), true, added, NOW).unwrap() {
        AfterGroupEvent::Announce {
            group_id, refresh, ..
        } => {
            assert!(refresh);
            let events = announce_member(&s, group_id, "u", None, NOW);
            assert!(
                matches!(&events[0], SyncEvent::MemberAdded { member, .. } if member.display_name == "name of u")
            );
        }
        other => panic!("{other:?}"),
    }
    assert_eq!(s.get_group("g").unwrap().member_count, 3);
    let own = GroupEvent::MemberAdded {
        group_id: "h".into(),
        user_id: "me".into(),
        role: None,
        member: None,
    };
    assert!(matches!(
        apply_group_event(&mut s, Some("me"), true, own, NOW),
        Ok(AfterGroupEvent::Joined { .. })
    ));
    let gone = GroupEvent::MemberRemoved {
        group_id: "g".into(),
        user_id: "me".into(),
        reason: None,
    };
    match apply_group_event(&mut s, Some("me"), true, gone, NOW).unwrap() {
        AfterGroupEvent::Emit(events) => assert!(events
            .iter()
            .any(|e| matches!(e, SyncEvent::GroupDeleted { .. }))),
        other => panic!("{other:?}"),
    }
    assert!(s.get_group("g").unwrap().is_deleted);
}

#[test]
fn catching_up_refreshes_groups_and_members() {
    let mut s = LocalStore::new();
    s.upsert_group(&group("old"));
    reconcile_groups(&mut s, vec![group_dto("g")], NOW);
    assert!(s.get_group("old").unwrap().is_deleted);
    assert_eq!(s.get_group("g").unwrap().name, "Live");
    match refresh_members(&mut s, "g", Ok(vec![member_dto("u")]), NOW) {
        Refreshed::Found(rows) => assert_eq!(rows.len(), 1),
        other => panic!("{other:?}"),
    }
    assert_eq!(s.members("g")[0].joined_at, 5);
    let row = refresh_group(&mut s, "g", Ok(group_dto("g")), NOW);
    assert!(matches!(
        join_news(&row, "g"),
        Some(SyncEvent::GroupJoined { group_id }) if group_id == "g"
    ));
    let missing = refresh_group(
        &mut s,
        "g",
        Err(AppError::NotFound { request_id: None }),
        NOW,
    );
    assert!(matches!(missing, Refreshed::Gone(_)));
    assert!(join_news(&missing, "g").is_none());
    assert!(s.get_group("g").unwrap().is_deleted);
    let failed = refresh_group(
        &mut s,
        "old",
        Err(AppError::Network {
            message: "x".into(),
        }),
        NOW,
    );
    assert!(matches!(failed, Refreshed::Failed(_)));
    assert!(refreshes_members(MemberRefreshPolicy::All, false));
    assert!(!refreshes_members(MemberRefreshPolicy::ObservedOnly, false));
}

#[test]
fn pages_lead_on() {
    assert_eq!(history_query(Some(3)).after_seq, Some(3));
    assert_eq!(older_query(Some(3), 20).limit, Some(20));
    let page = |items: Vec<MessageDto>| MessagesPage {
        items,
        next_after_seq: Some(8),
        next_before_seq: None,
        extra: vec![],
    };
    assert_eq!(next_history(&page(vec![dto("a", 1, None)])), Some(8));
    assert_eq!(next_history(&page(vec![])), None);
    let mut p = PendingResponse::default();
    assert!(!more_pending(&p));
    p.has_more = true;
    assert!(!more_pending(&p));
    p.next_cursor = Some("c".into());
    assert!(more_pending(&p));
}

#[test]
fn states_are_reported_once() {
    let mut state = SyncState::Idle;
    assert!(set_state(&mut state, SyncState::Idle).is_empty());
    assert_eq!(set_state(&mut state, SyncState::Connected).len(), 1);
    assert!(!should_poll(SyncState::Connected));
    assert_eq!(set_state(&mut state, SyncState::UpdateRequired).len(), 2);
    let mut s = LocalStore::new();
    s.upsert_group(&group("g"));
    assert_eq!(
        mark_read(&mut s, SyncState::Connected, "g", 4),
        AckVia::Socket
    );
    assert_eq!(mark_read(&mut s, SyncState::Idle, "g", 5), AckVia::Rest);
    assert!(matches!(
        handle_socket_event(
            SocketEvent::Read {
                group_id: "g".into(),
                read_seq: 3
            },
            NOW
        ),
        SocketReaction::Read { seq: 3, .. }
    ));
}

#[test]
fn observers_are_counted() {
    let mut r = MemberObservationRegistry::new();
    r.retain("g");
    r.retain("g");
    r.release("g");
    assert!(r.is_observed("g"));
    assert_eq!(r.observed_group_ids(), vec!["g"]);
    r.release("g");
    r.release("g");
    assert!(!r.is_observed("g"));
}

#[test]
fn session_files_hide_the_token() {
    let cipher = AesGcmCipher::random();
    let stored = StoredSession::from(Session {
        user: user(),
        device: device(),
        token: "secret".into(),
    });
    let file = persist(stored, &cipher).unwrap();
    assert!(!file.token_ciphertext.as_ref().unwrap().contains("secret"));
    let back = restore(file, &cipher).unwrap().unwrap();
    assert_eq!(back.token, "secret");
    assert_eq!(back.user.display_name, "N");
    assert!(restore(SessionFile::default(), &cipher).unwrap().is_none());
    let sealed = seal_token(&cipher, "secret").unwrap();
    assert!(open_token(&AesGcmCipher::random(), &sealed).is_err());
    assert!(open_token(&cipher, "***").is_err());
    let words = |text: &str| open_token(&cipher, text).unwrap_err().message();
    assert!(words("***").starts_with("local store error: token base64: "));
    assert_eq!(words(""), "local store error: empty ciphertext");
    assert_eq!(words("BQEC"), "local store error: truncated ciphertext");
    assert_eq!(
        open_token(&AesGcmCipher::random(), &sealed).unwrap_err().message(),
        "local store error: decrypt: aead::Error"
    );
    let broken = SessionFile {
        user: Some(user()),
        device: Some(device()),
        token_ciphertext: Some(String::new()),
    };
    assert_eq!(
        restore(broken, &cipher).unwrap_err().message(),
        "local store error: empty ciphertext"
    );
    let plain = PlainCipher;
    assert_eq!(
        open_token(&plain, &seal_token(&plain, "tok").unwrap()).unwrap(),
        "tok"
    );
    assert_eq!(seal_token(&plain, "tok").unwrap(), "dG9r");
}

#[test]
fn secrets_of_any_length_make_a_key() {
    let a = AesGcmCipher::from_secret(b"a secret that is longer than thirty-two bytes");
    let b = AesGcmCipher::from_secret(b"a secret that is longer than thirty-two bytez");
    let wire = a.encrypt(b"tok").unwrap();
    assert_eq!(a.decrypt(&wire).unwrap(), b"tok");
    assert!(b.decrypt(&wire).is_err());
    assert!(a.decrypt(&[]).is_err());
    assert!(a.decrypt(&[5, 1, 2]).is_err());
}

#[test]
fn memory_sessions_can_be_renamed_and_cleared() {
    let mut m = MemorySessionStore::new();
    assert!(m.load().is_none());
    m.save(StoredSession {
        user: user(),
        device: device(),
        token: "t".into(),
    });
    m.update_display_name("M");
    assert_eq!(m.load().unwrap().user.display_name, "M");
    m.clear();
    assert!(m.load().is_none());
}

#[test]
fn a_dead_session_is_wiped_once() {
    let mut guard = WipeGuard { in_flight: false };
    assert!(guard.begin());
    assert!(!guard.begin());
    guard.end();
    assert!(guard.begin());
    let mut s = LocalStore::new();
    s.upsert_group(&group("g"));
    let mut state = SessionState::from_stored(Some(StoredSession {
        user: user(),
        device: device(),
        token: "t".into(),
    }));
    assert!(state.is_signed_in());
    wipe_local(&mut s, &mut state);
    assert!(!state.is_signed_in());
    assert!(s.get_group("g").is_none());
    assert!(matches!(lifecycle(true, true, false), Lifecycle::Start));
    assert!(matches!(lifecycle(true, false, true), Lifecycle::Stop));
}

#[test]
fn legal_documents_are_accepted_until_they_change() {
    let doc = |checksum: &str| LegalDocument {
        key: None,
        markdown: "# T".into(),
        checksum: checksum.into(),
        updated_at: None,
        extra: vec![],
    };
    let mut l = LegalStore::new();
    assert!(!l.needs_acceptance(LegalDocKey::Terms));
    l.put_document(LegalDocKey::Terms, doc("a"));
    assert!(l.needs_acceptance(LegalDocKey::Terms));
    l.mark_seen(LegalDocKey::Terms);
    assert!(!l.needs_acceptance(LegalDocKey::Terms));
    l.put_document(LegalDocKey::Terms, doc("a"));
    assert!(!l.needs_acceptance(LegalDocKey::Terms));
    l.put_document(LegalDocKey::Terms, doc("b"));
    assert!(l.needs_acceptance(LegalDocKey::Terms));
    assert!(!l.needs_acceptance(LegalDocKey::Privacy));
}

#[test]
fn urls_are_derived_from_the_base() {
    assert_eq!(
        normalized_base("https://api.tzibbur.me").unwrap(),
        "https://api.tzibbur.me/"
    );
    assert_eq!(
        normalized_base("http://localhost:8080/api").unwrap(),
        "http://localhost:8080/api/"
    );
    assert_eq!(normalized_base("mailto:").unwrap(), "mailto:%2F");
    assert_eq!(normalized_base("foo://h?q#f").unwrap(), "foo://h/?q#f");
    assert_eq!(
        normalized_base("http://h/a%20b é?q").unwrap(),
        "http://h/a%20b%20%C3%A9/?q"
    );
    assert_eq!(
        read_url("http://h/a b").unwrap(),
        ("http://h/a%20b".to_owned(), "/a%20b".to_owned())
    );
    match normalized_base("not a url") {
        Err(AppError::InvalidInput(m)) => {
            assert_eq!(m, "bad url: relative URL without a base")
        }
        other => panic!("{other:?}"),
    }
    assert_eq!(
        ws_url("https://api.tzibbur.me/").unwrap(),
        "wss://api.tzibbur.me/v1/ws"
    );
    assert_eq!(
        to_socket_url("http://localhost:1/v1/ws").unwrap(),
        "ws://localhost:1/v1/ws"
    );
    assert_eq!(
        endpoint("https://api.tzibbur.me/x/", "//v1/me").unwrap(),
        "https://api.tzibbur.me/x/v1/me"
    );
    assert_eq!(relative_path("//a/b"), "a/b");
    assert_eq!(group_part_path("g1", "members"), "v1/groups/g1/members");
    assert_eq!(legal_path(LegalDocKey::Terms), "v1/legal/terms");
}

#[test]
fn devices_introduce_themselves() {
    let d = DeviceInfo::android();
    assert_eq!(d.user_agent(), "Tzibbur/0.1.0 (Android 14; Pixel 7) Ktor");
    assert_eq!(d.headers().len(), 5);
}

#[test]
fn phone_batches_are_bounded() {
    let many: Vec<String> = (0..101).map(|i| format!("+1{i:010}")).collect();
    assert!(matches!(
        check_batch(&many),
        Err(AppError::ContactsBatchTooLarge { .. })
    ));
    assert!(check_batch(&many[..100].to_vec()).is_ok());
    let b = batches(&many);
    assert_eq!((b.len(), b[0].len(), b[1].len()), (2, 100, 1));
}

#[test]
fn error_replies_are_completed() {
    let e = map_error(
        404,
        None,
        Some("rid".into()),
        "gone",
        ProblemDto::default(),
    );
    assert!(matches!(&e, AppError::NotFound { request_id } if request_id.as_deref() == Some("rid")));
    let e = map_error(429, Some("12"), None, "", ProblemDto::default());
    assert_eq!(e.retry_after(), Some(12));
}

#[test]
fn outbox_rows_have_distinct_ids() {
    let a = OutboxEntity::new("g", "x", NOW);
    let b = OutboxEntity::new("g", "x", NOW);
    assert_eq!(a.client_message_id.len(), 36);
    assert_ne!(a.client_message_id, b.client_message_id);
}
