use tzibbur_bridge::error::{AppError, ErrorField, ErrorItem, ErrorsDto, ExtraMember, ProblemDto};
use tzibbur_bridge::json::{epoch_ms_from_value, Json};
use tzibbur_bridge::models::{
    AccountKind, AddMembersOutcome, GroupDto, GroupKind, LegalDocument, MemberDto, MessageDto,
    MessagesPage, Page, PendingResponse, Permission, RegisteredContact, Role, User,
};
use tzibbur_bridge::wire::Wire;
use tzibbur_bridge::ws::{decode_frame, ClientFrame, GroupEvent, HelloLimits, ServerFrame};

fn json_of(v: &serde_json::Value) -> Json {
    match v {
        serde_json::Value::Null => Json::Null,
        serde_json::Value::Bool(b) => Json::Bool(*b),
        serde_json::Value::Number(n) => {
            if let Some(i) = n.as_i64() {
                Json::Int(i)
            } else if let Some(u) = n.as_u64() {
                Json::Big(u)
            } else {
                Json::Real {
                    whole: n.as_f64().unwrap_or(0.0) as i64,
                    text: n.to_string(),
                }
            }
        }
        serde_json::Value::String(s) => Json::Str(s.clone()),
        serde_json::Value::Array(a) => Json::Arr(a.iter().map(json_of).collect()),
        serde_json::Value::Object(o) => {
            Json::Obj(o.iter().map(|(k, v)| (k.clone(), json_of(v))).collect())
        }
    }
}

fn json(text: &str) -> Json {
    json_of(&serde_json::from_str::<serde_json::Value>(text).unwrap())
}

fn decode<T: Wire>(text: &str) -> Option<T> {
    T::from_json(&json(text))
}

fn text_of(v: &serde_json::Value, key: &str) -> Option<String> {
    v.get(key).and_then(|x| x.as_str()).map(str::to_owned)
}

fn problem(text: &str) -> ProblemDto {
    let v: serde_json::Value = serde_json::from_str(text).unwrap();
    let standard = ["type", "title", "status", "detail", "requestId", "errors"];
    let errors = v.get("errors").map(|e| match e {
        serde_json::Value::Array(a) => ErrorsDto::Items(
            a.iter()
                .map(|i| ErrorItem {
                    path: text_of(i, "path").unwrap_or_default(),
                    message: text_of(i, "message").unwrap_or_default(),
                })
                .collect(),
        ),
        serde_json::Value::Object(o) => ErrorsDto::Fields(
            o.iter()
                .map(|(k, f)| ErrorField {
                    name: k.clone(),
                    text: f.as_str().map(str::to_owned).unwrap_or_else(|| f.to_string()),
                    number: f.as_u64(),
                })
                .collect(),
        ),
        other => ErrorsDto::Text(other.to_string()),
    });
    ProblemDto {
        type_uri: text_of(&v, "type"),
        title: text_of(&v, "title"),
        status: v.get("status").and_then(|s| s.as_u64()).map(|s| s as u16),
        detail: text_of(&v, "detail"),
        request_id: text_of(&v, "requestId"),
        errors,
        extra: v
            .as_object()
            .unwrap()
            .iter()
            .filter(|(k, _)| !standard.contains(&k.as_str()))
            .map(|(k, x)| ExtraMember {
                name: k.clone(),
                number: x.as_u64(),
            })
            .collect(),
    }
}

#[test]
fn maps_by_type_suffix() {
    let p = problem(
        r#"{"type":"urn:tzibbur:error:group-full","title":"x","status":422,"requestId":"r1","maxMembers":150}"#,
    );
    match AppError::from_problem(422, &p, None) {
        AppError::GroupFull {
            max_members,
            request_id,
        } => {
            assert_eq!(max_members, 150);
            assert_eq!(request_id.as_deref(), Some("r1"));
        }
        other => panic!("{other:?}"),
    }
}

#[test]
fn live_underscore_slugs() {
    let p = problem(
        r#"{"type":"urn:tzibbur:error:validation_failed","title":"validation_failed","status":400,"detail":"Request validation failed","requestId":"r","errors":[{"path":"/id","message":"Invalid UUID"}]}"#,
    );
    assert!(matches!(
        AppError::from_problem(400, &p, None),
        AppError::ValidationFailed { .. }
    ));
    let p = problem(r#"{"type":"urn:tzibbur:error:not_found","status":404}"#);
    assert!(matches!(
        AppError::from_problem(404, &p, None),
        AppError::NotFound { .. }
    ));
}

#[test]
fn falls_back_to_status() {
    let p = ProblemDto::default();
    assert!(matches!(
        AppError::from_problem(401, &p, None),
        AppError::Unauthorized { .. }
    ));
    assert!(matches!(
        AppError::from_problem(503, &p, None),
        AppError::Internal { .. }
    ));
    assert!(matches!(
        AppError::from_problem(429, &p, Some(7)),
        AppError::RateLimited {
            retry_after_seconds: Some(7),
            ..
        }
    ));
}

#[test]
fn errors_speak_for_themselves() {
    let full = AppError::GroupFull {
        max_members: 100,
        request_id: Some("r9".into()),
    };
    assert_eq!(full.message(), "group is full (max 100 members) [requestId=r9]");
    assert_eq!(full.code(), "group-full");
    assert_eq!(full.request_id().map(String::as_str), Some("r9"));
    assert!(!full.is_retryable());
    let limited = AppError::RateLimited {
        retry_after_seconds: Some(3),
        request_id: None,
    };
    assert_eq!(limited.message(), "rate limited (retry after 3s)");
    assert!(limited.is_retryable());
    assert!(AppError::Unauthorized { request_id: None }.invalidates_session());
    assert_eq!(
        AppError::InvalidInput("x".into()).message(),
        "invalid input: x"
    );
}

#[test]
fn policy_refusals_are_typed() {
    let refused = |slug: &str| {
        let text = format!(
            r#"{{"type":"urn:tzibbur:error:{slug}","status":403,"requestId":"r","errors":{{"n":3,"reason":"muted"}}}}"#
        );
        AppError::from_problem(403, &problem(&text), None)
    };
    let cases = [
        ("posting_not_allowed", "posting not allowed (muted) [requestId=r]"),
        (
            "adding_members_not_allowed",
            "adding members not allowed (muted) [requestId=r]",
        ),
        ("admin_required", "admin required (muted) [requestId=r]"),
        ("leave_not_allowed", "leaving not allowed (muted) [requestId=r]"),
        ("device_blocked", "device blocked (muted) [requestId=r]"),
    ];
    for (slug, text) in cases {
        let e = refused(slug);
        assert_eq!(e.code(), slug.replace('_', "-"));
        assert_eq!(e.message(), text);
        assert_eq!(e.status(), Some(403));
        assert_eq!(e.request_id().map(String::as_str), Some("r"));
        assert_eq!(e.invalidates_session(), slug == "device_blocked");
        assert!(!e.is_retryable());
    }
    assert!(matches!(
        refused("posting_not_allowed"),
        AppError::PostingNotAllowed { reason: Some(r), .. } if r == "muted"
    ));
    let bare = problem(r#"{"type":"urn:tzibbur:error:device_blocked"}"#);
    let e = AppError::from_problem(403, &bare, None);
    assert!(matches!(e, AppError::DeviceBlocked { reason: None, request_id: None }));
    assert_eq!(e.message(), "device blocked");
    let other = problem(r#"{"type":"urn:tzibbur:error:odd"}"#);
    assert!(matches!(
        AppError::from_problem(403, &other, None),
        AppError::Forbidden { .. }
    ));
}

#[test]
fn lists_stand_for_the_fields_in_order() {
    let u: User = decode(r#"["u","Ann","+1","service",7,null,true]"#).unwrap();
    assert_eq!((u.id.as_str(), u.display_name.as_str()), ("u", "Ann"));
    assert_eq!(u.phone_e164.as_deref(), Some("+1"));
    assert!(matches!(u.kind, AccountKind::Service));
    assert_eq!((u.created_at, u.email, u.google_linked), (Some(7), None, true));
    let short: User = decode(r#"["u"]"#).unwrap();
    assert_eq!((short.id.as_str(), short.display_name.as_str()), ("u", ""));
    assert!(decode::<User>("[]").is_none());
    assert!(decode::<User>(r#"["u","","",null,null,null,false,0]"#).is_none());
    let f: ServerFrame = decode(r#"["read","g",5]"#).unwrap();
    assert!(matches!(
        f,
        ServerFrame::Read { group_id, read_seq: 5 } if group_id == "g"
    ));
    let f: ServerFrame = decode(r#"["hello",1,"u","d",[30]]"#).unwrap();
    assert!(matches!(
        f,
        ServerFrame::Hello {
            protocol_version: 1,
            limits: HelloLimits {
                heartbeat_seconds: Some(30),
                ..
            },
            ..
        }
    ));
    let kind: User = decode(r#"{"id":"u","kind":{"service":null}}"#).unwrap();
    assert!(matches!(kind.kind, AccountKind::Service));
}

#[test]
fn unknown_members_are_kept() {
    let page: MessagesPage = decode(r#"{"messages":[],"total":4,"nextAfterSeq":2}"#).unwrap();
    assert_eq!(page.next_after_seq, Some(2));
    assert_eq!(page.extra.len(), 1);
    assert!(matches!(&page.extra[0], (k, Json::Int(4)) if k == "total"));
    let out: AddMembersOutcome = decode(r#"{"added":[],"invited":["+1"]}"#).unwrap();
    assert_eq!(out.extra.len(), 1);
    assert_eq!(out.extra[0].0, "invited");
    assert!(AddMembersOutcome::default().extra.is_empty());
}

#[test]
fn page_accepts_array_and_object() {
    let a: Page<GroupDto> = decode(r#"[{"id":"g1","name":"A"}]"#).unwrap();
    assert_eq!(a.items.len(), 1);
    let b: Page<GroupDto> =
        decode(r#"{"groups":[{"id":"g1","name":"A"}],"nextCursor":"c2"}"#).unwrap();
    assert_eq!(b.items[0].id, "g1");
    assert_eq!(b.next_cursor.as_deref(), Some("c2"));
    assert!(b.has_more);
}

#[test]
fn page_refuses_what_is_no_page() {
    assert!(decode::<Page<GroupDto>>("3").is_none());
    assert!(decode::<Page<GroupDto>>(r#"[{"name":"A"}]"#).is_none());
}

#[test]
fn epoch_accepts_number_and_iso() {
    let m: MessageDto = decode(
        r#"{"id":"m","seq":1,"senderId":"u","body":"x","createdAt":"2026-01-02T03:04:05Z"}"#,
    )
    .unwrap();
    assert_eq!(m.created_at, Some(1767323045000));
    let m2: MessageDto =
        decode(r#"{"id":"m","seq":1,"senderId":"u","body":"x","createdAt":5}"#).unwrap();
    assert_eq!(m2.created_at, Some(5));
}

#[test]
fn epoch_reads_decimal_texts_and_refuses_others() {
    assert_eq!(epoch_ms_from_value(&Json::Str("1234".into())), Some(1234));
    assert_eq!(
        epoch_ms_from_value(&Json::Str("1970-01-01T00:00:01Z".into())),
        Some(1000)
    );
    assert_eq!(epoch_ms_from_value(&Json::Str("yesterday".into())), None);
    assert_eq!(epoch_ms_from_value(&Json::Bool(true)), None);
}

#[test]
fn pending_flat_and_bucketed() {
    let p: PendingResponse = decode(
        r#"{"messages":[{"id":"1","groupId":"g","seq":1,"senderId":"u","body":"a"},{"id":"2","groupId":"h","seq":1,"senderId":"u","body":"b"}]}"#,
    )
    .unwrap();
    assert_eq!(p.messages.len(), 2);
    let q: PendingResponse = decode(
        r#"{"messages":[{"groupId":"g","messages":[{"id":"1","seq":1,"senderId":"u","body":"a"}]}],"hasMore":true}"#,
    )
    .unwrap();
    assert_eq!(q.message_count(), 1);
    assert!(q.has_more);
}

#[test]
fn live_group_shape() {
    let g: GroupDto = decode(
        r#"{"category":"other","createdAt":"2026-09-08T01:34:12.708Z","createdBy":"u","id":"g","kind":"system",
            "limits":{"memberCap":100,"messageMaxLength":1000,"minMembersToPost":0},"memberCount":2,"muted":false,
            "name":"Tzibbur System","readSeq":0,"role":"member","settings":{"whoCanAddMembers":"everyone","whoCanPost":"everyone"},"unreadCount":1}"#,
    )
    .unwrap();
    assert_eq!(g.kind, GroupKind::System);
    assert_eq!(g.my_role, Role::Member);
    assert_eq!(g.who_can_post.as_str(), Permission::everyone().as_str());
    assert_eq!(g.last_read_seq, Some(0));
    assert_eq!(g.unread_count, Some(1));
    assert_eq!(g.message_max_length(), 1000);
    assert!(g.extra.is_empty(), "{:?}", g.extra);
    // Upper-case wire values still parse.
    let m: MemberDto = decode(r#"{"userId":"u","role":"ADMIN","kind":"service"}"#).unwrap();
    assert_eq!(m.role, Role::Admin);
    assert!(m.kind.is_service());
    assert_eq!(format!("\"{}\"", Role::Admin.as_str()), "\"admin\"");
}

#[test]
fn live_pending_legal_contacts() {
    let p: PendingResponse = decode(
        r#"{"groups":[{"deliveredSeq":0,"groupId":"g","hasMore":true,"messages":[{"id":"m","groupId":"g","seq":1,"senderId":"s","body":"b","createdAt":"2026-09-08T01:34:12.758Z"}]}]}"#,
    )
    .unwrap();
    assert_eq!(p.messages.len(), 1);
    assert!(p.groups.is_empty());
    assert!(p.messages[0].has_more);
    assert_eq!(p.messages[0].delivered_seq, Some(0));
    let l: LegalDocument =
        decode(r##"{"document":{"checksum":"abc","key":"terms","text":"# T"}}"##).unwrap();
    assert_eq!(
        (l.checksum.as_str(), l.markdown.as_str(), l.key.as_deref()),
        ("abc", "# T", Some("terms"))
    );
    let c: Page<RegisteredContact> = decode(r#"{"registered":["+1440"]}"#).unwrap();
    assert_eq!(c.items[0].phone_e164.as_deref(), Some("+1440"));
}

#[test]
fn frames_roundtrip() {
    let s = ClientFrame::Ack {
        group_id: "g".into(),
        seq: 7,
    }
    .to_text();
    assert_eq!(s, r#"{"type":"ack","groupId":"g","seq":7}"#);
    assert_eq!(ClientFrame::Ping.to_text(), r#"{"type":"ping"}"#);
    let f: ServerFrame = decode(
        r#"{"type":"hello","protocolVersion":1,"userId":"u","deviceId":"d","limits":{"heartbeatSeconds":30,"maxConnectionsPerDevice":3,"maxFrameBytes":16384}}"#,
    )
    .unwrap();
    assert!(matches!(
        f,
        ServerFrame::Hello {
            protocol_version: 1,
            limits: HelloLimits {
                heartbeat_seconds: Some(30),
                ..
            },
            ..
        }
    ));
    let f: ServerFrame = decode(r#"{"type":"hello","version":1}"#).unwrap();
    assert!(matches!(
        f,
        ServerFrame::Hello {
            protocol_version: 1,
            ..
        }
    ));
    let f: ServerFrame = decode(
        r#"{"type":"group","event":"role-changed","payload":{"groupId":"g","userId":"u","role":"ADMIN"}}"#,
    )
    .unwrap();
    if let ServerFrame::Group { event, fields } = f {
        match GroupEvent::parse(&event, &fields) {
            GroupEvent::RoleChanged {
                group_id,
                user_id,
                role,
            } => {
                assert_eq!(group_id, "g");
                assert_eq!(user_id, "u");
                assert_eq!(role, Role::Admin);
            }
            other => panic!("{other:?}"),
        }
    } else {
        panic!();
    }
}

fn event(text: &str) -> GroupEvent {
    match decode::<ServerFrame>(text).unwrap() {
        ServerFrame::Group { event, fields } => GroupEvent::parse(&event, &fields),
        other => panic!("{other:?}"),
    }
}

#[test]
fn official_group_frames() {
    match event(
        r#"{"type":"group","event":"member-added","groupId":"g","userId":"u","role":"member","joinedSeq":4,"actorId":"a"}"#,
    ) {
        GroupEvent::MemberAdded {
            group_id,
            user_id,
            role,
            member,
        } => {
            assert_eq!((group_id.as_str(), user_id.as_str()), ("g", "u"));
            assert_eq!(role, Some(Role::Member));
            assert!(member.is_none());
        }
        other => panic!("{other:?}"),
    }
    match event(
        r#"{"type":"group","event":"member-removed","groupId":"g","userId":"u","actorId":null,"reason":"left"}"#,
    ) {
        GroupEvent::MemberRemoved {
            group_id,
            user_id,
            reason,
        } => {
            assert_eq!((group_id.as_str(), user_id.as_str()), ("g", "u"));
            assert_eq!(reason.as_deref(), Some("left"));
        }
        other => panic!("{other:?}"),
    }
    match event(
        r#"{"type":"group","event":"group-updated","groupId":"g","name":"N","settings":{"whoCanPost":"admins","whoCanAddMembers":"everyone"},"actorId":"a"}"#,
    ) {
        GroupEvent::GroupUpdated {
            group_id,
            name,
            who_can_post,
            who_can_add_members,
        } => {
            assert_eq!(group_id, "g");
            assert_eq!(name.as_deref(), Some("N"));
            assert_eq!(
                who_can_post.unwrap().as_str(),
                Permission::admins().as_str()
            );
            assert_eq!(
                who_can_add_members.unwrap().as_str(),
                Permission::everyone().as_str()
            );
        }
        other => panic!("{other:?}"),
    }
    match decode::<ServerFrame>(r#"{"type":"read","groupId":"g","readSeq":9}"#).unwrap() {
        ServerFrame::Read { group_id, read_seq } => {
            assert_eq!(group_id, "g");
            assert_eq!(read_seq, 9);
        }
        other => panic!("{other:?}"),
    }
    assert_eq!(
        ClientFrame::Read {
            group_id: "g".into(),
            seq: 3
        }
        .to_text(),
        r#"{"type":"read","groupId":"g","seq":3}"#
    );
}

#[test]
fn client_frames_escape_what_they_carry() {
    let s = ClientFrame::Ack {
        group_id: "a\"b\\c\n\u{1}é".into(),
        seq: -1,
    }
    .to_text();
    assert_eq!(
        s,
        "{\"type\":\"ack\",\"groupId\":\"a\\\"b\\\\c\\n\\u0001é\",\"seq\":-1}"
    );
    let back: serde_json::Value = serde_json::from_str(&s).unwrap();
    assert_eq!(back["groupId"].as_str(), Some("a\"b\\c\n\u{1}é"));
}

#[test]
fn unknown_frames_and_events_are_told_apart() {
    assert!(decode_frame(&json(r#"{"type":"surprise"}"#)).is_none());
    match event(r#"{"type":"group","event":"moon-landing","groupId":"g"}"#) {
        GroupEvent::Unknown { event, .. } => assert_eq!(event, "moon-landing"),
        other => panic!("{other:?}"),
    }
}
