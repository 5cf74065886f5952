use tzibbur_bridge::bridge::directus::{relation_payload, schema, DirectusError, RelationSpec};
use tzibbur_bridge::bridge::forward::lookup_due;
use tzibbur_bridge::bridge::outbound::show_answer;
use tzibbur_bridge::bridge::records::{
    Account, AccountSettings, AccountStatus, BridgeUser, Conversation, Direction, MessageMap,
};
use tzibbur_bridge::bridge::store::{
    account_name, account_session, account_settings, accounts_for_user, by_group, by_identity, by_message,
    by_number, by_text, confirmed, conversation_closed, conversation_name, conversation_topic,
    home_topic_value, names_changed, new_account, new_conversation, new_user, outbound,
    set_setting,
    user_names, user_settings, users_with_home_topic,
};
use tzibbur_bridge::error::AppError;
use tzibbur_bridge::http::CommandReply;
use tzibbur_bridge::json::Json;
use tzibbur_bridge::models::{GroupKind, Permission, Role};
use tzibbur_bridge::outbox::{settle, settle_command, OutboxEvent};
use tzibbur_bridge::store::{
    GroupEntity, LocalCommandReplyEntity, LocalStore, MemberEntity, MessageEntity, OutboxEntity,
    OutboxState, StoreChange,
};
use tzibbur_bridge::wire::Wire;

const NOW: i64 = 1_700_000_000_000;

fn shown(j: &Json) -> String {
    match j {
        Json::Null => "null".into(),
        Json::Bool(b) => format!("{b}"),
        Json::Int(i) => format!("{i}"),
        Json::Big(u) => format!("{u}"),
        Json::Real { text, .. } => text.clone(),
        Json::Str(s) => format!("'{s}'"),
        Json::Arr(a) => {
            let items: Vec<String> = a.iter().map(shown).collect();
            format!("[{}]", items.join(","))
        }
        Json::Obj(o) => {
            let items: Vec<String> = o.iter().map(|(k, v)| format!("{k}:{}", shown(v))).collect();
            format!("{{{}}}", items.join(","))
        }
    }
}

fn user(id: i64, settings: Option<Vec<(String, Json)>>) -> BridgeUser {
    BridgeUser {
        id,
        telegram_user_id: "100".into(),
        telegram_username: Some("ann".into()),
        telegram_first_name: None,
        settings,
    }
}

fn account(id: i64, status: AccountStatus) -> Account {
    Account {
        id,
        user: 1,
        tzibbur_user_id: "tz".into(),
        phone_e164: None,
        display_name: None,
        device_id: None,
        encrypted_session: None,
        status,
        settings: None,
    }
}

fn conversation(topic: Option<&str>) -> Conversation {
    Conversation {
        id: 42,
        account: 7,
        group_id: "g".into(),
        telegram_chat_id: "100".into(),
        telegram_topic_id: topic.map(str::to_owned),
        name: None,
        kind: None,
        last_forwarded_seq: 2,
        closed: false,
    }
}

fn group(id: &str) -> GroupEntity {
    GroupEntity {
        id: id.into(),
        name: "G".into(),
        category: "c".into(),
        kind: GroupKind::Standard,
        who_can_post: Permission::admins(),
        who_can_add_members: Permission::everyone(),
        created_by: None,
        created_at: 1,
        my_role: Role::Member,
        member_count: 2,
        muted: false,
        last_activity_at: None,
        last_message_preview: None,
        is_deleted: false,
        last_read_seq: 0,
    }
}

fn msg(id: &str, gid: &str, seq: i64) -> MessageEntity {
    MessageEntity {
        id: id.into(),
        group_id: gid.into(),
        seq,
        sender_id: "u".into(),
        body: "x".into(),
        client_message_id: None,
        created_at: seq,
    }
}

fn queued(id: &str, gid: &str, at: i64) -> OutboxEntity {
    OutboxEntity::with_id(id.into(), gid, "x", at)
}

#[test]
fn user_rows_are_written() {
    assert_eq!(
        shown(&new_user(100, Some("ann"), None, "now")),
        "{telegram_user_id:'100',telegram_username:'ann',telegram_first_name:null,settings:{},\
         created_at:'now',updated_at:'now'}"
    );
    assert_eq!(
        shown(&user_names(None, Some("Ann"), "now")),
        "{telegram_username:null,telegram_first_name:'Ann',updated_at:'now'}"
    );
    let u = user(1, None);
    assert!(!names_changed(&u, Some("ann"), None));
    assert!(names_changed(&u, Some("bob"), None));
    assert!(names_changed(&u, Some("ann"), Some("Ann")));
    assert_eq!(
        shown(&user_settings(vec![("lang".into(), Json::Str("he".into()))], "now")),
        "{settings:{lang:'he'},updated_at:'now'}"
    );
    assert_eq!(shown(&home_topic_value(Some(5))), "5");
    assert_eq!(shown(&home_topic_value(None)), "null");
    let at_home = users_with_home_topic(vec![
        user(1, None),
        user(2, Some(vec![("home_topic_id".into(), Json::Int(5))])),
    ]);
    assert_eq!(at_home.iter().map(|u| u.id).collect::<Vec<_>>(), vec![2]);
}

#[test]
fn account_rows_are_written() {
    assert_eq!(
        shown(&new_account(1, "tz", None, "Ann", "d", "blob", "now")),
        "{phone_e164:null,display_name:'Ann',device_id:'d',encrypted_session:'blob',\
         status:'connected',connected_at:'now',updated_at:'now',user:1,tzibbur_user_id:'tz',\
         settings:{auto_mark_read:false,auto_topics:true,show_phone_numbers:true}}"
    );
    assert_eq!(
        shown(&account_name("Ann", "now")),
        "{display_name:'Ann',updated_at:'now'}"
    );
    let s = AccountSettings {
        auto_mark_read: false,
        auto_topics: true,
        show_phone_numbers: true,
    };
    assert_eq!(
        shown(&account_settings(&s, "now")),
        "{settings:{auto_mark_read:false,auto_topics:true,show_phone_numbers:true},\
         updated_at:'now'}"
    );
    let list = accounts_for_user(vec![
        account(1, AccountStatus::Disconnected),
        account(2, AccountStatus::Connected),
        account(3, AccountStatus::ReauthRequired),
        account(4, AccountStatus::Connected),
    ]);
    assert_eq!(list.iter().map(|a| a.id).collect::<Vec<_>>(), vec![2, 4]);
}

#[test]
fn conversation_rows_are_written() {
    assert_eq!(
        shown(&new_conversation(7, "g", 100, Some(9), "G", "standard", 3, "now")),
        "{account:7,group_id:'g',telegram_chat_id:'100',telegram_topic_id:'9',name:'G',\
         kind:'standard',last_forwarded_seq:3,closed:false,created_at:'now',updated_at:'now'}"
    );
    assert_eq!(
        shown(&conversation_topic(None, "now")),
        "{telegram_topic_id:null,closed:false,updated_at:'now'}"
    );
    assert_eq!(
        shown(&conversation_name("N", "now")),
        "{name:'N',updated_at:'now'}"
    );
    assert_eq!(
        shown(&conversation_closed(true, "now")),
        "{closed:true,updated_at:'now'}"
    );
    assert_eq!(
        shown(&outbound(42, "c", 55, "now")),
        "{conversation:42,client_message_id:'c',telegram_message_id:'55',direction:'out',\
         created_at:'now'}"
    );
    assert_eq!(shown(&confirmed("m", 3)), "{tzibbur_message_id:'m',seq:3}");
}

#[test]
fn rows_are_looked_up_by_their_fields() {
    let pairs = |f: Vec<tzibbur_bridge::bridge::directus::Filter>| {
        f.into_iter()
            .map(|f| format!("{} {} {}", f.field, f.op, f.value))
            .collect::<Vec<_>>()
    };
    assert_eq!(pairs(by_group(7, "g")), vec!["account _eq 7", "group_id _eq g"]);
    assert_eq!(
        pairs(by_identity(1, "tz")),
        vec!["user _eq 1", "tzibbur_user_id _eq tz"]
    );
    assert_eq!(
        pairs(by_message(42, "m")),
        vec!["conversation _eq 42", "tzibbur_message_id _eq m"]
    );
    assert_eq!(pairs(by_number("account", -7)), vec!["account _eq -7"]);
    assert_eq!(pairs(by_text("status", "x")), vec!["status _eq x"]);
    let c = conversation(None);
    assert!(!lookup_due(&c, &msg("a", "g", 2)));
    assert!(lookup_due(&c, &msg("a", "g", 3)));
}

#[test]
fn database_errors_are_told_apart() {
    let e = DirectusError::from_reply(404, "404 Not Found".into(), "items/x", None, "gone");
    assert_eq!(e.message(), "directus 404 Not Found on items/x: gone");
    assert!(e.is_absent() && !e.fails_ping());
    let long = "y".repeat(400);
    let e = DirectusError::from_reply(500, "500".into(), "p", None, &long);
    assert_eq!(e.message.len(), 300);
    assert!(!e.is_absent());
    let e = DirectusError::from_reply(401, "401".into(), "p", Some("bad token".into()), &long);
    assert_eq!(e.message, "bad token");
    assert!(e.fails_ping());
}

#[test]
fn collections_are_created_with_their_columns() {
    let s = schema("b_");
    let users = shown(&s[0].to_create_payload());
    assert!(users.starts_with("{collection:'b_users',"));
    assert!(users.contains("{field:'id',type:'integer',"));
    assert!(users.contains("field:'telegram_user_id',type:'string'"));
    assert!(users.contains("is_unique:true"));
    let r = RelationSpec {
        field: "user",
        related: "b_users".into(),
    };
    let text = shown(&relation_payload("b_accounts", &r));
    assert!(text.starts_with("{collection:'b_accounts',field:'user',related_collection:'b_users'"));
}

#[test]
fn changes_are_handed_out_once() {
    let mut s = LocalStore::new();
    s.upsert_group(&group("g"));
    s.insert_outbox(&queued("c", "g", NOW));
    let changes = s.take_changes();
    assert!(matches!(changes[0], StoreChange::Groups));
    assert!(matches!(&changes[1], StoreChange::Outbox { group_id } if group_id == "g"));
    assert_eq!(changes.len(), 2);
    assert!(s.take_changes().is_empty());
    s.clear_all();
    assert!(matches!(s.take_changes()[0], StoreChange::Cleared));
    assert!(s.groups().is_empty());
}

#[test]
fn messages_are_counted_found_and_deleted() {
    let mut s = LocalStore::new();
    s.upsert_group(&group("g"));
    s.insert_messages(&vec![
        msg("a", "g", 1),
        msg("b", "g", 2),
        msg("c", "g", 5),
        msg("d", "h", 3),
    ]);
    assert_eq!(s.count_between("g", 1, 5), 3);
    assert_eq!(s.count_between("g", 3, 4), 0);
    let mut ids = s.message_ids_exist("g", &vec!["a".into(), "d".into(), "c".into()]);
    ids.sort();
    assert_eq!(ids, vec!["a", "c"]);
    let mut seqs = s.seqs_exist("g", &vec![5, 3, 2]);
    seqs.sort();
    assert_eq!(seqs, vec![2, 5]);
    assert_eq!(s.delete_messages_for_group("g"), 3);
    assert!(s.thread("g", 10).is_empty());
    assert_eq!(s.thread("h", 10).len(), 1);
}

#[test]
fn groups_are_hidden_not_forgotten() {
    let mut s = LocalStore::new();
    for id in ["a", "b", "c"] {
        s.upsert_group(&group(id));
    }
    s.mark_groups_deleted_except(&vec!["b".into()]);
    assert_eq!(s.groups().iter().map(|g| g.id.clone()).collect::<Vec<_>>(), vec!["b"]);
    assert!(s.get_group("a").unwrap().is_deleted);
    s.mark_all_groups_deleted();
    assert!(s.groups().is_empty());
    s.upsert_group(&group("a"));
    assert_eq!(s.groups().len(), 1);
}

#[test]
fn rights_follow_the_role() {
    let mut g = group("g");
    assert!(!g.is_admin() && !g.can_post() && g.can_add_members());
    g.my_role = Role::Admin;
    assert!(g.is_admin() && g.can_post() && g.can_add_members());
    g.kind = GroupKind::System;
    assert!(g.is_system());
}

#[test]
fn members_of_a_group_can_all_be_dropped() {
    let mut s = LocalStore::new();
    s.upsert_group(&group("g"));
    s.upsert_group(&group("h"));
    for gid in ["g", "h"] {
        s.upsert_member(&MemberEntity {
            group_id: gid.into(),
            user_id: "u".into(),
            display_name: "U".into(),
            phone_e164: None,
            role: Role::Member,
            joined_at: 1,
        })
        .unwrap();
    }
    s.delete_all_members("g");
    assert!(s.members("g").is_empty());
    assert_eq!(s.members("h").len(), 1);
}

#[test]
fn the_outbox_is_listed_and_cleaned() {
    let mut s = LocalStore::new();
    s.insert_outbox(&queued("late", "g", NOW + 5));
    s.insert_outbox(&queued("early", "g", NOW));
    s.insert_outbox(&queued("other", "h", NOW));
    let ids: Vec<_> = s
        .pending_outbox("g")
        .iter()
        .map(|e| e.client_message_id.clone())
        .collect();
    assert_eq!(ids, vec!["early", "late"]);
    s.confirm_sent("early", &"m".to_owned(), 1);
    assert_eq!(s.pending_outbox("g").len(), 1);
    assert_eq!(s.purge_old_confirmed(NOW), 0);
    assert_eq!(s.purge_old_confirmed(NOW + 1), 1);
    assert!(s.get_outbox("early").is_none());
    s.delete_outbox("late");
    assert!(s.get_outbox("late").is_none());
    assert_eq!(s.pending_count(), 1);
}

#[test]
fn an_answered_command_leaves_the_outbox() {
    let mut s = LocalStore::new();
    s.insert_outbox(&queued("a", "g", NOW));
    s.insert_outbox(&queued("b", "g", NOW + 1));
    let row = s.get_outbox("a").unwrap();
    let reply = CommandReply {
        name: "help".into(),
        ok: true,
        code: String::new(),
        text: "Commands: #add".into(),
    };
    let map = Some(MessageMap {
        id: 1,
        conversation: 42,
        tzibbur_message_id: None,
        client_message_id: Some("a".into()),
        seq: None,
        telegram_message_id: Some("55".into()),
        direction: Direction::Out,
    });
    let conv = Some(conversation(Some("9")));
    let shown = show_answer(&reply, &map, &conv).unwrap();
    assert_eq!((shown.text.as_str(), shown.reply_to, shown.topic), ("Commands: #add", 55, Some(9)));
    assert!(show_answer(&reply, &map, &None).is_none());
    match settle_command(&mut s, row, reply) {
        OutboxEvent::Answered {
            client_message_id,
            reply,
        } => assert_eq!((client_message_id.as_str(), reply.name.as_str()), ("a", "help")),
        other => panic!("{other:?}"),
    }
    assert!(s.get_outbox("a").is_none());
    assert!(s.get_outbox("b").is_some());
    assert!(s.thread("g", 10).is_empty());
}

#[test]
fn a_retry_is_the_same_message() {
    let mut s = LocalStore::new();
    s.insert_outbox(&queued("a", "g", NOW));
    let row = s.get_outbox("a").unwrap();
    let ev = settle(&mut s, row, Err(AppError::Internal { request_id: None }), NOW);
    assert!(matches!(ev, Some(OutboxEvent::Rescheduled { attempt: 1, .. })));
    let row = s.get_outbox("a").unwrap();
    assert_eq!((row.client_message_id.as_str(), row.body.as_str()), ("a", "x"));
    assert_eq!((row.state, row.attempt_count), (OutboxState::Pending, 1));
    assert!(row.next_attempt_at.unwrap() >= NOW + 1_000);
}

#[test]
fn stuck_rows_are_repaired() {
    let mut s = LocalStore::new();
    let mut stuck = queued("json", "g", NOW);
    stuck.error_code = Some("json".into());
    stuck.next_attempt_at = None;
    s.insert_outbox(&stuck);
    let mut done = queued("done", "g", NOW);
    done.confirmed_seq = Some(4);
    done.error_code = Some("x".into());
    s.insert_outbox(&done);
    let mut refused = queued("refused", "g", NOW);
    refused.error_code = Some("not-allowed".into());
    refused.next_attempt_at = None;
    s.insert_outbox(&refused);
    s.repair(NOW + 9);
    assert_eq!(s.get_outbox("json").unwrap().next_attempt_at, Some(NOW + 9));
    let done = s.get_outbox("done").unwrap();
    assert_eq!(done.state, OutboxState::Confirmed);
    assert!(done.error_code.is_none() && done.next_attempt_at.is_none());
    assert_eq!(s.get_outbox("refused").unwrap().next_attempt_at, None);
}

fn member(gid: &str, uid: &str) -> MemberEntity {
    MemberEntity {
        group_id: gid.into(),
        user_id: uid.into(),
        display_name: "N".into(),
        phone_e164: None,
        role: Role::Member,
        joined_at: 1,
    }
}

fn answer(id: Option<i64>) -> LocalCommandReplyEntity {
    LocalCommandReplyEntity {
        id,
        group_id: "g".into(),
        command_name: "help".into(),
        ok: true,
        code: "ok".into(),
        params_json: None,
        text: "t".into(),
        created_at: 1,
    }
}

#[test]
fn stored_rows_are_checked() {
    let s = LocalStore::from_rows(
        vec![group("g"), group("h")],
        vec![msg("a", "g", 1), msg("b", "h", 1)],
        vec![member("g", "u"), member("h", "u")],
        vec![queued("c", "g", 1)],
        vec![answer(Some(2)), answer(Some(5))],
        0,
    )
    .unwrap();
    assert_eq!((s.group_rows.len(), s.message_rows.len()), (2, 2));
    assert_eq!((s.next_reply_id, s.changes.len()), (6, 0));
    let none = LocalStore::from_rows(vec![], vec![], vec![], vec![], vec![], 0).unwrap();
    assert_eq!(none.next_reply_id, 1);
    let gone = LocalStore::from_rows(vec![], vec![], vec![], vec![], vec![], 7).unwrap();
    assert_eq!(gone.next_reply_id, 8);
    let behind =
        LocalStore::from_rows(vec![], vec![], vec![], vec![], vec![answer(Some(9))], 7).unwrap();
    assert_eq!(behind.next_reply_id, 10);
    let bad = [
        LocalStore::from_rows(vec![group("g"), group("g")], vec![], vec![], vec![], vec![], 0),
        LocalStore::from_rows(
            vec![],
            vec![msg("a", "g", 1), msg("b", "g", 1)],
            vec![],
            vec![],
            vec![],
            0,
        ),
        LocalStore::from_rows(
            vec![],
            vec![msg("a", "g", 1), msg("a", "h", 2)],
            vec![],
            vec![],
            vec![],
            0,
        ),
        LocalStore::from_rows(vec![], vec![], vec![member("g", "u")], vec![], vec![], 0),
        LocalStore::from_rows(
            vec![group("g")],
            vec![],
            vec![member("g", "u"), member("g", "u")],
            vec![],
            vec![],
            0,
        ),
        LocalStore::from_rows(
            vec![],
            vec![],
            vec![],
            vec![queued("c", "g", 1), queued("c", "g", 2)],
            vec![],
            0,
        ),
        LocalStore::from_rows(vec![], vec![], vec![], vec![], vec![answer(None)], 0),
        LocalStore::from_rows(
            vec![],
            vec![],
            vec![],
            vec![],
            vec![answer(Some(5)), answer(Some(2))],
            0,
        ),
        LocalStore::from_rows(vec![], vec![], vec![], vec![], vec![answer(Some(i64::MAX))], 0),
        LocalStore::from_rows(vec![], vec![], vec![], vec![], vec![], i64::MAX),
    ];
    for r in bad {
        assert!(matches!(r, Err(AppError::Store(m)) if m == "the stored rows are inconsistent"));
    }
}

#[test]
fn rows_come_as_lists_too() {
    let list = Json::Arr(vec![
        Json::Int(7),
        Json::Int(1),
        Json::Str("tz".into()),
        Json::Null,
        Json::Str("Ann".into()),
        Json::Null,
        Json::Null,
        Json::Obj(vec![("connected".into(), Json::Null)]),
    ]);
    let a = Account::from_json(&list).unwrap();
    assert_eq!((a.id, a.user, a.tzibbur_user_id.as_str()), (7, 1, "tz"));
    assert_eq!(a.display_name.as_deref(), Some("Ann"));
    assert!(matches!(a.status, AccountStatus::Connected));
}

#[test]
fn reply_ids_are_not_given_twice() {
    let mut s = LocalStore::new();
    let first = s.insert_command_reply(&answer(None));
    assert_eq!(s.clear_command_replies("g"), 1);
    let mut again =
        LocalStore::from_rows(vec![], vec![], vec![], vec![], vec![], s.next_reply_id - 1).unwrap();
    assert_eq!(again.insert_command_reply(&answer(None)), first + 1);
}

#[test]
fn fractions_are_kept() {
    let real = Json::Real {
        whole: 1,
        text: "1.5".into(),
    };
    let stored = Some(vec![("zoom".into(), real)]);
    let merged = set_setting(stored, "lang", Json::Str("he".into()));
    assert!(shown(&user_settings(merged, "now")).contains("zoom:1.5"));
}

#[test]
fn resealed_sessions_are_written() {
    assert_eq!(
        shown(&account_session("c2Vh", "2026")),
        "{encrypted_session:'c2Vh',updated_at:'2026'}"
    );
}
