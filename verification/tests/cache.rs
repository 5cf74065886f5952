use tzibbur_bridge::backoff::{backoff_base, backoff_delay};
use tzibbur_bridge::bridge::format::sender_label;
use tzibbur_bridge::constants::{BACKOFF_CAP, DB_SCHEMA_VERSION};
use tzibbur_bridge::error::AppError;
use tzibbur_bridge::models::{GroupKind, Permission, Role};
use tzibbur_bridge::reconcile::{reconcile, ReconcileState};
use tzibbur_bridge::store::schema::{migration, MigrationStep};
use tzibbur_bridge::store::{
    GroupEntity, LocalCommandReplyEntity, LocalStore, MemberEntity, MessageEntity, OutboxEntity,
    OutboxState, OutgoingState,
};

fn group(id: &str) -> GroupEntity {
    GroupEntity {
        id: id.into(),
        name: "G".into(),
        category: "c".into(),
        kind: GroupKind::Standard,
        who_can_post: Permission::everyone(),
        who_can_add_members: Permission::admins(),
        created_by: None,
        created_at: 1,
        my_role: Role::Member,
        member_count: 2,
        muted: false,
        last_activity_at: None,
        last_message_preview: None,
        is_deleted: false,
        last_read_seq: 0,
    }
}

fn msg(id: &str, gid: &str, seq: i64, sender: &str, cmid: Option<&str>) -> MessageEntity {
    MessageEntity {
        id: id.into(),
        group_id: gid.into(),
        seq,
        sender_id: sender.into(),
        body: format!("body {seq}"),
        client_message_id: cmid.map(str::to_owned),
        created_at: seq * 1000,
    }
}

fn member(gid: &str, uid: &str, joined_at: i64) -> MemberEntity {
    MemberEntity {
        group_id: gid.into(),
        user_id: uid.into(),
        display_name: uid.to_uppercase(),
        phone_e164: None,
        role: Role::Admin,
        joined_at,
    }
}

const NOW: i64 = 1_700_000_000_000;

#[test]
fn caps_at_five_minutes() {
    assert_eq!(backoff_base(0), 2_000);
    assert_eq!(backoff_base(1), 4_000);
    assert_eq!(backoff_base(7), 256_000);
    assert_eq!(backoff_base(8), BACKOFF_CAP);
    assert_eq!(backoff_base(100), BACKOFF_CAP);
    let j = backoff_delay(3);
    assert!(j >= 8_000 && j <= 16_000);
}

#[test]
fn splits_new_dup_and_echo() {
    fn m(id: &str, seq: i64, cmid: Option<&str>) -> MessageEntity {
        MessageEntity {
            id: id.into(),
            group_id: "g".into(),
            seq,
            sender_id: "u".into(),
            body: "b".into(),
            client_message_id: cmid.map(str::to_owned),
            created_at: 0,
        }
    }
    let mut st = ReconcileState::default();
    st.existing_ids.push("old".into());
    st.existing_seqs.push(1);
    st.unconfirmed_client_message_ids.push("c1".into());
    let plan = reconcile(
        vec![
            m("old", 1, None),
            m("a", 2, None),
            m("b", 3, Some("c1")),
            m("a", 2, None),
            m("c", 4, Some("zz")),
        ],
        &st,
    );
    assert_eq!(plan.to_insert.len(), 3);
    assert_eq!(plan.new_message_ids, vec!["a".to_string(), "c".to_string()]);
    assert_eq!(plan.echo_confirmations.len(), 1);
    assert_eq!(plan.echo_confirmations[0].server_id, "b");
    assert_eq!(plan.max_seq, Some(4));
}

#[test]
fn schema_and_migration() {
    assert_eq!(DB_SCHEMA_VERSION, 2);
    assert_eq!(
        migration(0, true).unwrap(),
        vec![MigrationStep::CreateTables]
    );
    // A database of the first version gets the column that the second one added.
    assert_eq!(
        migration(1, false).unwrap(),
        vec![MigrationStep::AddReadPosition]
    );
    assert!(migration(2, true).unwrap().is_empty());
    let mut s2 = LocalStore::new();
    s2.upsert_group(&group("g"));
    assert_eq!(s2.get_group("g").unwrap().last_read_seq, 0);
}

#[test]
fn newer_databases_are_refused() {
    match migration(3, true) {
        Err(AppError::Store(m)) => {
            assert_eq!(m, "database schema version 3 is newer than supported 2")
        }
        other => panic!("{other:?}"),
    }
}

#[test]
fn unread_and_mark_read() {
    let mut s = LocalStore::new();
    s.upsert_group(&group("g"));
    s.insert_messages(&vec![
        msg("a", "g", 1, "other", None),
        msg("b", "g", 2, "me", None),
        msg("c", "g", 3, "other", None),
    ]);
    let rows = s.groups_with_unread("me");
    assert_eq!(rows[0].unread_count, 2);
    assert_eq!(rows[0].max_seq, Some(3));
    assert_eq!(
        rows[0].group.last_message_preview.as_deref(),
        Some("body 3")
    );
    s.mark_read("g", 3);
    s.mark_read("g", 1); // the later position stays
    assert_eq!(s.groups_with_unread("me")[0].unread_count, 0);
    assert_eq!(s.get_group("g").unwrap().last_read_seq, 3);
}

#[test]
fn outbox_lifecycle_and_echo() {
    let mut s = LocalStore::new();
    s.upsert_group(&group("g"));
    let e = OutboxEntity::new("g", "hello", NOW);
    s.insert_outbox(&e);
    assert_eq!(s.pending_count(), 1);
    let next = s.next_dispatchable(NOW, 0).unwrap();
    assert_eq!(next.client_message_id, e.client_message_id);
    s.mark_in_flight(&e.client_message_id, NOW);
    // Not stale yet, so nothing is due.
    assert!(s.next_dispatchable(NOW, NOW - 60_000).is_none());
    // The echo arrives over the socket.
    let out = s.store_incoming_batch(
        "g",
        vec![msg("srv1", "g", 10, "me", Some(&e.client_message_id))],
    );
    assert_eq!(out.inserted, 1);
    assert_eq!(out.plan.echo_confirmations.len(), 1);
    assert!(out.plan.new_message_ids.is_empty());
    let row = s.get_outbox(&e.client_message_id).unwrap();
    assert_eq!(row.state, OutboxState::Confirmed);
    assert_eq!(row.confirmed_seq, Some(10));
    assert_eq!(row.outgoing_state(), OutgoingState::Sent);
    assert_eq!(s.pending_count(), 0);
}

#[test]
fn confirm_wins_over_late_rejection() {
    let mut s = LocalStore::new();
    s.upsert_group(&group("g"));
    let e = OutboxEntity::new("g", "x", NOW);
    s.insert_outbox(&e);
    s.mark_in_flight(&e.client_message_id, 1);
    s.confirm_sent(&e.client_message_id, &"srv".to_string(), 7);
    s.mark_rejected(&e.client_message_id, "json");
    s.reschedule(&e.client_message_id, 5, Some("x"));
    let r = s.get_outbox(&e.client_message_id).unwrap();
    assert_eq!(r.state, OutboxState::Confirmed);
    assert_eq!(r.confirmed_seq, Some(7));
    assert!(r.error_code.is_none());
}

#[test]
fn rejected_is_failed_until_retry() {
    let mut s = LocalStore::new();
    s.upsert_group(&group("g"));
    let e = OutboxEntity::new("g", "x", NOW);
    s.insert_outbox(&e);
    s.mark_rejected(&e.client_message_id, "invalid-message");
    assert_eq!(
        s.get_outbox(&e.client_message_id).unwrap().outgoing_state(),
        OutgoingState::Failed
    );
    assert!(s.next_dispatchable(NOW, 0).is_none());
    s.retry_outbox(&e.client_message_id, NOW);
    assert!(s.next_dispatchable(NOW + 1, 0).is_some());
}

#[test]
fn redaction_keeps_ids_drops_text() {
    let mut s = LocalStore::new();
    s.upsert_group(&group("g"));
    s.insert_messages(&vec![
        msg("a", "g", 1, "u", None),
        msg("b", "g", 2, "u", None),
    ]);
    assert_eq!(s.redact_messages("g", 1), 1);
    let t = s.thread("g", 10);
    assert_eq!((t[0].body.as_str(), t[1].body.as_str()), ("", "body 2"));
    assert!(s.get_group("g").unwrap().last_message_preview.is_none());
    // Ids and seqs still tell duplicates.
    let out = s.store_incoming_batch("g", vec![msg("a", "g", 1, "u", None)]);
    assert_eq!(out.inserted, 0);
    let e = OutboxEntity::new("g", "secret", NOW);
    s.insert_outbox(&e);
    s.confirm_sent(&e.client_message_id, &"srv".to_string(), 3);
    assert_eq!(s.redact_confirmed_outbox(), 1);
    assert_eq!(s.get_outbox(&e.client_message_id).unwrap().body, "");
}

#[test]
fn members_cascade_and_reconcile_groups() {
    let mut s = LocalStore::new();
    s.upsert_group(&group("g"));
    s.upsert_group(&group("h"));
    s.replace_members(
        "g",
        &vec![MemberEntity {
            group_id: "g".into(),
            user_id: "u".into(),
            display_name: "U".into(),
            phone_e164: None,
            role: Role::Admin,
            joined_at: 1,
        }],
    )
    .unwrap();
    assert_eq!(s.members("g").len(), 1);
    assert_eq!(s.get_group("g").unwrap().member_count, 1);
    s.reconcile_groups(&vec![group("g")]);
    assert!(s.get_group("h").unwrap().is_deleted);
    assert_eq!(s.groups().len(), 1);
    s.purge_deleted_groups();
    assert!(s.get_group("h").is_none());
    s.clear_all();
    assert!(s.get_group("g").is_none());
    assert!(s.members("g").is_empty());
}

#[test]
fn members_need_their_group() {
    let mut s = LocalStore::new();
    assert!(matches!(
        s.upsert_member(&member("nowhere", "u", 1)),
        Err(AppError::Store(m)) if m == "FOREIGN KEY constraint failed"
    ));
    s.upsert_group(&group("g"));
    s.upsert_member(&member("g", "b", 2)).unwrap();
    s.upsert_member(&member("g", "a", 2)).unwrap();
    s.upsert_member(&member("g", "c", 1)).unwrap();
    let order: Vec<String> = s.members("g").into_iter().map(|m| m.user_id).collect();
    assert_eq!(order, vec!["c", "a", "b"]);
    s.set_role("g", "a", Role::Member);
    assert_eq!(s.members("g")[1].role, Role::Member);
    s.delete_member("g", "c");
    assert_eq!(s.members("g").len(), 2);
}

#[test]
fn batches_are_stored_once() {
    let mut s = LocalStore::new();
    s.upsert_group(&group("g"));
    let first = s.store_incoming_batch(
        "g",
        vec![msg("b", "g", 2, "u", None), msg("a", "g", 1, "u", None)],
    );
    assert_eq!(first.inserted, 2);
    let again = s.store_incoming_batch(
        "g",
        vec![msg("b", "g", 2, "u", None), msg("a", "g", 1, "u", None)],
    );
    assert_eq!(again.inserted, 0);
    assert!(again.plan.new_message_ids.is_empty());
    assert_eq!(s.max_seq("g"), Some(2));
    assert_eq!(s.min_seq("g"), Some(1));
    let ids: Vec<String> = s.thread("g", 1).into_iter().map(|m| m.id).collect();
    assert_eq!(ids, vec!["b"]);
}

#[test]
fn part_of_a_batch_brings_nothing_new() {
    let mut s = LocalStore::new();
    let batch = vec![
        msg("a", "g", 1, "u", None),
        msg("b", "g", 2, "u", None),
        msg("c", "g", 3, "u", None),
    ];
    assert_eq!(s.store_incoming_batch("g", batch).inserted, 3);
    let again = vec![msg("c", "g", 3, "u", None), msg("a", "g", 1, "u", None)];
    assert_eq!(s.store_incoming_batch("g", again).inserted, 0);
    assert_eq!(s.message_rows.len(), 3);
}

#[test]
fn labels_hide_phones() {
    let m = msg("a", "g", 1, "user-1234", None);
    let with = |phone: Option<&str>| {
        let mut row = member("g", "user-1234", 1);
        row.display_name = " ".into();
        row.phone_e164 = phone.map(str::to_owned);
        vec![row]
    };
    let hidden = sender_label(&m, &with(Some("+1")), None, false);
    assert_eq!(hidden, sender_label(&m, &with(None), None, false));
    assert_eq!(sender_label(&m, &with(Some("+1")), None, true), "+1");
}

#[test]
fn member_counts_never_drop_below_zero() {
    let mut s = LocalStore::new();
    s.upsert_group(&group("g"));
    s.set_group_member_count("g", -5);
    assert_eq!(s.get_group("g").unwrap().member_count, 0);
    s.set_group_member_count("g", 1);
    assert_eq!(s.get_group("g").unwrap().member_count, 1);
    s.set_muted("g", true);
    assert!(s.get_group("g").unwrap().muted);
}

#[test]
fn command_replies_are_kept_in_order() {
    let mut s = LocalStore::new();
    let reply = |text: &str, at: i64| LocalCommandReplyEntity {
        id: None,
        group_id: "g".into(),
        command_name: "help".into(),
        ok: true,
        code: "ok".into(),
        params_json: None,
        text: text.into(),
        created_at: at,
    };
    let first = s.insert_command_reply(&reply("one", 5));
    let second = s.insert_command_reply(&reply("two", 5));
    assert!(second > first);
    let texts: Vec<String> = s.command_replies("g").into_iter().map(|r| r.text).collect();
    assert_eq!(texts, vec!["one", "two"]);
    assert_eq!(s.clear_command_replies("g"), 2);
    assert!(s.command_replies("g").is_empty());
}
