use tzibbur_bridge::bridge::accounts::{
    after_disconnect, before_connect, AuthKind, AuthLimiter, Before,
};
use tzibbur_bridge::bridge::callbacks::{
    ask_delete_card, error_toast, mute_toast, number_in, own_conversation, owns, parse_callback,
    parse_group_callback, pick_member, read_toast, Callback, CardAction, GroupCallback,
    MemberAction,
};
use tzibbur_bridge::bridge::cards::{card, flip, group_action, member_menu, members_view, perm_label};
use tzibbur_bridge::bridge::commands::{
    admission, ask_delete, legal_missing, mute_answer, name_answer, need, on_command, on_message,
    private_only, read_answer, settings_kb, sync_answer, toggle_mute, toggled, trouble, Command,
    Facts, Need, Routing, Task,
};
use tzibbur_bridge::bridge::compose::{compose, quote_prefix, split_for_tzibbur, Replied};
use tzibbur_bridge::bridge::dialogue::{
    ask_category, category_chosen, code_checked, code_requested, default_categories,
    on_add_phones, on_code, on_group_name, on_group_phones, on_name, on_phone, on_rename,
    phone_read, Checked, Numbers, SharedContact, State, Step,
};
use tzibbur_bridge::bridge::miniapp::{
    accept, api_start, api_verify, login_refused, signed_text, verify_init_data, Pair,
};
use tzibbur_bridge::bridge::records::{
    Account, AccountSettings, AccountStatus, Conversation,
};
use tzibbur_bridge::bridge::reply::Reply;
use tzibbur_bridge::bridge::reports::{
    after_first_addition, chats_report, contacts_report, created_report, device_line,
    devices_report, format_add_failures, format_add_outcome, friendly, legal_report,
    members_report, merge_addition, render_validation_errors, status_report, Addition, Refused,
};
use tzibbur_bridge::error::{AppError, ErrorField, ErrorItem, ErrorsDto};
use tzibbur_bridge::models::{
    AddMembersOutcome, AddedMember, Device, EnrollmentChallenge, GroupKind, Permission,
    RegisteredContact, Role,
};
use tzibbur_bridge::socket::SyncState;
use tzibbur_bridge::store::{GroupEntity, GroupWithUnread, LocalStore, MemberEntity};

fn account(status: AccountStatus) -> Account {
    Account {
        id: 7,
        user: 1,
        tzibbur_user_id: "tz-1".into(),
        phone_e164: Some("+12127365000".into()),
        display_name: Some("Dov <3".into()),
        device_id: None,
        encrypted_session: None,
        status,
        settings: None,
    }
}

fn conversation(account: i64) -> Conversation {
    Conversation {
        id: 42,
        account,
        group_id: "g".into(),
        telegram_chat_id: "100".into(),
        telegram_topic_id: Some("9".into()),
        name: Some("Shul & Co".into()),
        kind: Some("standard".into()),
        last_forwarded_seq: 0,
        closed: false,
    }
}

fn group() -> GroupEntity {
    GroupEntity {
        id: "g".into(),
        name: "Shul & Co".into(),
        category: "shul".into(),
        kind: GroupKind::Standard,
        who_can_post: Permission::everyone(),
        who_can_add_members: Permission::admins(),
        created_by: None,
        created_at: 1,
        my_role: Role::Admin,
        member_count: 2,
        muted: false,
        last_activity_at: None,
        last_message_preview: None,
        is_deleted: false,
        last_read_seq: 0,
    }
}

fn member(uid: &str, name: &str, role: Role) -> MemberEntity {
    MemberEntity {
        group_id: "g".into(),
        user_id: uid.into(),
        display_name: name.into(),
        phone_e164: None,
        role,
        joined_at: 1,
    }
}

fn facts(status: AccountStatus, running: bool) -> Facts {
    Facts {
        account: Some(account(status)),
        running,
        conversation: Some(conversation(7)),
    }
}

fn keys(r: &Reply) -> Vec<Vec<(String, String)>> {
    r.keyboard
        .iter()
        .map(|row| {
            row.iter()
                .map(|b| (b.label.clone(), b.data.clone()))
                .collect()
        })
        .collect()
}

fn key(label: &str, data: &str) -> (String, String) {
    (label.to_owned(), data.to_owned())
}

fn said(t: Task) -> Reply {
    match t {
        Task::Say(r) => r,
        other => panic!("{other:?}"),
    }
}

fn refused(t: Task) -> String {
    match t {
        Task::Refuse(m) => m,
        other => panic!("{other:?}"),
    }
}

#[test]
fn splits_on_whitespace() {
    let words: Vec<String> = (0..300).map(|i| format!("word{i}")).collect();
    let text = words.join(" ");
    let parts = split_for_tzibbur(&text, 1000);
    assert!(parts.len() >= 2);
    assert!(parts.iter().all(|p| p.chars().count() <= 1000));
    assert_eq!(parts.join(" ").split_whitespace().count(), 300);
    assert_eq!(split_for_tzibbur("short", 1000), vec!["short"]);
}

#[test]
fn splits_words_that_fit_nowhere() {
    assert_eq!(
        split_for_tzibbur("ab cdefghij k", 4),
        vec!["ab", "cdef", "ghij", " k"]
    );
    assert_eq!(split_for_tzibbur("aaa bbbb", 4), vec!["aaa", "bbbb"]);
    assert_eq!(split_for_tzibbur("a     ", 3), vec!["a"]);
}

#[test]
fn splitting_keeps_words_whole() {
    let text = "one  two\nthree four five";
    let parts = split_for_tzibbur(text, 9);
    assert_eq!(parts, vec!["one  two", "three", "four five"]);
    let words: Vec<&str> = parts.iter().flat_map(|p| p.split_whitespace()).collect();
    assert_eq!(words, text.split_whitespace().collect::<Vec<_>>());
    assert_eq!(split_for_tzibbur("aaaa bb", 4), vec!["aaaa", " bb"]);
}

#[test]
fn quotes_what_is_replied_to() {
    assert_eq!(
        quote_prefix(&Replied {
            text: "Dov\nhello there".into(),
            from_bot: true
        }),
        "↩ Dov: “hello there”\n"
    );
    assert_eq!(
        quote_prefix(&Replied {
            text: " mine ".into(),
            from_bot: false
        }),
        "↩ You: “mine”\n"
    );
    assert_eq!(
        quote_prefix(&Replied {
            text: "one line".into(),
            from_bot: true
        }),
        "↩ “one line”\n"
    );
    assert_eq!(
        quote_prefix(&Replied {
            text: "Dov\n  ".into(),
            from_bot: true
        }),
        ""
    );
    let long = "x".repeat(81);
    let quoted = quote_prefix(&Replied {
        text: long,
        from_bot: false,
    });
    assert_eq!(quoted, format!("↩ You: “{}…”\n", "x".repeat(80)));
}

#[test]
fn composes_quote_and_text() {
    let reply = Some(Replied {
        text: "Dov\nhi".into(),
        from_bot: true,
    });
    assert_eq!(
        compose("  yes  ", &reply).unwrap(),
        vec!["↩ Dov: “hi”\nyes"]
    );
    assert!(compose("   ", &reply).is_none());
    assert_eq!(compose("yes", &None).unwrap(), vec!["yes"]);
}

#[test]
fn commands_ask_for_what_they_need() {
    assert_eq!(need(&Command::Help), Need::Nothing);
    assert_eq!(need(&Command::Start), Need::Account);
    assert_eq!(need(&Command::Sync), Need::Runtime);
    assert_eq!(need(&Command::Leave), Need::Topic);
}

#[test]
fn commands_are_refused_without_a_connection() {
    let none = Facts {
        account: None,
        running: false,
        conversation: None,
    };
    assert_eq!(
        refused(on_command(Command::Sync, &none, "", "US")),
        "Not connected. Send /connect."
    );
    assert_eq!(
        refused(on_command(Command::Settings, &none, "", "US")),
        "Not connected. Send /connect."
    );
    let expired = facts(AccountStatus::ReauthRequired, false);
    assert_eq!(
        refused(on_command(Command::Chats, &expired, "", "US")),
        "Your session expired. Send /reconnect."
    );
    let gone = facts(AccountStatus::Disconnected, false);
    assert_eq!(
        refused(on_command(Command::Devices, &gone, "", "US")),
        "Not connected. Send /connect."
    );
    let stopped = facts(AccountStatus::Connected, false);
    assert_eq!(
        refused(on_command(Command::Sync, &stopped, "", "US")),
        "account 7 is not running"
    );
}

#[test]
fn topic_commands_need_the_right_topic() {
    let mut f = facts(AccountStatus::Connected, true);
    f.conversation = None;
    assert_eq!(
        refused(on_command(Command::Group, &f, "", "US")),
        "Send this inside a group topic."
    );
    f.conversation = Some(conversation(8));
    assert_eq!(
        refused(on_command(Command::Mute, &f, "", "US")),
        "This topic belongs to another account."
    );
    f.conversation = Some(conversation(7));
    assert!(matches!(
        on_command(Command::Group, &f, "", "US"),
        Task::Card
    ));
    let leave = said(on_command(Command::Leave, &f, "", "US"));
    assert_eq!(leave.text, "Leave <b>Shul &amp; Co</b>?");
    assert_eq!(
        keys(&leave),
        vec![vec![key("Leave", "leave:42"), key("Cancel", "noop")]]
    );
}

#[test]
fn start_welcomes_by_status() {
    let none = Facts {
        account: None,
        running: false,
        conversation: None,
    };
    let r = said(on_command(Command::Start, &none, "", "US"));
    assert!(r.text.starts_with("<b>Tzibbur for Telegram</b>"));
    assert_eq!(keys(&r), vec![vec![key("Connect", "connect")]]);
    let on = said(on_command(
        Command::Start,
        &facts(AccountStatus::Connected, true),
        "",
        "US",
    ));
    assert_eq!(
        on.text,
        "Signed in as <b>Dov &lt;3</b>. Your groups are the topics in this chat. Reply in a topic to post there.\n\n/chats, /newgroup, /settings, /help"
    );
    assert!(on.keyboard.is_empty());
    let expired = said(on_command(
        Command::Start,
        &facts(AccountStatus::ReauthRequired, false),
        "",
        "US",
    ));
    assert_eq!(
        expired.text,
        "Your session expired. Send /reconnect to sign in again."
    );
}

#[test]
fn connecting_twice_is_refused() {
    let f = facts(AccountStatus::Connected, true);
    assert_eq!(
        said(on_command(Command::Connect, &f, "", "US")).text,
        "Already connected. Send /disconnect first to switch accounts."
    );
    match on_command(
        Command::Reconnect,
        &facts(AccountStatus::ReauthRequired, false),
        "",
        "US",
    ) {
        Task::Begin { state, reply } => {
            assert!(matches!(state, State::AwaitPhone));
            assert_eq!(
                reply.text,
                "Send your phone number, for example +1 555 010 0123."
            );
        }
        other => panic!("{other:?}"),
    }
}

#[test]
fn simple_commands_answer_at_once() {
    let f = facts(AccountStatus::Connected, true);
    assert_eq!(
        said(on_command(Command::Help, &f, "a <b>", "US")).text,
        "a &lt;b&gt;"
    );
    assert!(matches!(
        on_command(Command::Cancel, &f, "", "US"),
        Task::Cancel(r) if r.text == "Cancelled."
    ));
    assert_eq!(
        keys(&said(on_command(Command::Disconnect, &f, "", "US"))),
        vec![
            vec![
                key("Disconnect", "disc:keep"),
                key("Disconnect and erase", "disc:purge")
            ],
            vec![key("Cancel", "noop")],
        ]
    );
    assert_eq!(
        said(on_command(
            Command::Disconnect,
            &facts(AccountStatus::Disconnected, false),
            "",
            "US"
        ))
        .text,
        "Not connected."
    );
    assert!(said(on_command(Command::Privacy, &f, "", "US"))
        .text
        .starts_with("<b>What this bot stores</b>"));
    assert!(matches!(
        on_command(Command::Donate, &f, "", "US"),
        Task::Donate
    ));
}

#[test]
fn rename_and_name_validate() {
    let f = facts(AccountStatus::Connected, true);
    assert!(matches!(
        on_command(Command::Rename(" New ".into()), &f, "", "US"),
        Task::Rename { name } if name == "New"
    ));
    assert!(matches!(
        on_command(Command::Rename(" ".into()), &f, "", "US"),
        Task::Begin { state: State::AwaitRename { conv_id: 42 }, .. }
    ));
    assert_eq!(
        said(on_command(Command::Rename("x".repeat(101)), &f, "", "US")).text,
        "Too long: 101 characters, the limit is 100."
    );
    assert!(matches!(
        on_command(Command::Name("Dov".into()), &f, "", "US"),
        Task::SetName { name } if name == "Dov"
    ));
    assert_eq!(
        said(on_command(Command::Name("".into()), &f, "", "US")).text,
        "Send /name followed by the new name."
    );
    assert_eq!(
        said(on_command(Command::Name("x".repeat(65)), &f, "", "US")).text,
        "Too long: 65 characters, the limit is 64."
    );
}

#[test]
fn add_and_contacts_read_numbers() {
    let f = facts(AccountStatus::Connected, true);
    match on_command(
        Command::Add("212-736-5000, abc".into()),
        &f,
        "",
        "US",
    ) {
        Task::AddMembers { phones, note } => {
            assert_eq!(phones, vec!["+12127365000"]);
            assert_eq!(note.as_deref(), Some("Not phone numbers: abc"));
        }
        other => panic!("{other:?}"),
    }
    assert_eq!(
        said(on_command(Command::Add("abc".into()), &f, "", "US")).text,
        "Send /add followed by phone numbers, inside a group topic."
    );
    match on_command(Command::Contacts("0501234567".into()), &f, "", "IL") {
        Task::Contacts { phones, bad } => {
            assert_eq!(phones, vec!["+972501234567"]);
            assert!(bad.is_empty());
        }
        other => panic!("{other:?}"),
    }
}

#[test]
fn messages_are_routed() {
    let mut f = facts(AccountStatus::Connected, true);
    match on_message(&f, Some(" hello "), &None) {
        Routing::Send { parts, notice } => {
            assert_eq!(parts, vec!["hello"]);
            assert!(notice.is_none());
        }
        other => panic!("{other:?}"),
    }
    match on_message(&f, Some(&"word ".repeat(300)), &None) {
        Routing::Send { parts, notice } => {
            assert_eq!(parts.len(), 2);
            assert_eq!(
                notice.as_deref(),
                Some("ℹ️ Long message — sending it as 2 parts.")
            );
        }
        other => panic!("{other:?}"),
    }
    assert!(matches!(on_message(&f, Some("  "), &None), Routing::Ignore));
    assert!(matches!(
        on_message(&f, None, &None),
        Routing::Answer(r) if r.text.starts_with("ℹ️ Tzibbur is text-only")
    ));
    f.running = false;
    assert!(matches!(
        on_message(&f, Some("x"), &None),
        Routing::Answer(r) if r.text == "account 7 is not running"
    ));
    f.running = true;
    f.conversation = Some(conversation(8));
    assert!(matches!(on_message(&f, Some("x"), &None), Routing::Ignore));
    f.conversation = None;
    assert!(matches!(
        on_message(&f, Some("x"), &None),
        Routing::Stray(r) if r.text == "To write to a group, open its topic. /help lists commands."
    ));
    assert_eq!(
        private_only("untzibburbot").text,
        "This bot works in a private chat. Open @untzibburbot directly."
    );
}

#[test]
fn commands_are_taken_up_in_private_chats() {
    assert!(admission(true, "untzibburbot").is_none());
    assert_eq!(
        admission(false, "untzibburbot").unwrap().text,
        "This bot works in a private chat. Open @untzibburbot directly."
    );
}

#[test]
fn small_answers() {
    assert_eq!(mute_answer(true).text, "Unmuted.");
    assert_eq!(mute_answer(false).text, "Muted.");
    assert_eq!(name_answer("A<b>").text, "Your name is now <b>A&lt;b&gt;</b>.");
    assert_eq!(sync_answer(&None).text, "Synced.");
    assert_eq!(sync_answer(&Some("a&b".into())).text, "Sync failed: a&amp;b");
    assert_eq!(trouble("Could not leave: ", "<x>").text, "Could not leave: &lt;x&gt;");
    assert_eq!(
        legal_missing("terms", "not found").text,
        "Could not fetch terms: not found"
    );
}

#[test]
fn settings_switch_back_and_forth() {
    let s = AccountSettings::default();
    let once = toggled(s, "auto_topics");
    assert!(!once.auto_topics);
    assert_eq!(toggled(once, "auto_topics"), s);
    assert_eq!(toggled(s, "unknown"), s);
    assert_eq!(
        keys(&settings_kb(once)),
        vec![
            vec![key(
                "[off] Auto-create topics for new groups",
                "set:auto_topics"
            )],
            vec![key(
                "[on] Show phone numbers for unnamed senders",
                "set:show_phone_numbers"
            )],
            vec![key("Done", "noop")],
        ]
    );
}

#[test]
fn buttons_mean_what_they_say() {
    assert!(matches!(parse_callback("noop"), Callback::Close));
    assert!(matches!(parse_callback("reconnect"), Callback::Connect));
    assert!(matches!(
        parse_callback("disc:purge"),
        Callback::Disconnect { purge: true }
    ));
    assert!(matches!(
        parse_callback("disc:keep"),
        Callback::Disconnect { purge: false }
    ));
    assert!(matches!(parse_callback("cat:shul"), Callback::Category { slug } if slug == "shul"));
    assert!(matches!(
        parse_callback("leave:42"),
        Callback::Leave { conversation: 42 }
    ));
    assert!(matches!(
        parse_callback("leave:x"),
        Callback::Leave { conversation: 0 }
    ));
    assert!(matches!(parse_callback("set:a"), Callback::Setting { name } if name == "a"));
    assert!(matches!(parse_callback("what"), Callback::Unknown));
    assert!(matches!(
        parse_callback(&group_action(42, "members")),
        Callback::Group
    ));
    assert!(matches!(
        parse_group_callback(&group_action(-42, "del1")),
        Ok(GroupCallback::Card {
            conversation: -42,
            action: CardAction::AskDelete
        })
    ));
    assert!(matches!(
        parse_group_callback("g:1:whatever"),
        Ok(GroupCallback::Card {
            conversation: 1,
            action: CardAction::Card
        })
    ));
    assert!(matches!(
        parse_group_callback("m:1:u-2"),
        Ok(GroupCallback::Member { conversation: 1, user_id }) if user_id == "u-2"
    ));
    assert!(matches!(
        parse_group_callback("ma:1:u-2:r"),
        Ok(GroupCallback::MemberAct { conversation: 1, user_id, action: MemberAction::Remove })
            if user_id == "u-2"
    ));
    assert!(matches!(
        parse_group_callback("g:1"),
        Ok(GroupCallback::Nothing)
    ));
    assert_eq!(
        parse_group_callback("g:one:card").unwrap_err(),
        "invalid digit found in string"
    );
    assert_eq!(number_in("17").unwrap(), 17);
    assert_eq!(
        number_in("").unwrap_err(),
        "cannot parse integer from empty string"
    );
}

#[test]
fn member_actions_have_roles_and_toasts() {
    assert_eq!(MemberAction::Promote.role(), Some(Role::Admin));
    assert_eq!(MemberAction::Demote.role(), Some(Role::Member));
    assert_eq!(MemberAction::Remove.role(), None);
    assert_eq!(MemberAction::Promote.toast(), "Promoted to admin");
    assert_eq!(MemberAction::Nothing.toast(), "");
    assert_eq!(read_toast(3), "Marked read");
    assert_eq!(read_toast(0), "Nothing to mark");
    assert_eq!(mute_toast(true), "Unmuted");
    assert_eq!(read_answer(0).text, "Nothing to mark.");
    assert_eq!(error_toast(&"e".repeat(200)).len(), 180);
}

#[test]
fn conversations_belong_to_their_account() {
    let a = Some(account(AccountStatus::Connected));
    let c = Some(conversation(7));
    assert!(own_conversation(&a, &c, true).is_ok());
    assert_eq!(
        own_conversation(&None, &c, true).unwrap_err(),
        "not connected"
    );
    assert_eq!(
        own_conversation(&a, &None, true).unwrap_err(),
        "unknown group"
    );
    assert_eq!(
        own_conversation(&a, &Some(conversation(8)), true).unwrap_err(),
        "not your group"
    );
    assert_eq!(
        own_conversation(&a, &c, false).unwrap_err(),
        "account 7 is not running"
    );
    assert!(owns(&a, &c));
    assert!(!owns(&a, &Some(conversation(8))));
    assert!(!owns(&None, &c) && !owns(&a, &None));
}

#[test]
fn group_card_for_an_admin() {
    let r = card(&group(), &None, 42);
    assert_eq!(
        r.text,
        "<b>Shul &amp; Co</b>\nshul · 2 member(s) · you are an admin\nWho can post: <b>everyone</b> · Who can add members: <b>admins</b>\nMax message: 1000 characters\n"
    );
    assert_eq!(
        keys(&r),
        vec![
            vec![key("Members", "g:42:members"), key("Add members", "g:42:add")],
            vec![key("Rename", "g:42:rename")],
            vec![
                key("Post: everyone ", "g:42:post"),
                key("Add: admins ", "g:42:addm")
            ],
            vec![
                key("Mark read", "g:42:read"),
                key("Mute", "g:42:mute"),
                key("Leave", "g:42:leave")
            ],
            vec![key("Delete group…", "g:42:del1")],
            vec![key("Close", "noop")],
        ]
    );
}

#[test]
fn group_card_for_a_system_thread() {
    let mut g = group();
    g.kind = GroupKind::System;
    g.my_role = Role::Member;
    g.muted = true;
    let r = card(&g, &None, 42);
    assert!(r
        .text
        .ends_with("you are a member · muted\nSystem announcements thread — read-only.\n"));
    assert_eq!(
        keys(&r),
        vec![
            vec![key("Mark read", "g:42:read"), key("Unmute", "g:42:mute")],
            vec![key("Close", "noop")],
        ]
    );
}

#[test]
fn permissions_flip() {
    assert_eq!(perm_label(&Permission::admins()), "admins");
    assert_eq!(perm_label(&Permission("ADMINS".into())), "admins");
    assert_eq!(perm_label(&Permission("owner".into())), "everyone");
    assert_eq!(flip(&Permission::admins()).as_str(), "everyone");
    assert_eq!(flip(&Permission::everyone()).as_str(), "admins");
}

#[test]
fn members_are_listed_with_buttons_for_admins() {
    let members = vec![
        member("tz-1", "Dov", Role::Admin),
        member("u-2", "Ann", Role::Member),
        member("00000000-0000-7000-8000-000000000001", "Tzibbur", Role::Member),
    ];
    let r = members_view(&group(), &members, "tz-1", 42);
    assert_eq!(
        r.text,
        "<b>Shul &amp; Co</b> — 3 member(s)\n• Dov  (you)\n• Ann\n• Tzibbur\n\nTap a member to promote, demote or remove."
    );
    assert_eq!(
        keys(&r),
        vec![
            vec![key("Ann", "m:42:u-2")],
            vec![key("Back", "g:42:card"), key("Close", "noop")],
        ]
    );
    assert_eq!(pick_member(&members, "u-2").unwrap().display_name, "Ann");
    assert_eq!(pick_member(&members, "u-9").unwrap_err(), "member not found");
    let menu = member_menu(42, "Ann", "u-2", Role::Member);
    assert_eq!(menu.text, "<b>Ann</b> — member");
    assert_eq!(keys(&menu)[0], vec![key("Make admin", "ma:42:u-2:a")]);
    assert_eq!(
        members_report(&None, &members, "tz-1"),
        "<b>Group</b> — 3 member(s)\n• Dov (admin) — you\n• Ann\n• Tzibbur\n"
    );
}

#[test]
fn deletion_asks_admins_only() {
    let mut g = group();
    assert_eq!(
        ask_delete(&g, 42).text,
        "Delete <b>Shul &amp; Co</b> for everyone? This cannot be undone."
    );
    g.my_role = Role::Member;
    assert_eq!(ask_delete(&g, 42).text, "Only admins can delete a group.");
    assert_eq!(
        keys(&ask_delete_card(&conversation(7))),
        vec![vec![
            key("Delete for everyone", "g:42:del2"),
            key("Cancel", "g:42:card")
        ]]
    );
}

#[test]
fn muting_toggles() {
    let mut s = LocalStore::new();
    assert_eq!(toggle_mute(&mut s, "g").unwrap_err(), "group not cached");
    s.upsert_group(&group());
    assert_eq!(toggle_mute(&mut s, "g").unwrap(), false);
    assert!(s.get_group("g").unwrap().muted);
    assert_eq!(toggle_mute(&mut s, "g").unwrap(), true);
}

#[test]
fn phone_step_of_the_sign_in() {
    match on_phone(&None, 1, "212-736-5000", "US") {
        Step::Move {
            state: State::AwaitName { phone },
            reply,
        } => {
            assert_eq!(phone, "+12127365000");
            assert!(reply.text.starts_with("Number: <b>+12127365000</b>."));
        }
        other => panic!("{other:?}"),
    }
    let foreign = Some(SharedContact {
        user_id: Some(2),
        phone: "+12127365000".into(),
    });
    assert!(matches!(
        on_phone(&foreign, 1, "", "US"),
        Step::Stay(r) if r.text == "That is someone else's contact. Send your own number."
    ));
    let own = Some(SharedContact {
        user_id: Some(1),
        phone: "+12127365000".into(),
    });
    assert!(matches!(on_phone(&own, 1, "", "US"), Step::Move { .. }));
    assert!(matches!(
        phone_read(Err("no".into())),
        Step::Stay(r) if r.text.starts_with("That is not a phone number.")
    ));
}

#[test]
fn name_step_of_the_sign_in() {
    assert_eq!(on_name(" SKIP ").unwrap(), None);
    assert_eq!(on_name("-").unwrap(), None);
    assert_eq!(on_name(" Dov ").unwrap().as_deref(), Some("Dov"));
    assert_eq!(on_name(" ").unwrap_err().text, "Send a name, or skip.");
    assert_eq!(
        on_name(&"x".repeat(65)).unwrap_err().text,
        "Too long: 65 characters, the limit is 64."
    );
    let challenge = EnrollmentChallenge {
        challenge_id: "ch".into(),
        expires_at_epoch_ms: None,
        expires_in_seconds: None,
        resend_after_seconds: Some(30),
        extra: vec![],
    };
    match code_requested(Ok(challenge), "+1".into(), None) {
        Step::Move {
            state: State::AwaitCode { failures, .. },
            reply,
        } => {
            assert_eq!(failures, 0);
            assert_eq!(
                reply.text,
                "Code sent by SMS. Send the 6 digits here. A new code can be requested after 30 seconds."
            );
        }
        other => panic!("{other:?}"),
    }
    match code_requested(
        Err(AppError::SmsDeliveryFailed { request_id: None }),
        "+1".into(),
        None,
    ) {
        Step::Leave(r) => assert_eq!(
            r.text,
            "Could not start sign-in: Tzibbur could not send an SMS to that number. Send /connect to try again."
        ),
        other => panic!("{other:?}"),
    }
}

#[test]
fn three_wrong_codes_end_the_sign_in() {
    assert_eq!(on_code("12 34 56").unwrap(), "123456");
    assert_eq!(
        on_code("12345").unwrap_err().text,
        "Send the 6-digit code, or /cancel."
    );
    let wrong = || Err(AppError::InvalidCode { request_id: None });
    match code_checked(wrong(), "ch".into(), "+1".into(), None, 0) {
        Checked::Answer(Step::Move {
            state: State::AwaitCode { failures, .. },
            reply,
        }) => {
            assert_eq!(failures, 1);
            assert_eq!(reply.text, "Wrong code. Try again, or /cancel.");
        }
        other => panic!("{other:?}"),
    }
    match code_checked(wrong(), "ch".into(), "+1".into(), None, 2) {
        Checked::Answer(Step::Leave(r)) => assert_eq!(
            r.text,
            "Wrong code three times. Send /connect for a new one."
        ),
        other => panic!("{other:?}"),
    }
    let down = Err(AppError::Network {
        message: "x".into(),
    });
    match code_checked(down, "ch".into(), "+1".into(), None, 0) {
        Checked::Answer(Step::Leave(r)) => assert_eq!(
            r.text,
            "Sign-in failed: Tzibbur is unreachable. Try again shortly. Send /connect to start over."
        ),
        other => panic!("{other:?}"),
    }
}

#[test]
fn new_group_step_by_step() {
    assert_eq!(on_group_name(" A ").unwrap(), "A");
    assert_eq!(on_group_name("").unwrap_err().text, "Group name?");
    assert_eq!(
        on_rename("").unwrap_err().text,
        "Send the new name, or /cancel."
    );
    assert_eq!(
        on_rename(&"x".repeat(101)).unwrap_err().text,
        "Too long (101 characters, max 100)."
    );
    match ask_category("A & B".into(), &default_categories()) {
        Step::Move {
            state: State::AwaitGroupCategory { name },
            reply,
        } => {
            assert_eq!(name, "A & B");
            assert_eq!(reply.text, "Category for <b>A &amp; B</b>?");
            assert_eq!(
                keys(&reply),
                vec![
                    vec![
                        key("family", "cat:family"),
                        key("neighborhood", "cat:neighborhood"),
                        key("shul", "cat:shul")
                    ],
                    vec![key("school", "cat:school"), key("other", "cat:other")],
                ]
            );
        }
        other => panic!("{other:?}"),
    }
    let waiting = State::AwaitGroupCategory { name: "A".into() };
    assert!(matches!(
        category_chosen(waiting, "shul"),
        Some(Step::Move { state: State::AwaitGroupPhones { category, .. }, .. }) if category == "shul"
    ));
    assert!(category_chosen(State::Idle, "shul").is_none());
    assert!(matches!(
        on_group_phones("Skip", "US"),
        Numbers::Given { phones, note: None } if phones.is_empty()
    ));
    assert!(matches!(
        on_group_phones("abc", "US"),
        Numbers::Missing(r) if r.text == "Send the members' phone numbers, or skip."
    ));
    match on_add_phones("212-736-5000\nabc", "US") {
        Numbers::Given { phones, note } => {
            assert_eq!(phones, vec!["+12127365000"]);
            assert_eq!(
                note.as_deref(),
                Some("Skipping (not valid numbers): abc\n")
            );
        }
        other => panic!("{other:?}"),
    }
    assert_eq!(created_report("A", None), "Created <b>A</b>.\n");
    assert!(created_report("A", Some(3)).contains("<b>3</b> members"));
}

#[test]
fn validation_errors_are_readable() {
    let items = Some(ErrorsDto::Items(vec![
        ErrorItem {
            path: "/phone".into(),
            message: "bad".into(),
        },
        ErrorItem {
            path: "".into(),
            message: "".into(),
        },
        ErrorItem {
            path: "".into(),
            message: "also bad".into(),
        },
    ]));
    assert_eq!(render_validation_errors(&items), "phone: bad; also bad");
    let fields = Some(ErrorsDto::Fields(vec![ErrorField {
        name: "limit".into(),
        text: "5".into(),
        number: Some(5),
    }]));
    assert_eq!(render_validation_errors(&fields), "limit: 5");
    assert_eq!(render_validation_errors(&None), "invalid input");
    assert_eq!(
        render_validation_errors(&Some(ErrorsDto::Items(vec![]))),
        "invalid input"
    );
    assert_eq!(
        render_validation_errors(&Some(ErrorsDto::Text("true".into()))),
        "true"
    );
    assert_eq!(
        friendly(&AppError::ValidationFailed {
            request_id: None,
            errors: items
        }),
        "Tzibbur rejected it: phone: bad; also bad."
    );
    assert_eq!(
        friendly(&AppError::RateLimited {
            retry_after_seconds: None,
            request_id: None
        }),
        "Too many attempts. Try again in 60 seconds."
    );
    assert_eq!(
        friendly(&AppError::GroupTooSmall {
            min_members: None,
            request_id: None
        }),
        "The group needs at least 3 members before anyone can post."
    );
    assert_eq!(
        friendly(&AppError::InvalidDisplayName {
            max_length: 64,
            request_id: None
        }),
        "Invalid name; the limit is 64 characters."
    );
    assert_eq!(
        friendly(&AppError::NotFound { request_id: None }),
        "not found"
    );
}

#[test]
fn additions_are_reported() {
    let mut out = AddMembersOutcome::default();
    assert_eq!(format_add_outcome(&out), "Nothing changed.");
    out.added.push(AddedMember::Phone("+1<2".into()));
    out.added.push(AddedMember::Phone("+3".into()));
    out.already_member.push("+4".into());
    out.not_found.push("+5".into());
    assert_eq!(
        format_add_outcome(&out),
        "Added: +1&lt;2, +3\nℹ️ Already members: +4\nNot on Tzibbur: +5\n"
    );
    assert_eq!(format_add_failures(&vec![]), "");
    assert_eq!(
        format_add_failures(&vec![Refused {
            phone: "+1".into(),
            why: "a & b".into()
        }]),
        "Refused by Tzibbur: +1 (a &amp; b)\n"
    );
}

#[test]
fn one_bad_number_does_not_sink_the_rest() {
    let phones = vec!["+1".to_string(), "+2".to_string()];
    let invalid = || AppError::ValidationFailed {
        request_id: None,
        errors: None,
    };
    assert!(matches!(
        after_first_addition(&phones, Err(invalid())),
        Addition::OneByOne
    ));
    assert!(matches!(
        after_first_addition(&phones, Ok(AddMembersOutcome::default())),
        Addition::Done(_)
    ));
    match after_first_addition(
        &phones,
        Err(AppError::Network {
            message: "x".into(),
        }),
    ) {
        Addition::Failed(v) => {
            assert_eq!(v.len(), 2);
            assert_eq!(v[1].phone, "+2");
            assert_eq!(v[1].why, "Tzibbur is unreachable. Try again shortly.");
        }
        other => panic!("{other:?}"),
    }
    match after_first_addition(&vec!["+1".to_string()], Err(invalid())) {
        Addition::Failed(v) => assert_eq!(v[0].why, "Tzibbur rejected it: invalid input."),
        other => panic!("{other:?}"),
    }
    let mut out = AddMembersOutcome::default();
    let mut failed = vec![];
    merge_addition(&mut out, &mut failed, "+1", Err(invalid()));
    let mut one = AddMembersOutcome::default();
    one.not_found.push("+2".into());
    merge_addition(&mut out, &mut failed, "+2", Ok(one));
    assert_eq!(failed.len(), 1);
    assert_eq!(failed[0].phone, "+1");
    assert_eq!(out.not_found, vec!["+2"]);
}

#[test]
fn accounts_and_groups_are_reported() {
    assert_eq!(
        status_report(&None, None, 0, false),
        "Not connected. Send /connect."
    );
    assert_eq!(
        status_report(
            &Some(account(AccountStatus::Connected)),
            Some(SyncState::BackingOff),
            3,
            true
        ),
        "Account: <b>Dov &lt;3</b> (+12127365000)\nStatus: connected\nSync: BackingOff\nGroups cached: 3\nTopics: enabled"
    );
    assert_eq!(
        chats_report(&vec![]),
        "No groups yet. Send /newgroup to create one."
    );
    assert_eq!(
        chats_report(&vec![GroupWithUnread {
            group: group(),
            unread_count: 2,
            max_seq: Some(9)
        }]),
        "<b>Your Tzibbur groups</b>\n• Shul &amp; Co — 2 member(s) · 2 unread\n"
    );
    assert_eq!(
        legal_report("terms", "# <T>"),
        "<b>terms</b>\n<pre># &lt;T&gt;</pre>"
    );
}

#[test]
fn contacts_are_reported() {
    let contact = |p: &str| RegisteredContact {
        phone_e164: Some(p.into()),
        user_id: None,
        display_name: None,
        extra: vec![],
    };
    assert_eq!(
        contacts_report(
            &vec![contact("+1")],
            &vec!["+1".into(), "+2".into()],
            &vec!["x".into()]
        ),
        "On Tzibbur: +1\nNot on Tzibbur: +2\nNot phone numbers: x"
    );
}

#[test]
fn devices_show_when_they_were_seen() {
    let d = Device {
        id: "d".into(),
        name: None,
        platform: Some("android".into()),
        app_version: None,
        device_model: Some("Pixel 7".into()),
        user_id: None,
        imei: None,
        serial_number: None,
        created_at: None,
        last_seen_at: Some(1767323045000),
        extra: vec![],
    };
    assert_eq!(
        device_line(&d, &None),
        "• android Pixel 7 — last seen never\n"
    );
    assert_eq!(
        devices_report(&vec![d]),
        "<b>Your Tzibbur devices</b> (1)\n• android Pixel 7 — last seen 2026-01-02 03:04 UTC\n\nThe bridge itself shows up as one of these (android · Pixel 7 by default)."
    );
}

#[test]
fn sign_ins_are_limited_per_user_and_hour() {
    let mut l = AuthLimiter::new();
    for i in 0..5 {
        assert!(l.allow_auth(1, AuthKind::Request, i));
    }
    assert!(!l.allow_auth(1, AuthKind::Request, 5));
    assert!(l.allow_auth(2, AuthKind::Request, 5));
    for i in 0..15 {
        assert!(l.allow_auth(1, AuthKind::Attempt, i));
    }
    assert!(!l.allow_auth(1, AuthKind::Attempt, 20));
    assert!(l.allow_auth(1, AuthKind::Request, 3_600_000));
    assert!(!l.allow_auth(1, AuthKind::Request, 3_600_000));
}

#[test]
fn a_new_sign_in_replaces_another_identity() {
    assert_eq!(before_connect(&None, "tz-1"), Before::Nothing);
    let a = Some(account(AccountStatus::Connected));
    assert_eq!(before_connect(&a, "tz-1"), Before::Stop { account: 7 });
    assert_eq!(before_connect(&a, "tz-2"), Before::Replace { account: 7 });
    assert_eq!(after_disconnect(true), None);
    assert_eq!(after_disconnect(false), Some(AccountStatus::Disconnected));
}

const TOKEN: &str = "123:abc";
const DATA: &str = "auth_date=1700000000&user=%7B%22id%22%3A1%2C%22first_name%22%3A%22A+B%22%7D&query_id=q1";
const HASH: &str = "d724940643447647956870ada3c25a22bb1ea237c6d37d07a12955c55089e316";

#[test]
fn signed_data_is_accepted() {
    let data = format!("{DATA}&hash={HASH}");
    assert_eq!(
        verify_init_data(&data, TOKEN, 1_700_000_100, 3600).unwrap(),
        "{\"id\":1,\"first_name\":\"A B\"}"
    );
    let upper = format!("hash={}&{DATA}", HASH.to_uppercase());
    assert!(verify_init_data(&upper, TOKEN, 1_700_003_600, 3600).is_ok());
}

#[test]
fn tampered_or_old_data_is_refused() {
    let data = format!("{DATA}&hash={HASH}");
    assert_eq!(
        verify_init_data(&data, TOKEN, 1_700_003_601, 3600).unwrap_err(),
        "initData expired"
    );
    assert_eq!(
        verify_init_data(&data, "123:abd", 1_700_000_100, 3600).unwrap_err(),
        "initData signature mismatch"
    );
    assert_eq!(
        verify_init_data(&data.replace("q1", "q2"), TOKEN, 1_700_000_100, 3600).unwrap_err(),
        "initData signature mismatch"
    );
    assert_eq!(
        verify_init_data(DATA, TOKEN, 1_700_000_100, 3600).unwrap_err(),
        "initData without hash"
    );
}

#[test]
fn signed_pairs_are_ordered() {
    let pair = |n: &str, v: &str| Pair {
        name: n.into(),
        value: v.into(),
    };
    let pairs = vec![
        pair("b", "2"),
        pair("hash", "AB"),
        pair("a", "2"),
        pair("a", "1"),
    ];
    assert_eq!(signed_text(&pairs), "a=1\na=2\nb=2");
    assert_eq!(
        accept(&pairs, "ab", 10, 20).unwrap_err(),
        "initData without user"
    );
    assert_eq!(
        accept(&vec![pair("hash", "ab"), pair("user", "{}")], "ab", 10, 20).unwrap(),
        "{}"
    );
}

#[test]
fn the_login_page_is_checked() {
    let user = Ok("{}".to_string());
    let bad = Err("initData expired".to_string());
    let e = api_start(&bad, "+1", &None, "US").unwrap_err();
    assert_eq!((e.status, e.error.as_str()), (401, "initData expired"));
    let e = api_start(&user, "hello", &None, "US").unwrap_err();
    assert_eq!(e.status, 400);
    assert!(e.error.starts_with("phone: "));
    let q = api_start(&user, "212 736 5000", &Some("  ".into()), "US").unwrap();
    assert_eq!(q.phone, "+12127365000");
    assert!(q.display_name.is_none());
    let e = api_verify(&user, "ch", "x", "12", &None, "US").unwrap_err();
    assert_eq!((e.status, e.error.as_str()), (400, "code must be 6 digits"));
    let q = api_verify(&user, "ch", "x", "12-34-56", &Some(" Dov ".into()), "US").unwrap();
    assert_eq!(
        (q.challenge_id.as_str(), q.code.as_str(), q.phone.as_str()),
        ("ch", "123456", "x")
    );
    assert_eq!(q.display_name.as_deref(), Some("Dov"));
    assert_eq!(
        login_refused(&AppError::InvalidCode { request_id: None }).status,
        401
    );
    let r = login_refused(&AppError::NotFound { request_id: None });
    assert_eq!((r.status, r.error.as_str()), (502, "not found"));
}
