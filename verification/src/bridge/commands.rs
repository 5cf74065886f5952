//! The commands of the bot: who may use them where, and what each leads to.

use crate::bridge::cards::{group_action, group_data};
use crate::bridge::compose::{compose, composed, parts_notice, Replied};
use crate::bridge::dialogue::{numbers_in, State, ASK_PHONE};
use crate::bridge::format::{escape_html, escaped};
use crate::bridge::outbound::cached;
use crate::bridge::phone::parse_phone_list;
use crate::bridge::records::{
    settings_in_members, Account, AccountSettings, AccountStatus, Conversation,
};
use crate::bridge::reply::{
    add_row, ask, button, face, fixed, no_rows, one, plain, say, say_text, two, Face, Key, Reply,
};
use crate::bridge::reports::{
    bad_numbers, listed, too_long, too_long_text, PRIVACY_TEXT,
};
use crate::constants::{DEFAULT_MAX_DISPLAY_NAME, DEFAULT_MAX_GROUP_NAME};
use crate::models::{opt_text, Role};
use crate::numbers::{decimal, decimal_int, show_i64};
use crate::store::local::{group_pos, log, LocalStore};
use crate::store::{Change, GroupEntity};
use crate::text::{same, texts, trim};
use crate::validation::{validate_display_name, validate_group_name, TextValidation};
use vstd::prelude::*;

verus! {

/// A command of the bot.
#[derive(Debug)]
pub enum Command {
    Start,
    Connect,
    Reconnect,
    Chats,
    NewGroup,
    Group,
    Add(String),
    Rename(String),
    Manage,
    DeleteGroup,
    Read,
    Contacts(String),
    Devices,
    Members,
    Leave,
    Mute,
    Name(String),
    Settings,
    Status,
    Sync,
    Disconnect,
    Donate,
    Legal,
    Privacy,
    Cancel,
    Help,
}

/// What has to be known before a command can be answered.
#[derive(Debug, Clone, Copy, PartialEq, Eq, Structural)]
pub enum Need {
    Nothing,
    /// The user's account, if there is one.
    Account,
    /// The user's account, connected and running.
    Runtime,
    /// That, and the group whose topic the command was sent in.
    Topic,
}

/// What has to be known before a command can be answered.
pub open spec fn need_of(c: Command) -> Need {
    match c {
        Command::Help
        | Command::Cancel
        | Command::Donate
        | Command::Privacy
        | Command::Legal => Need::Nothing,
        Command::Start
        | Command::Connect
        | Command::Reconnect
        | Command::Disconnect
        | Command::Status
        | Command::Settings => Need::Account,
        Command::Sync
        | Command::Chats
        | Command::NewGroup
        | Command::Contacts(_)
        | Command::Devices
        | Command::Name(_) => Need::Runtime,
        Command::Add(_)
        | Command::Group
        | Command::Rename(_)
        | Command::Manage
        | Command::DeleteGroup
        | Command::Read
        | Command::Members
        | Command::Leave
        | Command::Mute => Need::Topic,
    }
}

/// What has to be known before a command can be answered.
pub fn need(c: &Command) -> (r: Need)
    ensures
        r == need_of(*c),
{
    match c {
        Command::Help
        | Command::Cancel
        | Command::Donate
        | Command::Privacy
        | Command::Legal => Need::Nothing,
        Command::Start
        | Command::Connect
        | Command::Reconnect
        | Command::Disconnect
        | Command::Status
        | Command::Settings => Need::Account,
        Command::Sync
        | Command::Chats
        | Command::NewGroup
        | Command::Contacts(_)
        | Command::Devices
        | Command::Name(_) => Need::Runtime,
        Command::Add(_)
        | Command::Group
        | Command::Rename(_)
        | Command::Manage
        | Command::DeleteGroup
        | Command::Read
        | Command::Members
        | Command::Leave
        | Command::Mute => Need::Topic,
    }
}

/// What is known about the sender of a message, and the topic it was sent in.
#[derive(Debug)]
pub struct Facts {
    pub account: Option<Account>,
    /// The account's connection is running.
    pub running: bool,
    pub conversation: Option<Conversation>,
}

/// The notice that an account is not running.
pub open spec fn stopped_text(account: i64) -> Seq<char> {
    "account "@ + decimal_int(account as int) + " is not running"@
}

/// The notice that an account is not running.
pub fn stopped(account: i64) -> (r: String)
    ensures
        r@ == stopped_text(account),
{
    "account ".to_owned().concat(show_i64(account).as_str()).concat(" is not running")
}

/// Why the sender cannot use a connection.
pub open spec fn runtime_fault(f: Facts) -> Option<Seq<char>> {
    match f.account {
        Some(a) => match a.status {
            AccountStatus::Connected => if f.running {
                None
            } else {
                Some(stopped_text(a.id))
            },
            AccountStatus::ReauthRequired => Some("Your session expired. Send /reconnect."@),
            AccountStatus::Disconnected => Some("Not connected. Send /connect."@),
        },
        None => Some("Not connected. Send /connect."@),
    }
}

/// Why the sender cannot act on a group.
pub open spec fn topic_fault(f: Facts) -> Option<Seq<char>> {
    match runtime_fault(f) {
        Some(m) => Some(m),
        None => match f.conversation {
            None => Some("Send this inside a group topic."@),
            Some(c) => if Some(c.account) != account_id(f) {
                Some("This topic belongs to another account."@)
            } else {
                None
            },
        },
    }
}

/// The sender's account.
pub open spec fn account_id(f: Facts) -> Option<i64> {
    match f.account {
        Some(a) => Some(a.id),
        None => None,
    }
}

impl Facts {
    /// Why the sender cannot use a connection.
    pub fn connected_runtime(&self) -> (r: Result<(), String>)
        ensures
            r is Ok == runtime_fault(*self) is None,
            r matches Err(m) ==> runtime_fault(*self) == Some(m@),
    {
        match &self.account {
            Some(a) => match a.status {
                AccountStatus::Connected => if self.running {
                    Ok(())
                } else {
                    Err(stopped(a.id))
                },
                AccountStatus::ReauthRequired => Err(
                    "Your session expired. Send /reconnect.".to_owned(),
                ),
                AccountStatus::Disconnected => Err("Not connected. Send /connect.".to_owned()),
            },
            None => Err("Not connected. Send /connect.".to_owned()),
        }
    }

    /// Why the sender cannot act on a group.
    pub fn topic_context(&self) -> (r: Result<(), String>)
        ensures
            r is Ok == topic_fault(*self) is None,
            r matches Err(m) ==> topic_fault(*self) == Some(m@),
            r is Ok ==> self.conversation is Some && self.account is Some,
    {
        match self.connected_runtime() {
            Ok(()) => {},
            Err(m) => {
                return Err(m);
            },
        }
        match (&self.conversation, &self.account) {
            (Some(c), Some(a)) => if c.account == a.id {
                Ok(())
            } else {
                Err("This topic belongs to another account.".to_owned())
            },
            _ => Err("Send this inside a group topic.".to_owned()),
        }
    }
}

/// A topic of someone else's account is out of reach, whatever its state.
pub proof fn law_topics_are_private(f: Facts)
    requires
        topic_fault(f) is None,
    ensures
        f.account matches Some(a) && f.conversation matches Some(c) && c.account == a.id && a.status
            == AccountStatus::Connected,
{
}

/// What a command leads to.
#[derive(Debug)]
pub enum Task {
    /// Answer.
    Say(Reply),
    /// The command cannot be used now: say why.
    Refuse(String),
    /// End the conversation, and answer.
    Cancel(Reply),
    /// Begin a conversation.
    Begin { state: State, reply: Reply },
    /// Report the account's connection.
    Status,
    /// Catch up with the service.
    Sync,
    /// Report the account's groups.
    Chats,
    /// Add members to the topic's group, after a note about words that are no numbers.
    AddMembers { phones: Vec<String>, note: Option<String> },
    /// Show the group card.
    Card,
    /// Rename the topic's group.
    Rename { name: String },
    /// Show the list of members with its buttons.
    Manage,
    /// Ask before deleting the topic's group.
    AskDelete,
    /// Mark the topic's group read.
    Read,
    /// Look up which numbers are registered.
    Contacts { phones: Vec<String>, bad: Vec<String> },
    /// Report the account's devices.
    Devices,
    /// Report the members of the topic's group.
    Members,
    /// Mute or unmute the topic's group.
    Mute,
    /// Change the account's display name.
    SetName { name: String },
    /// Send an invoice for a donation.
    Donate,
    /// Show the legal documents.
    Legal,
}

/// The answer outside a private chat.
pub fn private_only(bot_username: &str) -> (r: Reply)
    ensures
        face(r) == plain(
            "This bot works in a private chat. Open @"@ + bot_username@ + " directly."@,
        ),
{
    say(
        "This bot works in a private chat. Open @".to_owned().concat(bot_username).concat(
            " directly.",
        ),
    )
}

/// Whether a command is taken up: only in a private chat. Elsewhere this is its only answer.
pub fn admission(private: bool, bot: &str) -> (r: Option<Reply>)
    ensures
        private == r is None,
        r matches Some(a) ==> face(a) == plain(
            "This bot works in a private chat. Open @"@ + bot@ + " directly."@,
        ),
{
    if private {
        None
    } else {
        Some(private_only(bot))
    }
}

/// The welcome to a user without an account.
pub const WELCOME: &'static str =
    "<b>Tzibbur for Telegram</b>\n\nRead and reply to your Tzibbur groups from Telegram. Each group becomes a topic in this chat.\n\nTap Connect to sign in with your phone number.";

/// The welcome.
pub open spec fn welcome(account: Option<Account>) -> Face {
    match account {
        Some(a) => plain(
            match a.status {
                AccountStatus::Connected => "Signed in as <b>"@ + escaped(
                    match a.display_name {
                        Some(n) => n@,
                        None => "friend"@,
                    },
                )
                    + "</b>. Your groups are the topics in this chat. Reply in a topic to post there.\n\n/chats, /newgroup, /settings, /help"@,
                AccountStatus::ReauthRequired =>
                    "Your session expired. Send /reconnect to sign in again."@,
                AccountStatus::Disconnected => WELCOME@,
            },
        ),
        None => Face { text: WELCOME@, keyboard: seq![seq![("Connect"@, "connect"@)]] },
    }
}

fn greet(account: &Option<Account>) -> (r: Reply)
    ensures
        face(r) == welcome(*account),
{
    match account {
        Some(a) => match a.status {
            AccountStatus::Connected => {
                let name = match &a.display_name {
                    Some(n) => n.as_str(),
                    None => "friend",
                };
                say(
                    "Signed in as <b>".to_owned().concat(escape_html(name).as_str()).concat(
                        "</b>. Your groups are the topics in this chat. Reply in a topic to post there.\n\n/chats, /newgroup, /settings, /help",
                    ),
                )
            },
            AccountStatus::ReauthRequired => say_text(
                "Your session expired. Send /reconnect to sign in again.",
            ),
            AccountStatus::Disconnected => say_text(WELCOME),
        },
        None => ask(WELCOME.to_owned(), one(fixed("Connect", "connect"))),
    }
}

/// The question before disconnecting.
pub open spec fn disconnect_face(account: Option<Account>) -> Face {
    match account {
        Some(a) => if a.status != AccountStatus::Disconnected {
            Face {
                text:
                    "Disconnect?\n\n<b>Disconnect</b> removes your session and keeps your topics for a quick reconnect.\n<b>Disconnect and erase</b> removes everything."@,
                keyboard: seq![
                    seq![("Disconnect"@, "disc:keep"@), ("Disconnect and erase"@, "disc:purge"@)],
                    seq![("Cancel"@, "noop"@)],
                ],
            }
        } else {
            plain("Not connected."@)
        },
        None => plain("Not connected."@),
    }
}

fn ask_disconnect(account: &Option<Account>) -> (r: Reply)
    ensures
        face(r) == disconnect_face(*account),
{
    let connected = match account {
        Some(a) => a.status != AccountStatus::Disconnected,
        None => false,
    };
    if !connected {
        return say_text("Not connected.");
    }
    let mut rows = no_rows();
    add_row(
        &mut rows,
        two(fixed("Disconnect", "disc:keep"), fixed("Disconnect and erase", "disc:purge")),
    );
    add_row(&mut rows, one(fixed("Cancel", "noop")));
    let text =
        "Disconnect?\n\n<b>Disconnect</b> removes your session and keeps your topics for a quick reconnect.\n<b>Disconnect and erase</b> removes everything.".to_owned();
    let r = Reply { text, keyboard: rows };
    assert(face(r).keyboard =~= disconnect_face(*account).keyboard);
    r
}

/// A setting, on or off.
pub open spec fn switch(on: bool, label: Seq<char>) -> Seq<char> {
    (if on {
        "[on]"@
    } else {
        "[off]"@
    }) + label
}

/// The keyboard of the settings.
pub open spec fn settings_rows(s: AccountSettings) -> Seq<Seq<Key>> {
    seq![
        seq![(switch(s.auto_topics, " Auto-create topics for new groups"@), "set:auto_topics"@)],
        seq![
            (
                switch(s.show_phone_numbers, " Show phone numbers for unnamed senders"@),
                "set:show_phone_numbers"@,
            ),
        ],
        seq![("Done"@, "noop"@)],
    ]
}

fn switched(on: bool, label: &str) -> (r: String)
    ensures
        r@ == switch(on, label@),
{
    let head = if on {
        "[on]"
    } else {
        "[off]"
    };
    head.to_owned().concat(label)
}

/// The settings.
pub fn settings_kb(s: AccountSettings) -> (r: Reply)
    ensures
        face(r) == (Face { text: "<b>Settings</b>"@, keyboard: settings_rows(s) }),
{
    let mut rows = no_rows();
    add_row(
        &mut rows,
        one(
            fixed(
                switched(s.auto_topics, " Auto-create topics for new groups").as_str(),
                "set:auto_topics",
            ),
        ),
    );
    add_row(
        &mut rows,
        one(
            fixed(
                switched(s.show_phone_numbers, " Show phone numbers for unnamed senders").as_str(),
                "set:show_phone_numbers",
            ),
        ),
    );
    add_row(&mut rows, one(fixed("Done", "noop")));
    let r = Reply { text: "<b>Settings</b>".to_owned(), keyboard: rows };
    assert(face(r).keyboard =~= settings_rows(s));
    r
}

/// Settings after a switch was tapped; an unknown switch changes nothing.
pub open spec fn switched_settings(s: AccountSettings, name: Seq<char>) -> AccountSettings {
    AccountSettings {
        auto_topics: s.auto_topics != (name == "auto_topics"@),
        auto_mark_read: s.auto_mark_read != (name == "auto_mark_read"@),
        show_phone_numbers: s.show_phone_numbers != (name == "show_phone_numbers"@),
    }
}

/// Settings after a switch was tapped; an unknown switch changes nothing.
pub fn toggled(s: AccountSettings, name: &str) -> (r: AccountSettings)
    ensures
        r == switched_settings(s, name@),
{
    AccountSettings {
        auto_topics: s.auto_topics != same(name, "auto_topics"),
        auto_mark_read: s.auto_mark_read != same(name, "auto_mark_read"),
        show_phone_numbers: s.show_phone_numbers != same(name, "show_phone_numbers"),
    }
}

/// Tapping a switch twice changes nothing.
pub proof fn law_switch_twice(s: AccountSettings, name: Seq<char>)
    ensures
        switched_settings(switched_settings(s, name), name) == s,
{
}

/// What a button that leaves a group means.
pub open spec fn leave_data(conv: i64) -> Seq<char> {
    "leave:"@ + decimal_int(conv as int)
}

/// The name of a conversation in a question.
pub open spec fn asked_name(c: Conversation) -> Seq<char> {
    match c.name {
        Some(n) => n@,
        None => "this group"@,
    }
}

fn name_asked(c: &Conversation) -> (r: &str)
    ensures
        r@ == asked_name(*c),
{
    match &c.name {
        Some(n) => n.as_str(),
        None => "this group",
    }
}

/// The question before leaving a group, with the words for yes and no.
pub open spec fn leave_face(c: Conversation, yes: Seq<char>, cancel: Seq<char>) -> Face {
    Face {
        text: "Leave <b>"@ + escaped(asked_name(c)) + "</b>?"@,
        keyboard: seq![seq![(yes, leave_data(c.id)), ("Cancel"@, cancel)]],
    }
}

/// The question before leaving a group.
pub fn ask_leave(c: &Conversation, yes: &str, cancel: String) -> (r: Reply)
    ensures
        face(r) == leave_face(*c, yes@, cancel@),
{
    let text = "Leave <b>".to_owned().concat(escape_html(name_asked(c)).as_str()).concat("</b>?");
    let data = "leave:".to_owned().concat(show_i64(c.id).as_str());
    ask(text, two(button(yes, data), button("Cancel", cancel)))
}

/// The answer to the wish to delete a group: a question for admins, a refusal for others.
pub fn ask_delete(g: &GroupEntity, conv: i64) -> (r: Reply)
    ensures
        face(r) == (if g.my_role != Role::Admin {
            plain("Only admins can delete a group."@)
        } else {
            Face {
                text: "Delete <b>"@ + escaped(g.name@)
                    + "</b> for everyone? This cannot be undone."@,
                keyboard: seq![
                    seq![
                        ("Delete for everyone"@, group_data(conv, "del2"@)),
                        ("Cancel"@, "noop"@),
                    ],
                ],
            }
        }),
{
    if g.my_role != Role::Admin {
        return say_text("Only admins can delete a group.");
    }
    let text = "Delete <b>".to_owned().concat(escape_html(g.name.as_str()).as_str()).concat(
        "</b> for everyone? This cannot be undone.",
    );
    ask(
        text,
        two(
            button("Delete for everyone", group_action(conv, "del2")),
            fixed("Cancel", "noop"),
        ),
    )
}

/// The answer to marking a group read.
pub fn read_answer(seq: i64) -> (r: Reply)
    ensures
        face(r) == plain(
            if seq > 0 {
                "Marked read."@
            } else {
                "Nothing to mark."@
            },
        ),
{
    if seq > 0 {
        say_text("Marked read.")
    } else {
        say_text("Nothing to mark.")
    }
}

/// The answer to a refresh, with what went wrong where it failed.
pub fn sync_answer(failure: &Option<String>) -> (r: Reply)
    ensures
        face(r) == plain(
            match *failure {
                Some(why) => "Sync failed: "@ + escaped(why@),
                None => "Synced."@,
            },
        ),
{
    match failure {
        Some(why) => trouble("Sync failed: ", why.as_str()),
        None => say_text("Synced."),
    }
}

/// What went wrong, behind a lead.
pub fn trouble(lead: &str, why: &str) -> (r: Reply)
    ensures
        face(r) == plain(lead@ + escaped(why@)),
{
    say(lead.to_owned().concat(escape_html(why).as_str()))
}

/// The answer where a legal document could not be fetched.
pub fn legal_missing(key: &str, why: &str) -> (r: Reply)
    ensures
        face(r) == plain("Could not fetch "@ + key@ + ": "@ + escaped(why@)),
{
    trouble("Could not fetch ".to_owned().concat(key).concat(": ").as_str(), why)
}

/// The answer to a new display name.
pub fn name_answer(name: &str) -> (r: Reply)
    ensures
        face(r) == plain("Your name is now <b>"@ + escaped(name@) + "</b>."@),
{
    say("Your name is now <b>".to_owned().concat(escape_html(name).as_str()).concat("</b>."))
}

/// The answer to switching a group's mute.
pub fn mute_answer(was_muted: bool) -> (r: Reply)
    ensures
        face(r) == plain(
            if was_muted {
                "Unmuted."@
            } else {
                "Muted."@
            },
        ),
{
    if was_muted {
        say_text("Unmuted.")
    } else {
        say_text("Muted.")
    }
}

/// Mute a group, or unmute it: gives whether it was muted before.
pub fn toggle_mute(store: &mut LocalStore, group_id: &str) -> (r: Result<bool, String>)
    requires
        old(store).wf(),
    ensures
        final(store).wf(),
        match cached(*old(store), group_id@) {
            Some(g) => {
                let p = group_pos(old(store).group_rows@, group_id@);
                &&& r == Ok::<bool, String>(g.muted)
                &&& final(store).group_rows@ == old(store).group_rows@.update(
                    p,
                    GroupEntity { muted: !g.muted, ..g },
                )
                &&& final(store).rest_of_groups(*old(store))
                &&& log(final(store).changes@) == log(old(store).changes@).push(Change::Groups)
            },
            None => *final(store) == *old(store) && (r matches Err(m) && m@ == "group not cached"@),
        },
{
    match store.get_group(group_id) {
        Some(g) => {
            store.set_muted(group_id, !g.muted);
            Ok(g.muted)
        },
        None => Err("group not cached".to_owned()),
    }
}

/// The prompt for phone numbers after `/add`.
pub const ADD_USAGE: &'static str =
    "Send /add followed by phone numbers, inside a group topic.";

/// The prompt for phone numbers after `/contacts`.
pub const CONTACTS_USAGE: &'static str =
    "Send /contacts followed by phone numbers to see who is on Tzibbur.";

/// `/add` with the numbers that were read.
pub open spec fn add_task(phones: Seq<Seq<char>>, bad: Seq<Seq<char>>, t: Task) -> bool {
    if phones.len() == 0 {
        t matches Task::Say(r) && face(r) == plain(ADD_USAGE@)
    } else {
        t matches Task::AddMembers { phones: p, note } && texts(p@) == phones && opt_text(note) == (
        if bad.len() == 0 {
            None
        } else {
            Some(listed("Not phone numbers: "@, bad, Seq::empty()))
        })
    }
}

/// `/add` with the numbers that were read.
pub fn add_numbers(phones: Vec<String>, bad: &Vec<String>) -> (t: Task)
    ensures
        add_task(texts(phones@), texts(bad@), t),
{
    if phones.len() == 0 {
        return Task::Say(say_text(ADD_USAGE));
    }
    let note = if bad.len() == 0 {
        None
    } else {
        Some(bad_numbers(bad))
    };
    Task::AddMembers { phones, note }
}

/// `/contacts` with the numbers that were read.
pub open spec fn contacts_task(phones: Seq<Seq<char>>, bad: Seq<Seq<char>>, t: Task) -> bool {
    if phones.len() == 0 {
        t matches Task::Say(r) && face(r) == plain(CONTACTS_USAGE@)
    } else {
        t matches Task::Contacts { phones: p, bad: b } && texts(p@) == phones && texts(b@) == bad
    }
}

/// `/contacts` with the numbers that were read.
pub fn contact_numbers(phones: Vec<String>, bad: Vec<String>) -> (t: Task)
    ensures
        contacts_task(texts(phones@), texts(bad@), t),
{
    if phones.len() == 0 {
        Task::Say(say_text(CONTACTS_USAGE))
    } else {
        Task::Contacts { phones, bad }
    }
}

/// `/rename`, with or without a name.
pub open spec fn rename_task(arg: Seq<char>, conv: Option<Conversation>, t: Task) -> bool {
    let name = trim(arg);
    if name.len() == 0 {
        t matches Task::Begin { state: State::AwaitRename { conv_id }, reply } && conv matches Some(
            c,
        ) && conv_id == c.id && face(reply) == plain("New name?"@)
    } else if name.len() > DEFAULT_MAX_GROUP_NAME {
        t matches Task::Say(r) && face(r) == plain(
            too_long_text(name.len(), DEFAULT_MAX_GROUP_NAME as nat),
        )
    } else {
        t matches Task::Rename { name: n } && n@ == name
    }
}

fn plan_rename(arg: &str, conv: &Conversation) -> (t: Task)
    ensures
        rename_task(arg@, Some(*conv), t),
{
    match validate_group_name(arg) {
        TextValidation::Valid { text } => Task::Rename { name: text },
        TextValidation::Empty => Task::Begin {
            state: State::AwaitRename { conv_id: conv.id },
            reply: say_text("New name?"),
        },
        TextValidation::TooLong { count, max } => Task::Say(say(too_long(count, max))),
    }
}

/// `/name`, with or without a name.
pub open spec fn name_task(arg: Seq<char>, t: Task) -> bool {
    let name = trim(arg);
    if name.len() == 0 {
        t matches Task::Say(r) && face(r) == plain("Send /name followed by the new name."@)
    } else if name.len() > DEFAULT_MAX_DISPLAY_NAME {
        t matches Task::Say(r) && face(r) == plain(
            too_long_text(name.len(), DEFAULT_MAX_DISPLAY_NAME as nat),
        )
    } else {
        t matches Task::SetName { name: n } && n@ == name
    }
}

fn plan_name(arg: &str) -> (t: Task)
    ensures
        name_task(arg@, t),
{
    match validate_display_name(arg) {
        TextValidation::Valid { text } => Task::SetName { name: text },
        TextValidation::Empty => Task::Say(say_text("Send /name followed by the new name.")),
        TextValidation::TooLong { count, max } => Task::Say(say(too_long(count, max))),
    }
}

/// `/connect`: a connected account has to be disconnected first.
pub open spec fn connect_task(f: Facts, t: Task) -> bool {
    if f.running && (f.account matches Some(a) && a.status == AccountStatus::Connected) {
        t matches Task::Say(r) && face(r) == plain(
            "Already connected. Send /disconnect first to switch accounts."@,
        )
    } else {
        t matches Task::Begin { state, reply } && state == State::AwaitPhone && face(reply)
            == plain(ASK_PHONE@)
    }
}

fn plan_connect(f: &Facts) -> (t: Task)
    ensures
        connect_task(*f, t),
{
    match &f.account {
        Some(a) => {
            if f.running && a.status == AccountStatus::Connected {
                return Task::Say(
                    say_text("Already connected. Send /disconnect first to switch accounts."),
                );
            }
        },
        None => {},
    }
    Task::Begin { state: State::AwaitPhone, reply: say_text(ASK_PHONE) }
}

/// Why a command cannot be used now.
pub open spec fn fault(c: Command, f: Facts) -> Option<Seq<char>> {
    match need_of(c) {
        Need::Runtime => runtime_fault(f),
        Need::Topic => topic_fault(f),
        _ => match c {
            Command::Settings => if f.account is None {
                Some("Not connected. Send /connect."@)
            } else {
                None
            },
            _ => None,
        },
    }
}

/// What a command leads to, once nothing speaks against it.
pub open spec fn task_of(c: Command, f: Facts, help: Seq<char>, region: Seq<char>, t: Task) -> bool {
    match c {
        Command::Start => t matches Task::Say(r) && face(r) == welcome(f.account),
        Command::Help => t matches Task::Say(r) && face(r) == plain(escaped(help)),
        Command::Cancel => t matches Task::Cancel(r) && face(r) == plain("Cancelled."@),
        Command::Connect | Command::Reconnect => connect_task(f, t),
        Command::Disconnect => t matches Task::Say(r) && face(r) == disconnect_face(f.account),
        Command::Status => t is Status,
        Command::Sync => t is Sync,
        Command::Chats => t is Chats,
        Command::NewGroup => t matches Task::Begin { state, reply } && state
            == State::AwaitGroupName && face(reply) == plain("Group name?"@),
        Command::Add(arg) => add_task(
            numbers_in(arg@, region).0,
            numbers_in(arg@, region).1,
            t,
        ),
        Command::Group => t is Card,
        Command::Rename(arg) => rename_task(arg@, f.conversation, t),
        Command::Manage => t is Manage,
        Command::DeleteGroup => t is AskDelete,
        Command::Read => t is Read,
        Command::Contacts(arg) => contacts_task(
            numbers_in(arg@, region).0,
            numbers_in(arg@, region).1,
            t,
        ),
        Command::Devices => t is Devices,
        Command::Members => t is Members,
        Command::Leave => t matches Task::Say(r) && f.conversation matches Some(c) && face(r)
            == leave_face(c, "Leave"@, "noop"@),
        Command::Mute => t is Mute,
        Command::Name(arg) => name_task(arg@, t),
        Command::Settings => t matches Task::Say(r) && f.account matches Some(a) && face(r) == (
        Face {
            text: "<b>Settings</b>"@,
            keyboard: settings_rows(
                settings_in_members(
                    match a.settings {
                        Some(o) => Some(o@),
                        None => None,
                    },
                ),
            ),
        }),
        Command::Donate => t is Donate,
        Command::Privacy => t matches Task::Say(r) && face(r) == plain(PRIVACY_TEXT@),
        Command::Legal => t is Legal,
    }
}

fn check(c: &Command, f: &Facts) -> (r: Result<(), String>)
    ensures
        r is Ok == fault(*c, *f) is None,
        r matches Err(m) ==> fault(*c, *f) == Some(m@),
        r is Ok && need_of(*c) == Need::Topic ==> f.conversation is Some,
        r is Ok && *c is Settings ==> f.account is Some,
{
    match need(c) {
        Need::Runtime => f.connected_runtime(),
        Need::Topic => f.topic_context(),
        _ => {
            if matches!(c, Command::Settings) && f.account.is_none() {
                Err("Not connected. Send /connect.".to_owned())
            } else {
                Ok(())
            }
        },
    }
}

/// What a command leads to, given what is known about its sender. `help` is the list of commands,
/// `region` the one in which phone numbers are read.
pub fn on_command(c: Command, f: &Facts, help: &str, region: &str) -> (t: Task)
    ensures
        match fault(c, *f) {
            Some(m) => t matches Task::Refuse(e) && e@ == m,
            None => task_of(c, *f, help@, region@, t),
        },
{
    match check(&c, f) {
        Ok(()) => {},
        Err(m) => {
            return Task::Refuse(m);
        },
    }
    match &c {
        Command::Start => Task::Say(greet(&f.account)),
        Command::Help => Task::Say(say(escape_html(help))),
        Command::Cancel => Task::Cancel(say_text("Cancelled.")),
        Command::Connect => plan_connect(f),
        Command::Reconnect => plan_connect(f),
        Command::Disconnect => Task::Say(ask_disconnect(&f.account)),
        Command::Status => Task::Status,
        Command::Sync => Task::Sync,
        Command::Chats => Task::Chats,
        Command::NewGroup => Task::Begin {
            state: State::AwaitGroupName,
            reply: say_text("Group name?"),
        },
        Command::Add(arg) => {
            let (phones, bad) = parse_phone_list(arg.as_str(), region);
            add_numbers(phones, &bad)
        },
        Command::Group => Task::Card,
        Command::Rename(arg) => match &f.conversation {
            Some(conv) => plan_rename(arg.as_str(), conv),
            None => Task::Card,
        },
        Command::Manage => Task::Manage,
        Command::DeleteGroup => Task::AskDelete,
        Command::Read => Task::Read,
        Command::Contacts(arg) => {
            let (phones, bad) = parse_phone_list(arg.as_str(), region);
            contact_numbers(phones, bad)
        },
        Command::Devices => Task::Devices,
        Command::Members => Task::Members,
        Command::Leave => match &f.conversation {
            Some(conv) => Task::Say(ask_leave(conv, "Leave", "noop".to_owned())),
            None => Task::Card,
        },
        Command::Mute => Task::Mute,
        Command::Name(arg) => plan_name(arg.as_str()),
        Command::Settings => match &f.account {
            Some(a) => Task::Say(settings_kb(a.settings())),
            None => Task::Card,
        },
        Command::Donate => Task::Donate,
        Command::Privacy => Task::Say(say_text(PRIVACY_TEXT)),
        Command::Legal => Task::Legal,
    }
}

/// What a plain message leads to.
#[derive(Debug)]
pub enum Routing {
    /// It belongs to no group: answer.
    Stray(Reply),
    /// Answer.
    Answer(Reply),
    /// Nothing to do.
    Ignore,
    /// Send these to the group, after a notice about the parts.
    Send { parts: Vec<String>, notice: Option<String> },
}

/// The answer to a message outside a topic.
pub const OPEN_A_TOPIC: &'static str = "To write to a group, open its topic. /help lists commands.";

/// The answer to anything but text.
pub const TEXT_ONLY: &'static str =
    "ℹ️ Tzibbur is text-only; photos, files and voice notes can't be delivered.";

/// The answer to an edited message.
pub const NO_EDITS: &'static str =
    "ℹ️ Tzibbur messages can't be edited after sending. Send the correction as a new message.";

/// What a plain message leads to.
pub open spec fn routed(
    f: Facts,
    text: Option<Seq<char>>,
    reply: Option<(Seq<char>, bool)>,
    r: Routing,
) -> bool {
    match f.conversation {
        None => r matches Routing::Stray(a) && face(a) == plain(OPEN_A_TOPIC@),
        Some(c) => match runtime_fault(f) {
            Some(m) => r matches Routing::Answer(a) && face(a) == plain(escaped(m)),
            None => if Some(c.account) != account_id(f) {
                r is Ignore
            } else {
                match text {
                    None => r matches Routing::Answer(a) && face(a) == plain(TEXT_ONLY@),
                    Some(s) => if trim(s).len() == 0 {
                        r is Ignore
                    } else {
                        r matches Routing::Send { parts, notice } && texts(parts@) == composed(
                            s,
                            reply,
                        ) && opt_text(notice) == (if parts@.len() > 1 {
                            Some(
                                "ℹ️ Long message — sending it as "@ + decimal(
                                    parts@.len(),
                                ) + " parts."@,
                            )
                        } else {
                            None
                        })
                    },
                }
            },
        },
    }
}

/// A plain message came in: answer it, or send it to the group of its topic.
pub fn on_message(f: &Facts, text: Option<&str>, reply: &Option<Replied>) -> (r: Routing)
    ensures
        routed(
            *f,
            match text {
                Some(s) => Some(s@),
                None => None,
            },
            match *reply {
                Some(q) => Some((q.text@, q.from_bot)),
                None => None,
            },
            r,
        ),
{
    let conv = match &f.conversation {
        Some(c) => c,
        None => {
            return Routing::Stray(say_text(OPEN_A_TOPIC));
        },
    };
    match f.connected_runtime() {
        Ok(()) => {},
        Err(m) => {
            return Routing::Answer(say(escape_html(m.as_str())));
        },
    }
    match &f.account {
        Some(a) => {
            if a.id != conv.account {
                return Routing::Ignore;
            }
        },
        None => {
            return Routing::Ignore;
        },
    }
    match text {
        None => Routing::Answer(say_text(TEXT_ONLY)),
        Some(s) => match compose(s, reply) {
            None => Routing::Ignore,
            Some(parts) => {
                let notice = parts_notice(parts.len());
                Routing::Send { parts, notice }
            },
        },
    }
}

/// A message is sent to a group only by the owner of the account behind its topic.
pub proof fn law_only_owners_post(
    f: Facts,
    text: Option<Seq<char>>,
    reply: Option<(Seq<char>, bool)>,
    r: Routing,
)
    requires
        routed(f, text, reply, r),
        r is Send,
    ensures
        topic_fault(f) is None,
{
}

/// The explanation of a message that could not be queued.
pub fn not_sent_text(why: &str) -> (r: String)
    ensures
        r@ == "Not sent: "@ + escaped(why@) + "."@,
{
    "Not sent: ".to_owned().concat(escape_html(why).as_str()).concat(".")
}

} // verus!
