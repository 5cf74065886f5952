//! What the buttons under the bot's messages mean.

use crate::bridge::cards::{group_action, group_data, member_action_data, member_data};
use crate::bridge::commands::{
    asked_name, leave_data, stopped, stopped_text,
};
use crate::bridge::format::{escape_html, escaped};
use crate::bridge::records::{Account, Conversation};
use crate::bridge::reply::{ask, button, face, two, Face, Reply};
use crate::models::Role;
use crate::numbers::{decimal, decimal_int, law_decimal_roundtrip, parse_i64, parsed_i64};
use crate::store::MemberEntity;
use crate::text::{
    begins_with, first_chars, same, skip_chars, split, split_on, starts_with, take_chars, texts,
};
use vstd::prelude::*;

verus! {

/// What a button means.
#[derive(Debug)]
pub enum Callback {
    /// Remove the message with its buttons.
    Close,
    /// Begin to sign in.
    Connect,
    /// Disconnect the account, and erase its mappings if asked to.
    Disconnect { purge: bool },
    /// Something about a group or one of its members.
    Group,
    /// The category of a new group.
    Category { slug: String },
    /// Leave the group of a conversation.
    Leave { conversation: i64 },
    /// Switch a setting.
    Setting { name: String },
    Unknown,
}

/// A button by its meaning.
#[verifier::ext_equal]
pub enum Meaning {
    Close,
    Connect,
    Disconnect(bool),
    Group,
    Category(Seq<char>),
    Leave(i64),
    Setting(Seq<char>),
    Unknown,
}

/// The meaning of a parsed button.
pub open spec fn meaning(c: Callback) -> Meaning {
    match c {
        Callback::Close => Meaning::Close,
        Callback::Connect => Meaning::Connect,
        Callback::Disconnect { purge } => Meaning::Disconnect(purge),
        Callback::Group => Meaning::Group,
        Callback::Category { slug } => Meaning::Category(slug@),
        Callback::Leave { conversation } => Meaning::Leave(conversation),
        Callback::Setting { name } => Meaning::Setting(name@),
        Callback::Unknown => Meaning::Unknown,
    }
}

/// What a button means.
pub open spec fn meant(data: Seq<char>) -> Meaning {
    if data == "noop"@ {
        Meaning::Close
    } else if data == "connect"@ || data == "reconnect"@ {
        Meaning::Connect
    } else if data == "disc:keep"@ {
        Meaning::Disconnect(false)
    } else if data == "disc:purge"@ {
        Meaning::Disconnect(true)
    } else if begins_with(data, "g:"@) || begins_with(data, "m:"@) || begins_with(data, "ma:"@) {
        Meaning::Group
    } else if begins_with(data, "cat:"@) {
        Meaning::Category(data.skip(4))
    } else if begins_with(data, "leave:"@) {
        Meaning::Leave(
            match parsed_i64(data.skip(6)) {
                Some(n) => n,
                None => 0,
            },
        )
    } else if begins_with(data, "set:"@) {
        Meaning::Setting(data.skip(4))
    } else {
        Meaning::Unknown
    }
}

/// What a button means.
pub fn parse_callback(data: &str) -> (r: Callback)
    ensures
        meaning(r) == meant(data@),
{
    proof {
        reveal_strlit("cat:");
        reveal_strlit("leave:");
        reveal_strlit("set:");
    }
    if same(data, "noop") {
        Callback::Close
    } else if same(data, "connect") || same(data, "reconnect") {
        Callback::Connect
    } else if same(data, "disc:keep") {
        Callback::Disconnect { purge: false }
    } else if same(data, "disc:purge") {
        Callback::Disconnect { purge: true }
    } else if starts_with(data, "g:") || starts_with(data, "m:") || starts_with(data, "ma:") {
        Callback::Group
    } else if starts_with(data, "cat:") {
        Callback::Category { slug: skip_chars(data, 4) }
    } else if starts_with(data, "leave:") {
        let n: i64 = match parse_i64(skip_chars(data, 6).as_str()) {
            Some(n) => n,
            None => 0,
        };
        Callback::Leave { conversation: n }
    } else if starts_with(data, "set:") {
        Callback::Setting { name: skip_chars(data, 4) }
    } else {
        Callback::Unknown
    }
}

/// A button of the group card.
#[derive(Debug, Clone, Copy, PartialEq, Eq, Structural)]
pub enum CardAction {
    /// Show the card again.
    Card,
    Members,
    Add,
    Rename,
    /// Change who may post.
    FlipPost,
    /// Change who may add members.
    FlipAdd,
    Read,
    Mute,
    AskLeave,
    AskDelete,
    Delete,
}

/// The action behind the last part of a card button; an unknown one shows the card.
pub open spec fn card_action(s: Seq<char>) -> CardAction {
    if s == "members"@ {
        CardAction::Members
    } else if s == "add"@ {
        CardAction::Add
    } else if s == "rename"@ {
        CardAction::Rename
    } else if s == "post"@ {
        CardAction::FlipPost
    } else if s == "addm"@ {
        CardAction::FlipAdd
    } else if s == "read"@ {
        CardAction::Read
    } else if s == "mute"@ {
        CardAction::Mute
    } else if s == "leave"@ {
        CardAction::AskLeave
    } else if s == "del1"@ {
        CardAction::AskDelete
    } else if s == "del2"@ {
        CardAction::Delete
    } else {
        CardAction::Card
    }
}

fn parse_card_action(s: &str) -> (r: CardAction)
    ensures
        r == card_action(s@),
{
    if same(s, "members") {
        CardAction::Members
    } else if same(s, "add") {
        CardAction::Add
    } else if same(s, "rename") {
        CardAction::Rename
    } else if same(s, "post") {
        CardAction::FlipPost
    } else if same(s, "addm") {
        CardAction::FlipAdd
    } else if same(s, "read") {
        CardAction::Read
    } else if same(s, "mute") {
        CardAction::Mute
    } else if same(s, "leave") {
        CardAction::AskLeave
    } else if same(s, "del1") {
        CardAction::AskDelete
    } else if same(s, "del2") {
        CardAction::Delete
    } else {
        CardAction::Card
    }
}

/// What is done to a member.
#[derive(Debug, Clone, Copy, PartialEq, Eq, Structural)]
pub enum MemberAction {
    Promote,
    Demote,
    Remove,
    Nothing,
}

/// The action behind the last part of a member button.
pub open spec fn member_action_of(s: Seq<char>) -> MemberAction {
    if s == "a"@ {
        MemberAction::Promote
    } else if s == "m"@ {
        MemberAction::Demote
    } else if s == "r"@ {
        MemberAction::Remove
    } else {
        MemberAction::Nothing
    }
}

impl MemberAction {
    /// The role that the member gets, where the action is about roles.
    pub fn role(self) -> (r: Option<Role>)
        ensures
            r == (match self {
                MemberAction::Promote => Some(Role::Admin),
                MemberAction::Demote => Some(Role::Member),
                _ => None,
            }),
    {
        match self {
            MemberAction::Promote => Some(Role::Admin),
            MemberAction::Demote => Some(Role::Member),
            _ => None,
        }
    }

    /// What the user is told once it is done.
    pub fn toast(self) -> (r: &'static str)
        ensures
            r@ == (match self {
                MemberAction::Promote => "Promoted to admin"@,
                MemberAction::Demote => "Now a member"@,
                MemberAction::Remove => "Removed"@,
                MemberAction::Nothing => ""@,
            }),
    {
        match self {
            MemberAction::Promote => "Promoted to admin",
            MemberAction::Demote => "Now a member",
            MemberAction::Remove => "Removed",
            MemberAction::Nothing => "",
        }
    }
}

/// What a button about a group means.
#[derive(Debug)]
pub enum GroupCallback {
    Card { conversation: i64, action: CardAction },
    /// Show the menu for a member.
    Member { conversation: i64, user_id: String },
    MemberAct { conversation: i64, user_id: String, action: MemberAction },
    Nothing,
}

/// Why a text is no whole number.
pub uninterp spec fn integer_fault(s: Seq<char>) -> Seq<char>;

/// `str::parse::<i64>` of a text that is no whole number, and the words of its error. What they are
/// is left to a name.
#[verifier::external_body]
fn why_no_integer(s: &str) -> (r: String)
    requires
        parsed_i64(s@) is None,
    ensures
        r@ == integer_fault(s@),
{
    s.parse::<i64>().err().map(|e| e.to_string()).unwrap_or_default()
}

/// A number out of a button.
pub fn number_in(s: &str) -> (r: Result<i64, String>)
    ensures
        match r {
            Ok(n) => parsed_i64(s@) == Some(n),
            Err(m) => parsed_i64(s@) is None && m@ == integer_fault(s@),
        },
{
    match parse_i64(s) {
        Some(n) => Ok(n),
        None => Err(why_no_integer(s)),
    }
}

/// What a button about a group means, from its parts.
pub open spec fn group_meant(p: Seq<Seq<char>>, r: Result<GroupCallback, String>) -> bool {
    if p.len() == 3 && p[0] == "g"@ {
        match parsed_i64(p[1]) {
            Some(n) => r == Ok::<GroupCallback, String>(
                GroupCallback::Card { conversation: n, action: card_action(p[2]) },
            ),
            None => r matches Err(m) && m@ == integer_fault(p[1]),
        }
    } else if p.len() == 3 && p[0] == "m"@ {
        match parsed_i64(p[1]) {
            Some(n) => r matches Ok(GroupCallback::Member { conversation, user_id }) && conversation
                == n && user_id@ == p[2],
            None => r matches Err(m) && m@ == integer_fault(p[1]),
        }
    } else if p.len() == 4 && p[0] == "ma"@ {
        match parsed_i64(p[1]) {
            Some(n) => r matches Ok(GroupCallback::MemberAct { conversation, user_id, action })
                && conversation == n && user_id@ == p[2] && action == member_action_of(p[3]),
            None => r matches Err(m) && m@ == integer_fault(p[1]),
        }
    } else {
        r == Ok::<GroupCallback, String>(GroupCallback::Nothing)
    }
}

/// What a button about a group means.
pub fn parse_group_callback(data: &str) -> (r: Result<GroupCallback, String>)
    ensures
        group_meant(split(data@, seq![':']), r),
{
    let seps: [char; 1] = [':'];
    assert(seps@ =~= seq![':']);
    let p = split_on(data, seps.as_slice());
    let ghost t = texts(p@);
    assert(t.len() == p@.len());
    if p.len() == 3 && same(p[0].as_str(), "g") {
        assert(t[0] == p@[0]@ && t[1] == p@[1]@ && t[2] == p@[2]@);
        let conversation: i64 = match number_in(p[1].as_str()) {
            Ok(n) => n,
            Err(m) => {
                return Err(m);
            },
        };
        Ok(GroupCallback::Card { conversation, action: parse_card_action(p[2].as_str()) })
    } else if p.len() == 3 && same(p[0].as_str(), "m") {
        assert(t[0] == p@[0]@ && t[1] == p@[1]@ && t[2] == p@[2]@);
        let conversation: i64 = match number_in(p[1].as_str()) {
            Ok(n) => n,
            Err(m) => {
                return Err(m);
            },
        };
        Ok(GroupCallback::Member { conversation, user_id: p[2].clone() })
    } else if p.len() == 4 && same(p[0].as_str(), "ma") {
        assert(t[0] == p@[0]@ && t[1] == p@[1]@ && t[2] == p@[2]@ && t[3] == p@[3]@);
        let conversation: i64 = match number_in(p[1].as_str()) {
            Ok(n) => n,
            Err(m) => {
                return Err(m);
            },
        };
        let what = p[3].as_str();
        let action = if same(what, "a") {
            MemberAction::Promote
        } else if same(what, "m") {
            MemberAction::Demote
        } else if same(what, "r") {
            MemberAction::Remove
        } else {
            MemberAction::Nothing
        };
        Ok(GroupCallback::MemberAct { conversation, user_id: p[2].clone(), action })
    } else {
        proof {
            if t.len() > 0 {
                assert(t[0] == p@[0]@);
            }
        }
        Ok(GroupCallback::Nothing)
    }
}

/// Whether a conversation belongs to the sender's account.
pub fn owns(account: &Option<Account>, conv: &Option<Conversation>) -> (r: bool)
    ensures
        r == (account matches Some(a) && conv matches Some(c) && c.account == a.id),
{
    match (account, conv) {
        (Some(a), Some(c)) => c.account == a.id,
        _ => false,
    }
}

/// Whether the sender may act on a conversation: it exists, belongs to their account, and the
/// account is running.
pub fn own_conversation(
    account: &Option<Account>,
    conv: &Option<Conversation>,
    running: bool,
) -> (r: Result<(), String>)
    ensures
        match r {
            Ok(()) => account matches Some(a) && conv matches Some(c) && c.account == a.id
                && running,
            Err(m) => m@ == (if *account is None {
                "not connected"@
            } else if *conv is None {
                "unknown group"@
            } else if conv->0.account != account->0.id {
                "not your group"@
            } else {
                stopped_text(account->0.id)
            }) && !(*account is Some && *conv is Some && conv->0.account == account->0.id
                && running),
        },
{
    let a = match account {
        Some(a) => a,
        None => {
            return Err("not connected".to_owned());
        },
    };
    let c = match conv {
        Some(c) => c,
        None => {
            return Err("unknown group".to_owned());
        },
    };
    if c.account != a.id {
        return Err("not your group".to_owned());
    }
    if !running {
        return Err(stopped(a.id));
    }
    Ok(())
}

/// An error as a toast: its first 180 characters.
pub fn error_toast(m: &str) -> (r: String)
    ensures
        r@ == first_chars(m@, 180),
{
    take_chars(m, 180)
}

/// The toast after a group was marked read.
pub fn read_toast(seq: i64) -> (r: &'static str)
    ensures
        r@ == (if seq > 0 {
            "Marked read"@
        } else {
            "Nothing to mark"@
        }),
{
    if seq > 0 {
        "Marked read"
    } else {
        "Nothing to mark"
    }
}

/// The toast after a group was muted or unmuted.
pub fn mute_toast(was_muted: bool) -> (r: &'static str)
    ensures
        r@ == (if was_muted {
            "Unmuted"@
        } else {
            "Muted"@
        }),
{
    if was_muted {
        "Unmuted"
    } else {
        "Muted"
    }
}

/// The question before deleting a group, on its card.
pub fn ask_delete_card(c: &Conversation) -> (r: Reply)
    ensures
        face(r) == (Face {
            text: "Delete <b>"@ + escaped(asked_name(*c))
                + "</b> for all members? This cannot be undone."@,
            keyboard: seq![
                seq![
                    ("Delete for everyone"@, group_data(c.id, "del2"@)),
                    ("Cancel"@, group_data(c.id, "card"@)),
                ],
            ],
        }),
{
    let name = match &c.name {
        Some(n) => n.as_str(),
        None => "this group",
    };
    let text = "Delete <b>".to_owned().concat(escape_html(name).as_str()).concat(
        "</b> for all members? This cannot be undone.",
    );
    ask(
        text,
        two(
            button("Delete for everyone", group_action(c.id, "del2")),
            button("Cancel", group_action(c.id, "card")),
        ),
    )
}

/// The prompt for the phone numbers of new members.
pub const ASK_NUMBERS: &'static str =
    "Send the phone numbers to add (comma-separated), or /cancel.";

/// The prompt for a group's new name.
pub const ASK_RENAME: &'static str = "Send the new group name (max 100 characters), or /cancel.";

/// The answer to a finished disconnection.
pub fn disconnected_text(purge: bool) -> (r: &'static str)
    ensures
        r@ == (if purge {
            "Disconnected and erased. Your Tzibbur account is untouched."@
        } else {
            "Disconnected. Your topics stay; /reconnect restores them."@
        }),
{
    if purge {
        "Disconnected and erased. Your Tzibbur account is untouched."
    } else {
        "Disconnected. Your topics stay; /reconnect restores them."
    }
}

/// The member with an id.
pub fn pick_member<'a>(members: &'a Vec<MemberEntity>, user_id: &str) -> (r: Result<
    &'a MemberEntity,
    String,
>)
    ensures
        match r {
            Ok(m) => exists|i: int|
                0 <= i < members@.len() && members@[i] == *m && m.user_id@ == user_id@ && forall|j: int|
                    0 <= j < i ==> (#[trigger] members@[j]).user_id@ != user_id@,
            Err(e) => e@ == "member not found"@ && forall|j: int|
                0 <= j < members@.len() ==> (#[trigger] members@[j]).user_id@ != user_id@,
        },
{
    let mut i: usize = 0;
    while i < members.len()
        invariant
            i <= members.len(),
            forall|j: int| 0 <= j < i ==> (#[trigger] members@[j]).user_id@ != user_id@,
        decreases members.len() - i,
    {
        if same(members[i].user_id.as_str(), user_id) {
            return Ok(&members[i]);
        }
        i += 1;
    }
    Err("member not found".to_owned())
}

/// No colon stands in a text.
pub open spec fn colon_free(s: Seq<char>) -> bool {
    forall|i: int| 0 <= i < s.len() ==> #[trigger] s[i] != ':'
}

proof fn lemma_split_free(s: Seq<char>)
    requires
        colon_free(s),
    ensures
        split(s, seq![':']) == seq![s],
    decreases s.len(),
{
    let seps = seq![':'];
    if s.len() == 0 {
        assert(s =~= Seq::empty());
    } else {
        lemma_split_free(s.drop_last());
        assert(!seps.contains(s.last())) by {
            if seps.contains(s.last()) {
                assert(s[s.len() - 1] == ':');
            }
        }
        assert(s.drop_last().push(s.last()) =~= s);
        assert(split(s, seps) =~= seq![s]);
    }
}

proof fn lemma_split_more(a: Seq<char>, b: Seq<char>)
    requires
        colon_free(b),
    ensures
        split(a + ":"@ + b, seq![':']) == split(a, seq![':']).push(b),
    decreases b.len(),
{
    reveal_strlit(":");
    let seps = seq![':'];
    let s = a + ":"@ + b;
    crate::text::lemma_split_nonempty(a, seps);
    if b.len() == 0 {
        assert(s.drop_last() =~= a);
        assert(seps.contains(s.last())) by {
            assert(seps[0] == ':');
        }
        assert(b =~= Seq::empty());
        assert(split(s, seps) =~= split(a, seps).push(b));
    } else {
        let c = b.drop_last();
        lemma_split_more(a, c);
        assert(s.drop_last() =~= a + ":"@ + c);
        assert(s.last() == b[b.len() - 1]);
        assert(!seps.contains(s.last()));
        let before = split(a, seps).push(c);
        assert(before.drop_last() =~= split(a, seps));
        assert(c.push(b.last()) =~= b);
        assert(split(s, seps) =~= split(a, seps).push(b));
    }
}

proof fn lemma_decimal_is_colon_free(n: nat)
    ensures
        colon_free(decimal(n)),
    decreases n,
{
    if n >= 10 {
        lemma_decimal_is_colon_free(n / 10);
    }
}

proof fn lemma_integer_is_colon_free(n: int)
    ensures
        colon_free(decimal_int(n)),
{
    if n < 0 {
        lemma_decimal_is_colon_free((-n) as nat);
    } else {
        lemma_decimal_is_colon_free(n as nat);
    }
}

proof fn lemma_read_back(n: i64)
    ensures
        parsed_i64(decimal_int(n as int)) == Some(n),
{
    law_decimal_roundtrip(n as int);
}

proof fn lemma_three_parts(head: Seq<char>, conv: i64, last: Seq<char>)
    requires
        colon_free(head),
        colon_free(last),
    ensures
        split(head + ":"@ + decimal_int(conv as int) + ":"@ + last, seq![':']) == seq![
            head,
            decimal_int(conv as int),
            last,
        ],
{
    let d = decimal_int(conv as int);
    lemma_integer_is_colon_free(conv as int);
    lemma_split_free(head);
    lemma_split_more(head, d);
    lemma_split_more(head + ":"@ + d, last);
    assert(seq![head].push(d).push(last) =~= seq![head, d, last]);
}

/// A button of the group card is understood as what it was made for.
pub proof fn law_card_buttons_understood(
    conv: i64,
    action: Seq<char>,
    r: Result<GroupCallback, String>,
)
    requires
        colon_free(action),
        group_meant(split(group_data(conv, action), seq![':']), r),
    ensures
        meant(group_data(conv, action)) == Meaning::Group,
        r == Ok::<GroupCallback, String>(
            GroupCallback::Card { conversation: conv, action: card_action(action) },
        ),
{
    reveal_strlit("g:");
    reveal_strlit("g");
    reveal_strlit(":");
    reveal_strlit("noop");
    reveal_strlit("connect");
    reveal_strlit("reconnect");
    reveal_strlit("disc:keep");
    reveal_strlit("disc:purge");
    let d = group_data(conv, action);
    assert("g:"@ =~= "g"@ + ":"@);
    lemma_three_parts("g"@, conv, action);
    lemma_read_back(conv);
    assert(d =~= "g"@ + ":"@ + decimal_int(conv as int) + ":"@ + action);
    assert(d.subrange(0, 2) =~= "g:"@);
    assert(d[0] == 'g');
    assert(d != "noop"@ && d != "connect"@ && d != "reconnect"@ && d != "disc:keep"@ && d
        != "disc:purge"@) by {
        assert("noop"@[0] == 'n');
        assert("connect"@[0] == 'c');
        assert("reconnect"@[0] == 'r');
        assert("disc:keep"@[0] == 'd');
        assert("disc:purge"@[0] == 'd');
    }
}

/// A member's button is understood as what it was made for.
pub proof fn law_member_buttons_understood(
    conv: i64,
    user: Seq<char>,
    r: Result<GroupCallback, String>,
)
    requires
        colon_free(user),
        group_meant(split(member_data(conv, user), seq![':']), r),
    ensures
        r matches Ok(GroupCallback::Member { conversation, user_id }) && conversation == conv
            && user_id@ == user,
{
    reveal_strlit("m:");
    reveal_strlit("m");
    reveal_strlit("g");
    reveal_strlit(":");
    assert("m:"@ =~= "m"@ + ":"@);
    assert("m"@[0] == 'm' && "g"@[0] == 'g');
    lemma_three_parts("m"@, conv, user);
    lemma_read_back(conv);
    assert(member_data(conv, user) =~= "m"@ + ":"@ + decimal_int(conv as int) + ":"@ + user);
}

/// A button of a member's menu is understood as what it was made for.
pub proof fn law_menu_buttons_understood(
    conv: i64,
    user: Seq<char>,
    what: Seq<char>,
    r: Result<GroupCallback, String>,
)
    requires
        colon_free(user),
        colon_free(what),
        group_meant(split(member_action_data(conv, user, what), seq![':']), r),
    ensures
        r matches Ok(GroupCallback::MemberAct { conversation, user_id, action }) && conversation
            == conv && user_id@ == user && action == member_action_of(what),
{
    reveal_strlit("ma:");
    reveal_strlit("ma");
    reveal_strlit(":");
    assert("ma:"@ =~= "ma"@ + ":"@);
    lemma_three_parts("ma"@, conv, user);
    lemma_split_more("ma"@ + ":"@ + decimal_int(conv as int) + ":"@ + user, what);
    lemma_read_back(conv);
    assert(member_action_data(conv, user, what) =~= "ma"@ + ":"@ + decimal_int(conv as int) + ":"@
        + user + ":"@ + what);
    assert(seq!["ma"@, decimal_int(conv as int), user].push(what) =~= seq![
        "ma"@,
        decimal_int(conv as int),
        user,
        what,
    ]);
}

/// A button that leaves a group is understood as what it was made for.
pub proof fn law_leave_buttons_understood(conv: i64)
    ensures
        meant(leave_data(conv)) == Meaning::Leave(conv),
{
    reveal_strlit("leave:");
    reveal_strlit("noop");
    reveal_strlit("connect");
    reveal_strlit("reconnect");
    reveal_strlit("disc:keep");
    reveal_strlit("disc:purge");
    reveal_strlit("g:");
    reveal_strlit("m:");
    reveal_strlit("ma:");
    reveal_strlit("cat:");
    let d = leave_data(conv);
    lemma_read_back(conv);
    assert(d[0] == 'l');
    assert(d.subrange(0, 6) =~= "leave:"@);
    assert(d.skip(6) =~= decimal_int(conv as int));
    assert("noop"@[0] == 'n' && "connect"@[0] == 'c' && "reconnect"@[0] == 'r' && "disc:keep"@[0]
        == 'd' && "disc:purge"@[0] == 'd');
    assert(!begins_with(d, "g:"@)) by {
        assert(d.subrange(0, 2)[0] == 'l');
        assert("g:"@[0] == 'g');
    }
    assert(!begins_with(d, "m:"@)) by {
        assert(d.subrange(0, 2)[0] == 'l');
        assert("m:"@[0] == 'm');
    }
    assert(!begins_with(d, "ma:"@)) by {
        assert(d.subrange(0, 3)[0] == 'l');
        assert("ma:"@[0] == 'm');
    }
    assert(!begins_with(d, "cat:"@)) by {
        assert(d.subrange(0, 4)[0] == 'l');
        assert("cat:"@[0] == 'c');
    }
}

} // verus!
