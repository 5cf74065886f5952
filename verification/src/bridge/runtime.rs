//! What a connected account does about the news from its groups: which topics it creates, renames,
//! closes and reopens, and which notes it posts.

use crate::bridge::format::{escape_html, escaped};
use crate::bridge::i18n::{phrase, phrase_of, said, Lang};
use crate::bridge::records::{
    chat_of, preference, topic_in, topic_of, BridgeUser, Conversation,
};
use crate::models::{opt_text, Role};
use crate::numbers::{parse_i64, parsed_i64};
use crate::store::MessageEntity;
use crate::sync::SyncEvent;
use crate::text::{
    ascii_lower, contains, contains_text, first_chars, lemma_split_nonempty, same, split, split_on,
    take_chars, texts, to_ascii_lower,
};
use vstd::prelude::*;

verus! {

/// The longest title of a topic, in characters.
pub const TOPIC_TITLE: usize = 128;

/// Milliseconds between two alerts about the same scope.
pub const ALERT_PAUSE: i64 = 1_800_000;

/// Milliseconds between two attempts to forward what an outage left behind.
pub const FLUSH_PAUSE: u64 = 45_000;

/// One thing to do for an account.
#[derive(Debug)]
pub enum Action {
    /// Create missing topics, fix names, reopen topics.
    Reconcile,
    /// Forward new messages of a group.
    Forward { group_id: String, messages: Vec<MessageEntity> },
    /// Record that one of the account's own messages was accepted.
    Confirm { client_message_id: String, server_id: String, seq: i64 },
    /// Give the topic, if there is one, a new title, and store the group's name.
    Rename { conversation: i64, topic: Option<i32>, title: String, name: String },
    /// Post a note to the topic of a conversation; one that cannot be posted is dropped.
    Note { conversation: i64, html: String },
    CloseTopic { topic: i32 },
    ReopenTopic { topic: i32 },
    SetClosed { conversation: i64, closed: bool },
    /// Map the group to a new topic.
    Create { group_id: String },
    /// Tell the user in the main thread.
    Notify { html: String },
    /// Send what failed because the group was too small.
    RetryTooSmall { group_id: String },
}

/// An action by its texts.
#[verifier::ext_equal]
pub enum Act {
    Reconcile,
    Forward(Seq<char>, Seq<MessageEntity>),
    Confirm(Seq<char>, Seq<char>, i64),
    Rename(i64, Option<i32>, Seq<char>, Seq<char>),
    Note(i64, Seq<char>),
    CloseTopic(i32),
    ReopenTopic(i32),
    SetClosed(i64, bool),
    Create(Seq<char>),
    Notify(Seq<char>),
    RetryTooSmall(Seq<char>),
}

/// What an action does.
pub open spec fn act(a: Action) -> Act {
    match a {
        Action::Reconcile => Act::Reconcile,
        Action::Forward { group_id, messages } => Act::Forward(group_id@, messages@),
        Action::Confirm { client_message_id, server_id, seq } => Act::Confirm(
            client_message_id@,
            server_id@,
            seq,
        ),
        Action::Rename { conversation, topic, title, name } => Act::Rename(
            conversation,
            topic,
            title@,
            name@,
        ),
        Action::Note { conversation, html } => Act::Note(conversation, html@),
        Action::CloseTopic { topic } => Act::CloseTopic(topic),
        Action::ReopenTopic { topic } => Act::ReopenTopic(topic),
        Action::SetClosed { conversation, closed } => Act::SetClosed(conversation, closed),
        Action::Create { group_id } => Act::Create(group_id@),
        Action::Notify { html } => Act::Notify(html@),
        Action::RetryTooSmall { group_id } => Act::RetryTooSmall(group_id@),
    }
}

/// What a list of actions does, in order.
pub open spec fn acts(a: Seq<Action>) -> Seq<Act> {
    Seq::new(a.len(), |i: int| act(a[i]))
}

proof fn lemma_acts_push(a: Seq<Action>, x: Action)
    ensures
        acts(a.push(x)) == acts(a).push(act(x)),
{
    assert(acts(a.push(x)) =~= acts(a).push(act(x)));
}

/// Put an action at the end of a list.
fn then_do(list: &mut Vec<Action>, a: Action)
    ensures
        acts(final(list)@) == acts(old(list)@).push(act(a)),
{
    proof {
        lemma_acts_push(list@, a);
    }
    list.push(a);
}

/// A note in Telegram's notation.
pub open spec fn note_html(text: Seq<char>) -> Seq<char> {
    "<i>"@ + escaped(text) + "</i>"@
}

/// A note in Telegram's notation.
pub fn note(text: &str) -> (r: String)
    ensures
        r@ == note_html(text@),
{
    "<i>".to_owned().concat(escape_html(text).as_str()).concat("</i>")
}

/// The title of a group's topic.
pub fn topic_title(name: &str) -> (r: String)
    ensures
        r@ == first_chars(name@, TOPIC_TITLE as int),
{
    take_chars(name, TOPIC_TITLE)
}

/// Renaming the topic of a conversation.
pub open spec fn renaming(c: Conversation, name: Seq<char>) -> Act {
    Act::Rename(c.id, topic_of(c), first_chars(name, TOPIC_TITLE as int), name)
}

/// Give a conversation a new name.
pub fn rename(conv: &Conversation, name: &str) -> (a: Action)
    ensures
        act(a) == renaming(*conv, name@),
{
    Action::Rename {
        conversation: conv.id,
        topic: conv.topic_id(),
        title: topic_title(name),
        name: name.to_owned(),
    }
}

/// A note in a conversation.
pub open spec fn noting(c: Conversation, text: Seq<char>) -> Act {
    Act::Note(c.id, note_html(text))
}

/// Post a note to a conversation.
pub fn post(conv: &Conversation, text: &str) -> (a: Action)
    ensures
        act(a) == noting(*conv, text@),
{
    Action::Note { conversation: conv.id, html: note(text) }
}

/// Whether a conversation bears another name than the group.
pub open spec fn misnamed(c: Conversation, name: Seq<char>) -> bool {
    opt_text(c.name) != Some(name)
}

fn is_misnamed(conv: &Conversation, name: &str) -> (r: bool)
    ensures
        r == misnamed(*conv, name@),
{
    match &conv.name {
        Some(n) => !same(n.as_str(), name),
        None => true,
    }
}

/// Closing the topic of a group that is gone, after a last note.
pub open spec fn closing(c: Conversation, text: Seq<char>) -> Seq<Act> {
    seq![noting(c, text)] + (match topic_of(c) {
        Some(t) => seq![Act::CloseTopic(t)],
        None => seq![],
    }) + seq![Act::SetClosed(c.id, true)]
}

/// Close the topic of a group that is gone, after a last note.
pub fn close(conv: &Conversation, text: &str) -> (list: Vec<Action>)
    ensures
        acts(list@) == closing(*conv, text@),
{
    let mut list: Vec<Action> = Vec::new();
    assert(acts(list@) =~= seq![]);
    then_do(&mut list, post(conv, text));
    match conv.topic_id() {
        Some(t) => {
            then_do(&mut list, Action::CloseTopic { topic: t });
        },
        None => {},
    }
    then_do(&mut list, Action::SetClosed { conversation: conv.id, closed: true });
    assert(acts(list@) =~= closing(*conv, text@));
    list
}

/// A group the user left.
pub fn left(conv: &Conversation) -> (list: Vec<Action>)
    ensures
        acts(list@) == closing(*conv, "You left this group."@),
{
    close(conv, "You left this group.")
}

/// A group the user deleted.
pub fn deleted(conv: &Conversation) -> (list: Vec<Action>)
    ensures
        acts(list@) == closing(*conv, "Group deleted."@),
{
    close(conv, "Group deleted.")
}

/// The user's name for someone: "You", a name, or a stand-in.
pub open spec fn who(user: Seq<char>, me: Seq<char>, name: Option<Seq<char>>) -> Seq<char> {
    if user == me {
        "You"@
    } else {
        match name {
            Some(n) => n,
            None => "A member"@,
        }
    }
}

fn named(user: &str, me: &str, name: &Option<String>) -> (r: String)
    ensures
        r@ == who(user@, me@, opt_text(*name)),
{
    if same(user, me) {
        "You".to_owned()
    } else {
        match name {
            Some(n) => n.clone(),
            None => "A member".to_owned(),
        }
    }
}

/// The note about a change of role.
pub open spec fn role_note(name: Seq<char>, role: Role) -> Seq<char> {
    name + " "@ + (if name == "You"@ {
        "are"@
    } else {
        "is"@
    }) + (if role == Role::Admin {
        " now an admin"@
    } else {
        " no longer an admin"@
    })
}

fn note_of_role(name: &str, role: Role) -> (r: String)
    ensures
        r@ == role_note(name@, role),
{
    let verb = if same(name, "You") {
        "are"
    } else {
        "is"
    };
    let rest = match role {
        Role::Admin => " now an admin",
        Role::Member => " no longer an admin",
    };
    name.to_owned().concat(" ").concat(verb).concat(rest)
}

/// The notice that this client is too old for the server.
pub const UPDATE_REQUIRED: &'static str =
    "Tzibbur no longer accepts this client version. The bot needs an update.";

/// The group whose conversation decides what an event leads to.
pub open spec fn concerned(ev: SyncEvent, me: Seq<char>) -> Option<Seq<char>> {
    match ev {
        SyncEvent::GroupChanged { group_id } => Some(group_id@),
        SyncEvent::GroupDeleted { group_id } => Some(group_id@),
        SyncEvent::MemberAdded { group_id, .. } => Some(group_id@),
        SyncEvent::MemberRemoved { group_id, user_id, .. } => if user_id@ == me {
            None
        } else {
            Some(group_id@)
        },
        SyncEvent::RoleChanged { group_id, .. } => Some(group_id@),
        _ => None,
    }
}

/// The group whose conversation has to be looked up before an event is handled.
pub fn conversation_needed(ev: &SyncEvent, me: &str) -> (r: Option<String>)
    ensures
        opt_text(r) == concerned(*ev, me@),
{
    match ev {
        SyncEvent::GroupChanged { group_id } => Some(group_id.clone()),
        SyncEvent::GroupDeleted { group_id } => Some(group_id.clone()),
        SyncEvent::MemberAdded { group_id, .. } => Some(group_id.clone()),
        SyncEvent::MemberRemoved { group_id, user_id, .. } => if same(user_id.as_str(), me) {
            None
        } else {
            Some(group_id.clone())
        },
        SyncEvent::RoleChanged { group_id, .. } => Some(group_id.clone()),
        _ => None,
    }
}

/// What an event leads to, given the conversation of its group and the group's cached name.
pub open spec fn reaction(
    ev: SyncEvent,
    conv: Option<Conversation>,
    name: Option<Seq<char>>,
    me: Seq<char>,
    lang: Lang,
) -> Seq<Act> {
    match ev {
        SyncEvent::CaughtUp => seq![Act::Reconcile],
        SyncEvent::GroupJoined { .. } => seq![Act::Reconcile],
        SyncEvent::NewMessages { group_id, messages } => seq![Act::Forward(group_id@, messages@)],
        SyncEvent::EchoConfirmed { client_message_id, server_id, seq, .. } => seq![
            Act::Confirm(client_message_id@, server_id@, seq),
        ],
        SyncEvent::GroupChanged { .. } => match conv {
            Some(c) => match name {
                Some(n) => if misnamed(c, n) {
                    seq![renaming(c, n), noting(c, said(lang, "renamed"@, seq![n]))]
                } else {
                    seq![]
                },
                None => seq![],
            },
            None => seq![],
        },
        SyncEvent::GroupDeleted { .. } => match conv {
            Some(c) => if c.closed {
                seq![]
            } else {
                closing(c, said(lang, "group_gone"@, seq![]))
            },
            None => seq![],
        },
        SyncEvent::UpdateRequired => seq![Act::Notify(escaped(UPDATE_REQUIRED@))],
        SyncEvent::StateChanged(_) => seq![],
        SyncEvent::MembersChanged { .. } => seq![],
        SyncEvent::MemberAdded { group_id, member } => (match conv {
            Some(c) => seq![
                noting(
                    c,
                    said(
                        lang,
                        "joined"@,
                        seq![who(member.user_id@, me, Some(member.display_name@))],
                    ),
                ),
            ],
            None => seq![],
        }).push(Act::RetryTooSmall(group_id@)),
        SyncEvent::MemberRemoved { user_id, display_name, .. } => match conv {
            Some(c) => if user_id@ == me {
                seq![]
            } else {
                seq![
                    noting(c, said(lang, "left"@, seq![who(user_id@, me, opt_text(display_name))])),
                ]
            },
            None => seq![],
        },
        SyncEvent::RoleChanged { user_id, role, display_name, .. } => match conv {
            Some(c) => seq![
                noting(c, role_note(who(user_id@, me, opt_text(display_name)), role)),
            ],
            None => seq![],
        },
    }
}

fn on_group_changed(conv: &Option<Conversation>, name: Option<&str>, lang: Lang) -> (list: Vec<
    Action,
>)
    ensures
        acts(list@) == (match *conv {
            Some(c) => match name {
                Some(n) => if misnamed(c, n@) {
                    seq![renaming(c, n@), noting(c, said(lang, "renamed"@, seq![n@]))]
                } else {
                    seq![]
                },
                None => seq![],
            },
            None => seq![],
        }),
{
    let mut list: Vec<Action> = Vec::new();
    assert(acts(list@) =~= seq![]);
    match conv {
        Some(c) => match name {
            Some(n) => {
                if is_misnamed(c, n) {
                    then_do(&mut list, rename(c, n));
                    then_do(&mut list, post(c, phrase_of(lang, "renamed", n).as_str()));
                    assert(acts(list@) =~= seq![
                        renaming(*c, n@),
                        noting(*c, said(lang, "renamed"@, seq![n@])),
                    ]);
                }
            },
            None => {},
        },
        None => {},
    }
    list
}

fn on_group_deleted(conv: &Option<Conversation>, lang: Lang) -> (list: Vec<Action>)
    ensures
        acts(list@) == (match *conv {
            Some(c) => if c.closed {
                seq![]
            } else {
                closing(c, said(lang, "group_gone"@, seq![]))
            },
            None => seq![],
        }),
{
    match conv {
        Some(c) => {
            if !c.closed {
                return close(c, phrase(lang, "group_gone").as_str());
            }
        },
        None => {},
    }
    let list: Vec<Action> = Vec::new();
    assert(acts(list@) =~= seq![]);
    list
}

/// Handle an event, given the conversation of its group and the group's cached name.
pub fn handle_sync_event(
    ev: SyncEvent,
    conv: &Option<Conversation>,
    name: Option<&str>,
    me: &str,
    lang: Lang,
) -> (list: Vec<Action>)
    ensures
        acts(list@) == reaction(
            ev,
            *conv,
            match name {
                Some(n) => Some(n@),
                None => None,
            },
            me@,
            lang,
        ),
{
    let mut list: Vec<Action> = Vec::new();
    assert(acts(list@) =~= seq![]);
    match ev {
        SyncEvent::CaughtUp => {
            then_do(&mut list, Action::Reconcile);
            assert(acts(list@) =~= seq![Act::Reconcile]);
        },
        SyncEvent::GroupJoined { .. } => {
            then_do(&mut list, Action::Reconcile);
            assert(acts(list@) =~= seq![Act::Reconcile]);
        },
        SyncEvent::NewMessages { group_id, messages } => {
            let a = Action::Forward { group_id, messages };
            then_do(&mut list, a);
            assert(acts(list@) =~= seq![act(a)]);
        },
        SyncEvent::EchoConfirmed { client_message_id, server_id, seq, .. } => {
            let a = Action::Confirm { client_message_id, server_id, seq };
            then_do(&mut list, a);
            assert(acts(list@) =~= seq![act(a)]);
        },
        SyncEvent::GroupChanged { .. } => {
            return on_group_changed(conv, name, lang);
        },
        SyncEvent::GroupDeleted { .. } => {
            return on_group_deleted(conv, lang);
        },
        SyncEvent::UpdateRequired => {
            then_do(&mut list, Action::Notify { html: escape_html(UPDATE_REQUIRED) });
            assert(acts(list@) =~= seq![Act::Notify(escaped(UPDATE_REQUIRED@))]);
        },
        SyncEvent::StateChanged(_) => {},
        SyncEvent::MembersChanged { .. } => {},
        SyncEvent::MemberAdded { group_id, member } => {
            match conv {
                Some(c) => {
                    let name = named(
                        member.user_id.as_str(),
                        me,
                        &Some(member.display_name.clone()),
                    );
                    then_do(&mut list, post(c, phrase_of(lang, "joined", name.as_str()).as_str()));
                },
                None => {},
            }
            then_do(&mut list, Action::RetryTooSmall { group_id });
            assert(acts(list@) =~= reaction(ev, *conv, None, me@, lang));
        },
        SyncEvent::MemberRemoved { user_id, display_name, .. } => {
            if !same(user_id.as_str(), me) {
                match conv {
                    Some(c) => {
                        let name = named(user_id.as_str(), me, &display_name);
                        then_do(
                            &mut list,
                            post(c, phrase_of(lang, "left", name.as_str()).as_str()),
                        );
                    },
                    None => {},
                }
            }
            assert(acts(list@) =~= reaction(ev, *conv, None, me@, lang));
        },
        SyncEvent::RoleChanged { user_id, role, display_name, .. } => {
            match conv {
                Some(c) => {
                    let name = named(user_id.as_str(), me, &display_name);
                    then_do(&mut list, post(c, note_of_role(name.as_str(), role).as_str()));
                },
                None => {},
            }
            assert(acts(list@) =~= reaction(ev, *conv, None, me@, lang));
        },
    }
    list
}

/// What catching up does for one group: a group without a conversation gets one; otherwise its name
/// is fixed and a closed topic is opened again.
pub open spec fn reconciled(conv: Option<Conversation>, group: Seq<char>, name: Seq<char>) -> Seq<Act> {
    match conv {
        None => seq![Act::Create(group)],
        Some(c) => (if misnamed(c, name) {
            seq![renaming(c, name)]
        } else {
            seq![]
        }) + (if c.closed {
            seq![Act::SetClosed(c.id, false)] + (match topic_of(c) {
                Some(t) => seq![Act::ReopenTopic(t)],
                None => seq![],
            })
        } else {
            seq![]
        }),
    }
}

/// Bring the conversation of one group up to date.
pub fn reconcile_topic(conv: &Option<Conversation>, group_id: &str, name: &str) -> (list: Vec<Action>)
    ensures
        acts(list@) == reconciled(*conv, group_id@, name@),
{
    let mut list: Vec<Action> = Vec::new();
    assert(acts(list@) =~= seq![]);
    match conv {
        None => {
            then_do(&mut list, Action::Create { group_id: group_id.to_owned() });
        },
        Some(c) => {
            if is_misnamed(c, name) {
                then_do(&mut list, rename(c, name));
            }
            if c.closed {
                then_do(&mut list, Action::SetClosed { conversation: c.id, closed: false });
                match c.topic_id() {
                    Some(t) => {
                        then_do(&mut list, Action::ReopenTopic { topic: t });
                    },
                    None => {},
                }
            }
        },
    }
    assert(acts(list@) =~= reconciled(*conv, group_id@, name@));
    list
}

/// Once a conversation bears the group's name and is open, catching up leaves it alone.
pub proof fn law_reconciling_settles(c: Conversation, group: Seq<char>, name: Seq<char>)
    requires
        opt_text(c.name) == Some(name),
        !c.closed,
    ensures
        reconciled(Some(c), group, name) == Seq::<Act>::empty(),
{
    assert(reconciled(Some(c), group, name) =~= Seq::empty());
}

/// A group that is gone is closed once: told again, the account does nothing.
pub proof fn law_group_closed_once(c: Conversation, ev: SyncEvent, me: Seq<char>, lang: Lang)
    requires
        ev is GroupDeleted,
    ensures
        !c.closed ==> reaction(ev, Some(c), None, me, lang).last() == Act::SetClosed(c.id, true),
        c.closed ==> reaction(ev, Some(c), None, me, lang) == Seq::<Act>::empty(),
{
}

/// The notice that a session expired, with a button to reconnect.
pub const SESSION_EXPIRED: &'static str = "Your Tzibbur session expired. Reconnect to resume.";

/// The notice that topics are unavailable in a chat.
pub const NO_TOPIC_HERE: &'static str =
    "ℹ️ I couldn't create a topic in this chat, so your Tzibbur groups will arrive as regular messages tagged with the group name. To send a message to a group, reply to one of its messages. If Telegram offers “Enable topics” for this chat, turn it on and run /reconnect.";

/// The notice that topics are unavailable for the bot.
pub const NO_TOPICS: &'static str =
    "ℹ️ Topic mode is not enabled for this bot (the bot owner must enable Topics in @BotFather). Your groups will arrive as regular messages tagged with the group name; reply to a message to answer in that group.";

/// The warning that groups arrive without topics, given once.
pub fn warn_topics_unavailable(warned: &mut bool, bot_has_topics: bool) -> (r: Option<String>)
    ensures
        *final(warned),
        opt_text(r) == (if *old(warned) {
            None
        } else if bot_has_topics {
            Some(escaped(NO_TOPIC_HERE@))
        } else {
            Some(escaped(NO_TOPICS@))
        }),
{
    if *warned {
        return None;
    }
    *warned = true;
    if bot_has_topics {
        Some(escape_html(NO_TOPIC_HERE))
    } else {
        Some(escape_html(NO_TOPICS))
    }
}

/// When the operator was last alerted about each scope.
#[derive(Debug)]
pub struct AlertLog {
    pub sent: Vec<(String, i64)>,
}

/// When a scope was last alerted about.
pub open spec fn last_alert(sent: Seq<(String, i64)>, scope: Seq<char>) -> Option<i64>
    decreases sent.len(),
{
    if sent.len() == 0 {
        None
    } else if sent.last().0@ == scope {
        Some(sent.last().1)
    } else {
        last_alert(sent.drop_last(), scope)
    }
}

/// The text of an alert.
pub open spec fn alert_text(scope: Seq<char>, text: Seq<char>) -> Seq<char> {
    "Alert ["@ + scope + "]: "@ + text
}

impl AlertLog {
    pub fn new() -> (r: Self)
        ensures
            forall|s: Seq<char>| #[trigger] last_alert(r.sent@, s) is None,
    {
        AlertLog { sent: Vec::new() }
    }

    fn last(&self, scope: &str) -> (r: Option<i64>)
        ensures
            r == last_alert(self.sent@, scope@),
    {
        let mut i: usize = self.sent.len();
        assert(self.sent@.take(i as int) =~= self.sent@);
        while i > 0
            invariant
                i <= self.sent.len(),
                last_alert(self.sent@, scope@) == last_alert(self.sent@.take(i as int), scope@),
            decreases i,
        {
            assert(self.sent@.take(i as int).drop_last() =~= self.sent@.take(i - 1));
            if same(self.sent[i - 1].0.as_str(), scope) {
                return Some(self.sent[i - 1].1);
            }
            i -= 1;
        }
        None
    }

    /// The alert to send now, unless the scope was alerted about within the last half hour.
    pub fn alert(&mut self, scope: &str, text: &str, now_ms: i64) -> (r: Option<String>)
        ensures
            ({
                let quiet = last_alert(old(self).sent@, scope@) matches Some(at) && now_ms - at
                    < ALERT_PAUSE;
                &&& opt_text(r) == (if quiet {
                    None
                } else {
                    Some(alert_text(scope@, text@))
                })
                &&& quiet ==> *final(self) == *old(self)
                &&& !quiet ==> last_alert(final(self).sent@, scope@) == Some(now_ms)
                &&& forall|s: Seq<char>|
                    s != scope@ ==> #[trigger] last_alert(final(self).sent@, s) == last_alert(
                        old(self).sent@,
                        s,
                    )
            }),
    {
        match self.last(scope) {
            Some(at) => {
                if (now_ms as i128) - (at as i128) < ALERT_PAUSE as i128 {
                    return None;
                }
            },
            None => {},
        }
        self.sent.push((scope.to_owned(), now_ms));
        assert(self.sent@.drop_last() =~= old(self).sent@);
        Some("Alert [".to_owned().concat(scope).concat("]: ").concat(text))
    }
}

/// The first clause of an error, cut to 80 characters, so that no message text gets out.
pub fn code_only(error: &str) -> (r: String)
    ensures
        r@ == first_chars(split(error@, seq!['\n', ':'])[0], 80),
{
    let seps: [char; 2] = ['\n', ':'];
    assert(seps@ =~= seq!['\n', ':']);
    let parts = split_on(error, seps.as_slice());
    proof {
        lemma_split_nonempty(error@, seq!['\n', ':']);
        assert(texts(parts@)[0] == parts@[0]@);
    }
    take_chars(parts[0].as_str(), 80)
}

/// The words by which Telegram says that a topic is gone.
pub open spec fn missing_thread(error: Seq<char>) -> bool {
    let s = ascii_lower(error);
    ||| contains_text(s, "thread not found"@)
    ||| contains_text(s, "topic_deleted"@)
    ||| contains_text(s, "message thread not found"@)
    ||| contains_text(s, "topic not found"@)
}

/// Whether an error of Telegram says that a topic is gone.
pub fn is_missing_thread(error: &str) -> (r: bool)
    ensures
        r == missing_thread(error@),
{
    let s = to_ascii_lower(error);
    contains(s.as_str(), "thread not found") || contains(s.as_str(), "topic_deleted") || contains(
        s.as_str(),
        "message thread not found",
    ) || contains(s.as_str(), "topic not found")
}

/// What to do about a message that Telegram refused.
#[derive(Debug, Clone, Copy, PartialEq, Eq, Structural)]
pub enum Recovery {
    /// Nothing helps: report the error.
    GiveUp,
    /// The topic was replaced meanwhile: send to the new one.
    Reuse(i32),
    /// Create the topic again, store it, and send there.
    Recreate,
}

/// How to go on after Telegram refused a message: `topic` is where it went, `stored` the topic on
/// record now.
pub fn recover(error: &str, topic: Option<i32>, stored: Option<i32>) -> (r: Recovery)
    ensures
        r == (if topic is None || !missing_thread(error@) {
            Recovery::GiveUp
        } else if stored is Some && stored != topic {
            Recovery::Reuse(stored->0)
        } else {
            Recovery::Recreate
        }),
{
    match topic {
        None => Recovery::GiveUp,
        Some(t) => {
            if !is_missing_thread(error) {
                return Recovery::GiveUp;
            }
            match stored {
                Some(s) => if s != t {
                    Recovery::Reuse(s)
                } else {
                    Recovery::Recreate
                },
                None => Recovery::Recreate,
            }
        },
    }
}

/// The title of a topic created again.
pub fn recreated_title(conv: &Conversation) -> (r: String)
    ensures
        r@ == first_chars(
            match conv.name {
                Some(n) => n@,
                None => "Tzibbur"@,
            },
            TOPIC_TITLE as int,
        ),
{
    match &conv.name {
        Some(n) => topic_title(n.as_str()),
        None => topic_title("Tzibbur"),
    }
}

/// The topics of a list of conversations, each with its chat.
pub open spec fn topics_of(convs: Seq<Conversation>) -> Seq<(i64, i32)>
    decreases convs.len(),
{
    if convs.len() == 0 {
        seq![]
    } else {
        let rest = topics_of(convs.drop_last());
        match topic_of(convs.last()) {
            Some(t) => rest.push((chat_of(convs.last()), t)),
            None => rest,
        }
    }
}

/// The topics to delete when an account is replaced.
pub fn retired_topics(convs: &Vec<Conversation>) -> (r: Vec<(i64, i32)>)
    ensures
        r@ == topics_of(convs@),
{
    let mut out: Vec<(i64, i32)> = Vec::new();
    let mut i: usize = 0;
    assert(convs@.take(0) =~= Seq::empty());
    while i < convs.len()
        invariant
            i <= convs.len(),
            out@ == topics_of(convs@.take(i as int)),
        decreases convs.len() - i,
    {
        assert(convs@.take(i + 1).drop_last() =~= convs@.take(i as int));
        match convs[i].topic_id() {
            Some(t) => {
                out.push((convs[i].chat_id(), t));
            },
            None => {},
        }
        i += 1;
    }
    assert(convs@.take(i as int) =~= convs@);
    out
}

/// The control topic of a user, with its chat, as earlier versions of the bot created it.
pub fn legacy_topic(user: &BridgeUser) -> (r: Option<(i64, i32)>)
    ensures
        r == (match topic_in(preference(*user, "home_topic_id"@)) {
            Some(t) => match parsed_i64(user.telegram_user_id@) {
                Some(chat) => Some((chat, t as i32)),
                None => None,
            },
            None => None,
        }),
{
    match user.home_topic_id() {
        Some(t) => match parse_i64(user.telegram_user_id.as_str()) {
            Some(chat) => Some((chat, t)),
            None => None,
        },
        None => None,
    }
}

} // verus!
