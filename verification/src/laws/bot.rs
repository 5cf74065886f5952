//! What the bot does about the news of an account.

use crate::bridge::format::escaped;
use crate::bridge::i18n::{said, Lang};
use crate::bridge::records::{chat_of, topic_of, Conversation};
use crate::bridge::runtime::{
    act, acts, code_only, conversation_needed, deleted, handle_sync_event, is_missing_thread,
    last_alert, left, misnamed, reconcile_topic, recover, recreated_title, retired_topics,
    topic_title, topics_of, warn_topics_unavailable, Action, AlertLog, Recovery,
};
use crate::laws::text::law_contains;
use crate::models::Role;
use crate::sync::SyncEvent;
use crate::text::{ascii_lower, contains_text, split};
use vstd::prelude::*;

verus! {

proof fn lemma_acts(list: Seq<Action>)
    ensures
        acts(list).len() == list.len(),
        forall|i: int| 0 <= i < list.len() ==> #[trigger] acts(list)[i] == act(list[i]),
{
}

/// A note in a conversation: italics, with nothing of the text taken as markup.
pub open spec fn notes(a: Action, conv: i64, text: Seq<char>) -> bool {
    a matches Action::Note { conversation, html } && conversation == conv && html@ == "<i>"@
        + escaped(text) + "</i>"@
}

/// Messages are forwarded, confirmations are recorded, and after catching up or joining a group the
/// conversations are gone through. A change of the connection needs nothing.
pub proof fn law_plain_news(
    ev: SyncEvent,
    conv: &Option<Conversation>,
    name: Option<&str>,
    me: &str,
    lang: Lang,
    list: Vec<Action>,
)
    requires
        call_ensures(handle_sync_event, (ev, conv, name, me, lang), list),
    ensures
        ev is CaughtUp || ev is GroupJoined ==> list@.len() == 1 && list@[0] == Action::Reconcile,
        ev is StateChanged || ev is MembersChanged ==> list@.len() == 0,
        ev matches SyncEvent::NewMessages { group_id, messages } ==> list@.len() == 1 && (
        list@[0] matches Action::Forward { group_id: g, messages: m } && g@ == group_id@ && m@
            == messages@),
        ev matches SyncEvent::EchoConfirmed { client_message_id, server_id, seq, .. } ==> list@.len()
            == 1 && (list@[0] matches Action::Confirm { client_message_id: c, server_id: s, seq: n }
            && c@ == client_message_id@ && s@ == server_id@ && n == seq),
        ev is UpdateRequired ==> list@.len() == 1 && list@[0] is Notify,
        *conv is None && (ev is GroupChanged || ev is GroupDeleted || ev is MemberRemoved
            || ev is RoleChanged) ==> list@.len() == 0,
{
    lemma_acts(list@);
    if list@.len() > 0 {
        assert(acts(list@)[0] == act(list@[0]));
    }
}

/// A group with a new name gives it to its conversation; one whose conversation has the name
/// already changes nothing.
pub proof fn law_new_name(
    group_id: String,
    c: Conversation,
    n: &str,
    me: &str,
    lang: Lang,
    list: Vec<Action>,
)
    requires
        call_ensures(
            handle_sync_event,
            (SyncEvent::GroupChanged { group_id }, &Some(c), Some(n), me, lang),
            list,
        ),
    ensures
        c.name is Some && c.name->0@ == n@ ==> list@.len() == 0,
        c.name is None || c.name->0@ != n@ ==> list@.len() == 2 && (list@[0] matches Action::Rename {
            conversation,
            topic,
            title,
            name,
        } && conversation == c.id && topic == topic_of(c) && name@ == n@ && (n@.len() <= 128
            ==> title@ == n@) && (n@.len() > 128 ==> title@ == n@.take(128))) && notes(
            list@[1],
            c.id,
            said(lang, "renamed"@, seq![n@]),
        ),
{
    lemma_acts(list@);
    if list@.len() == 2 {
        assert(acts(list@)[0] == act(list@[0]));
        assert(acts(list@)[1] == act(list@[1]));
    }
}

/// A group that is gone is told of once; its topic is closed, and its conversation marked closed.
pub proof fn law_group_gone(
    group_id: String,
    c: Conversation,
    name: Option<&str>,
    me: &str,
    lang: Lang,
    list: Vec<Action>,
)
    requires
        call_ensures(
            handle_sync_event,
            (SyncEvent::GroupDeleted { group_id }, &Some(c), name, me, lang),
            list,
        ),
    ensures
        c.closed ==> list@.len() == 0,
        !c.closed ==> list@.len() >= 2 && notes(list@[0], c.id, said(lang, "group_gone"@, seq![]))
            && list@.last() == (Action::SetClosed { conversation: c.id, closed: true }),
        !c.closed && topic_of(c) is Some ==> list@.len() == 3 && list@[1] == (Action::CloseTopic {
            topic: topic_of(c)->0,
        }),
{
    lemma_acts(list@);
    if !c.closed {
        assert(acts(list@)[0] == act(list@[0]));
        assert(acts(list@)[1] == act(list@[1]));
        assert(acts(list@)[list@.len() - 1] == act(list@[list@.len() - 1]));
    }
}

/// Someone who joins is told of by name, the user as such, and messages that waited for members are
/// tried again, also where the group has no conversation.
pub proof fn law_someone_joined(
    ev: SyncEvent,
    conv: &Option<Conversation>,
    name: Option<&str>,
    me: &str,
    lang: Lang,
    list: Vec<Action>,
)
    requires
        call_ensures(handle_sync_event, (ev, conv, name, me, lang), list),
    ensures
        ev matches SyncEvent::MemberAdded { group_id, member } ==> {
            &&& list@.len() > 0
            &&& list@.last() matches Action::RetryTooSmall { group_id: g } && g@ == group_id@
            &&& *conv is None ==> list@.len() == 1
            &&& *conv is Some ==> list@.len() == 2 && notes(
                list@[0],
                (*conv)->0.id,
                said(
                    lang,
                    "joined"@,
                    seq![
                        if member.user_id@ == me@ {
                            "You"@
                        } else {
                            member.display_name@
                        },
                    ],
                ),
            )
        },
{
    lemma_acts(list@);
    if ev is MemberAdded {
        assert(acts(list@)[0] == act(list@[0]));
        assert(acts(list@)[list@.len() - 1] == act(list@[list@.len() - 1]));
    }
}

/// Someone who leaves is told of by name where it is known; the user's own leaving is not noted.
pub proof fn law_someone_left(
    ev: SyncEvent,
    c: Conversation,
    name: Option<&str>,
    me: &str,
    lang: Lang,
    list: Vec<Action>,
)
    requires
        call_ensures(handle_sync_event, (ev, &Some(c), name, me, lang), list),
    ensures
        ev matches SyncEvent::MemberRemoved { user_id, display_name, .. } ==> {
            &&& user_id@ == me@ ==> list@.len() == 0
            &&& user_id@ != me@ && display_name is Some ==> list@.len() == 1 && notes(
                list@[0],
                c.id,
                said(lang, "left"@, seq![display_name->0@]),
            )
            &&& user_id@ != me@ && display_name is None ==> list@.len() == 1 && notes(
                list@[0],
                c.id,
                said(lang, "left"@, seq!["A member"@]),
            )
        },
{
    lemma_acts(list@);
    if list@.len() > 0 {
        assert(acts(list@)[0] == act(list@[0]));
    }
}

/// A change of role is told of with the name and the new role.
pub proof fn law_role_noted(
    ev: SyncEvent,
    c: Conversation,
    name: Option<&str>,
    me: &str,
    lang: Lang,
    list: Vec<Action>,
)
    requires
        call_ensures(handle_sync_event, (ev, &Some(c), name, me, lang), list),
    ensures
        ev matches SyncEvent::RoleChanged { user_id, role, display_name, .. } ==> {
            let rest = if role == Role::Admin {
                " now an admin"@
            } else {
                " no longer an admin"@
            };
            &&& list@.len() == 1
            &&& user_id@ == me@ ==> notes(list@[0], c.id, "You"@ + " "@ + "are"@ + rest)
            &&& user_id@ != me@ && display_name is Some && display_name->0@ != "You"@ ==> notes(
                list@[0],
                c.id,
                display_name->0@ + " "@ + "is"@ + rest,
            )
            &&& user_id@ != me@ && display_name is None ==> notes(
                list@[0],
                c.id,
                "A member"@ + " "@ + "is"@ + rest,
            )
        },
{
    lemma_acts(list@);
    reveal_strlit("You");
    reveal_strlit("A member");
    assert("You"@.len() == 3 && "A member"@.len() == 8);
    if ev is RoleChanged {
        assert(acts(list@)[0] == act(list@[0]));
    }
}

/// The conversation that news is about: that of its group, except where the user left it.
pub proof fn law_whose_conversation(ev: &SyncEvent, me: &str, r: Option<String>)
    requires
        call_ensures(conversation_needed, (ev, me), r),
    ensures
        *ev matches SyncEvent::GroupChanged { group_id } ==> (r matches Some(g) && g@ == group_id@),
        *ev matches SyncEvent::GroupDeleted { group_id } ==> (r matches Some(g) && g@ == group_id@),
        *ev matches SyncEvent::MemberAdded { group_id, .. } ==> (r matches Some(g) && g@ == group_id@),
        *ev matches SyncEvent::RoleChanged { group_id, .. } ==> (r matches Some(g) && g@ == group_id@),
        *ev matches SyncEvent::MemberRemoved { group_id, user_id, .. } ==> (user_id@ == me@ ==> r is None)
            && (user_id@ != me@ ==> (r matches Some(g) && g@ == group_id@)),
        *ev is NewMessages || *ev is EchoConfirmed || *ev is CaughtUp || *ev is StateChanged ==> r is None,
{
}

/// Catching up makes a conversation for a group that has none; it names one that is named
/// otherwise, opens one that is closed, and leaves any other alone.
pub proof fn law_conversations_kept_up(
    conv: &Option<Conversation>,
    group: &str,
    name: &str,
    list: Vec<Action>,
)
    requires
        call_ensures(reconcile_topic, (conv, group, name), list),
    ensures
        *conv is None ==> list@.len() == 1 && (list@[0] matches Action::Create { group_id }
            && group_id@ == group@),
        *conv matches Some(c) ==> {
            let right = c.name is Some && c.name->0@ == name@;
            &&& right && !c.closed ==> list@.len() == 0
            &&& !right ==> list@.len() >= 1 && (list@[0] matches Action::Rename {
                conversation,
                name: n,
                ..
            } && conversation == c.id && n@ == name@)
            &&& !right && !c.closed ==> list@.len() == 1
            &&& c.closed ==> list@.contains(Action::SetClosed { conversation: c.id, closed: false })
            &&& c.closed && topic_of(c) is Some ==> list@.len() > 0 && list@.last() == (
            Action::ReopenTopic { topic: topic_of(c)->0 })
        },
{
    lemma_acts(list@);
    if list@.len() > 0 {
        assert(acts(list@)[0] == act(list@[0]));
        assert(acts(list@)[list@.len() - 1] == act(list@[list@.len() - 1]));
    }
    if let Some(c) = *conv {
        if c.closed {
            let k: int = if misnamed(c, name@) {
                1
            } else {
                0
            };
            assert(acts(list@)[k] == act(list@[k]));
            assert(list@[k] == (Action::SetClosed { conversation: c.id, closed: false }));
        }
    }
}

/// A group that was left or deleted is closed in the same way, each with its own words.
pub proof fn law_closing(c: &Conversation, a: Vec<Action>, b: Vec<Action>)
    requires
        call_ensures(left, (c,), a),
        call_ensures(deleted, (c,), b),
    ensures
        a@.len() >= 2 && notes(a@[0], c.id, "You left this group."@) && a@.last() == (
        Action::SetClosed { conversation: c.id, closed: true }),
        b@.len() >= 2 && notes(b@[0], c.id, "Group deleted."@) && b@.last() == (Action::SetClosed {
            conversation: c.id,
            closed: true,
        }),
{
    lemma_acts(a@);
    lemma_acts(b@);
    assert(acts(a@)[0] == act(a@[0]));
    assert(acts(a@)[a@.len() - 1] == act(a@[a@.len() - 1]));
    assert(acts(b@)[0] == act(b@[0]));
    assert(acts(b@)[b@.len() - 1] == act(b@[b@.len() - 1]));
}

/// The warning about topics is given once.
pub proof fn law_warned_once(has: bool, a: Option<String>, b: Option<String>)
    ensures
        forall|x: &mut bool, y: &mut bool| #[trigger]
            call_ensures(warn_topics_unavailable, (x, has), a) && *y == *final(x)
                && #[trigger] call_ensures(warn_topics_unavailable, (y, has), b) ==> (!*x ==> a is Some)
                && b is None,
{
}

/// Alerts about one scope are at least half an hour apart; the first is always given, and scopes do
/// not silence each other.
pub proof fn law_alerts(scope: &str, other: &str, text: &str, now: i64, later: i64, a: Option<String>, b: Option<String>)
    requires
        now <= later,
        scope@ != other@,
    ensures
        forall|x: &mut AlertLog, y: &mut AlertLog|
            last_alert(x.sent@, scope@) is None && #[trigger] call_ensures(
                AlertLog::alert,
                (x, scope, text, now),
                a,
            ) && *y == *final(x) && #[trigger] call_ensures(
                AlertLog::alert,
                (y, scope, text, later),
                b,
            ) ==> (a matches Some(s) && s@ == "Alert ["@ + scope@ + "]: "@ + text@) && (b is Some
                <==> later - now >= 1_800_000),
        forall|x: &mut AlertLog, y: &mut AlertLog|
            last_alert(x.sent@, other@) is None && #[trigger] call_ensures(
                AlertLog::alert,
                (x, scope, text, now),
                a,
            ) && *y == *final(x) && #[trigger] call_ensures(
                AlertLog::alert,
                (y, other, text, later),
                b,
            ) ==> b is Some,
{
}

/// What Telegram says of a topic that is gone, in small or capital letters.
pub proof fn law_missing_thread(error: &str, a: Seq<char>, b: Seq<char>, r: bool)
    requires
        call_ensures(is_missing_thread, (error,), r),
    ensures
        ascii_lower(error@) == (a + "thread not found"@) + b ==> r,
        ascii_lower(error@) == (a + "topic_deleted"@) + b ==> r,
        ascii_lower(error@) == (a + "topic not found"@) + b ==> r,
        !contains_text(ascii_lower(error@), "thread not found"@) && !contains_text(
            ascii_lower(error@),
            "topic_deleted"@,
        ) && !contains_text(ascii_lower(error@), "message thread not found"@) && !contains_text(
            ascii_lower(error@),
            "topic not found"@,
        ) ==> !r,
{
    law_contains(a, "thread not found"@, b);
    law_contains(a, "topic_deleted"@, b);
    law_contains(a, "topic not found"@, b);
}

/// A message that a topic refused goes to the topic on record where that is another one, else into
/// a new one; where the topic is not the reason, nothing helps.
pub proof fn law_recovery(error: &str, topic: Option<i32>, stored: Option<i32>, gone: bool, r: Recovery)
    requires
        call_ensures(is_missing_thread, (error,), gone),
        call_ensures(recover, (error, topic, stored), r),
    ensures
        topic is None || !gone ==> r == Recovery::GiveUp,
        topic is Some && gone && stored is Some && stored != topic ==> r == Recovery::Reuse(stored->0),
        topic is Some && gone && (stored is None || stored == topic) ==> r == Recovery::Recreate,
{
}

/// Titles are the first 128 characters of a name.
pub proof fn law_titles(name: &str, c: &Conversation, r: String, t: String)
    requires
        call_ensures(topic_title, (name,), r),
        call_ensures(recreated_title, (c,), t),
    ensures
        name@.len() <= 128 ==> r@ == name@,
        name@.len() > 128 ==> r@ == name@.take(128),
        c.name is None ==> t@ == "Tzibbur"@,
        c.name is Some && c.name->0@.len() <= 128 ==> t@ == c.name->0@,
{
    reveal_strlit("Tzibbur");
    assert("Tzibbur"@.len() == 7);
}

proof fn lemma_topics(convs: Seq<Conversation>, x: (i64, i32))
    ensures
        topics_of(convs).contains(x) <==> exists|i: int|
            0 <= i < convs.len() && topic_of(#[trigger] convs[i]) == Some(x.1) && chat_of(convs[i])
                == x.0,
    decreases convs.len(),
{
    if convs.len() > 0 {
        let front = convs.drop_last();
        let last = convs.last();
        let less = topics_of(front);
        let all = topics_of(convs);
        lemma_topics(front, x);
        if less.contains(x) {
            let k = choose|k: int| 0 <= k < less.len() && less[k] == x;
            assert(all[k] == x);
            let i = choose|i: int|
                0 <= i < front.len() && topic_of(#[trigger] front[i]) == Some(x.1) && chat_of(front[i])
                    == x.0;
            assert(convs[i] == front[i]);
        }
        if all.contains(x) && !less.contains(x) {
            let k = choose|k: int| 0 <= k < all.len() && all[k] == x;
            if k < less.len() {
                assert(less[k] == x);
            }
            assert(convs[convs.len() - 1] == last);
        }
        if exists|i: int|
            0 <= i < convs.len() && topic_of(#[trigger] convs[i]) == Some(x.1) && chat_of(convs[i])
                == x.0 {
            let i = choose|i: int|
                0 <= i < convs.len() && topic_of(#[trigger] convs[i]) == Some(x.1) && chat_of(convs[i])
                    == x.0;
            if i < front.len() {
                assert(front[i] == convs[i]);
            } else {
                assert(all[all.len() - 1] == x);
            }
        }
    }
}

/// The topics to delete are those of the conversations that have one, each with its chat.
pub proof fn law_retired_topics(convs: &Vec<Conversation>, r: Vec<(i64, i32)>, x: (i64, i32))
    requires
        call_ensures(retired_topics, (convs,), r),
    ensures
        r@.contains(x) <==> exists|i: int|
            0 <= i < convs@.len() && topic_of(#[trigger] convs@[i]) == Some(x.1) && chat_of(convs@[i])
                == x.0,
{
    lemma_topics(convs@, x);
}

/// Of an error's text only its first clause gets out, and at most eighty characters of it.
pub proof fn law_code_only(error: &str, r: String)
    requires
        call_ensures(code_only, (error,), r),
    ensures
        r@.len() <= 80,
        r@.is_prefix_of(split(error@, seq!['\n', ':'])[0]),
        split(error@, seq!['\n', ':'])[0].len() <= 80 ==> r@ == split(error@, seq!['\n', ':'])[0],
{
}

} // verus!
