//! Commands, buttons and messages that the bot receives.

use crate::bridge::callbacks::{
    own_conversation, owns, parse_callback, parse_group_callback, pick_member, Callback, CardAction,
    GroupCallback, MemberAction,
};
use crate::bridge::commands::{
    admission, on_command, on_message, toggle_mute, toggled, Command, Facts, Routing, Task,
};
use crate::bridge::compose::Replied;
use crate::bridge::dialogue::State;
use crate::bridge::records::{Account, AccountSettings, AccountStatus, Conversation};
use crate::bridge::reply::Reply;
use crate::laws::common::lemma_only_group;
use crate::models::Role;
use crate::numbers::parsed_i64;
use crate::store::{GroupEntity, LocalStore, MemberEntity};
use crate::store::local::lemma_group_pos;
use crate::text::{split, trim};
use vstd::prelude::*;

verus! {

/// The sender's account is connected and runs.
pub open spec fn online(f: Facts) -> bool {
    f.account matches Some(a) && a.status == AccountStatus::Connected && f.running
}

/// The message stands in a topic of the sender's own account.
pub open spec fn in_own_topic(f: Facts) -> bool {
    f.account matches Some(a) && f.conversation matches Some(c) && c.account == a.id
}

/// Commands that ask the server need a running account, and commands about a group a topic of the
/// sender's own besides; without that they are refused, and nothing is done.
pub proof fn law_who_may_command(c: Command, f: &Facts, help: &str, region: &str, t: Task)
    requires
        call_ensures(on_command, (c, f, help, region), t),
    ensures
        (c is Sync || c is Chats || c is NewGroup || c is Contacts || c is Devices || c is Name)
            ==> (!online(*f) <==> t is Refuse),
        (c is Add || c is Group || c is Rename || c is Manage || c is DeleteGroup || c is Read
            || c is Members || c is Leave || c is Mute) ==> (!(online(*f) && in_own_topic(*f))
            <==> t is Refuse),
        c is Settings ==> (f.account is None <==> t is Refuse),
        (c is Help || c is Cancel || c is Donate || c is Privacy || c is Legal || c is Start
            || c is Connect || c is Reconnect || c is Disconnect || c is Status) ==> !(t is Refuse),
{
}

/// Each command leads to its own task.
pub proof fn law_command_tasks(c: Command, f: &Facts, help: &str, region: &str, t: Task)
    requires
        call_ensures(on_command, (c, f, help, region), t),
        !(t is Refuse),
    ensures
        c is Cancel ==> t is Cancel,
        c is Status ==> t is Status,
        c is Sync ==> t is Sync,
        c is Chats ==> t is Chats,
        c is Group ==> t is Card,
        c is Manage ==> t is Manage,
        c is DeleteGroup ==> t is AskDelete,
        c is Read ==> t is Read,
        c is Devices ==> t is Devices,
        c is Members ==> t is Members,
        c is Mute ==> t is Mute,
        c is Donate ==> t is Donate,
        c is Legal ==> t is Legal,
        c is NewGroup ==> (t matches Task::Begin { state, .. } && state == State::AwaitGroupName),
        c is Connect || c is Reconnect ==> (if online(*f) {
            t is Say
        } else {
            t matches Task::Begin { state, .. } && state == State::AwaitPhone
        }),
        c matches Command::Rename(arg) ==> (trim(arg@).len() == 0 ==> (t matches Task::Begin {
            state: State::AwaitRename { conv_id },
            ..
        } && conv_id == f.conversation->0.id)) && (0 < trim(arg@).len() <= 100 ==> (
        t matches Task::Rename { name } && name@ == trim(arg@))) && (trim(arg@).len() > 100
            ==> t is Say),
        c matches Command::Name(arg) ==> (0 < trim(arg@).len() <= 64 ==> (t matches Task::SetName {
            name,
        } && name@ == trim(arg@))) && (trim(arg@).len() == 0 || trim(arg@).len() > 64 ==> t is Say),
{
}

/// The bot takes commands in a private chat and nowhere else.
pub proof fn law_private_chats(private: bool, bot: &str, r: Option<Reply>)
    requires
        call_ensures(admission, (private, bot), r),
    ensures
        private <==> r is None,
{
}

/// A message is sent on where it stands in a topic of the sender's running account and holds text;
/// it is answered where the account does not run or where it is no text, and ignored in someone
/// else's topic.
pub proof fn law_messages_routed(f: &Facts, text: Option<&str>, reply: &Option<Replied>, r: Routing)
    requires
        call_ensures(on_message, (f, text, reply), r),
    ensures
        f.conversation is None ==> r is Stray,
        f.conversation is Some && !online(*f) ==> r is Answer,
        f.conversation is Some && online(*f) && !in_own_topic(*f) ==> r is Ignore,
        online(*f) && in_own_topic(*f) && text is None ==> r is Answer,
        online(*f) && in_own_topic(*f) && text is Some && trim(text->0@).len() == 0 ==> r is Ignore,
        online(*f) && in_own_topic(*f) && text is Some && trim(text->0@).len() > 0 ==> r is Send,
        r matches Routing::Send { parts, notice } ==> (notice is Some <==> parts@.len() > 1),
{
}

/// Muting switches the mark of one group and tells how it was.
pub proof fn law_mute_switched(group: &str, r: Result<bool, String>, i: int)
    ensures
        forall|store: &mut LocalStore|
            store.wf() && #[trigger] call_ensures(toggle_mute, (store, group), r) ==> {
                &&& 0 <= i < store.group_rows@.len() && store.group_rows@[i].id@ == group@ ==> r
                    == Ok::<bool, String>(store.group_rows@[i].muted) && final(store).group_rows@[i]
                    == (GroupEntity {
                    muted: !store.group_rows@[i].muted,
                    ..store.group_rows@[i]
                })
                &&& 0 <= i < store.group_rows@.len() && store.group_rows@[i].id@ != group@
                    ==> final(store).group_rows@[i] == store.group_rows@[i]
                &&& (forall|k: int|
                    0 <= k < store.group_rows@.len() ==> (#[trigger] store.group_rows@[k]).id@
                        != group@) ==> r is Err && *final(store) == *store
            },
{
    assert forall|store: &mut LocalStore|
        store.wf() && #[trigger] call_ensures(toggle_mute, (store, group), r) implies {
        &&& 0 <= i < store.group_rows@.len() && store.group_rows@[i].id@ == group@ ==> r == Ok::<
            bool,
            String,
        >(store.group_rows@[i].muted) && final(store).group_rows@[i] == (GroupEntity {
            muted: !store.group_rows@[i].muted,
            ..store.group_rows@[i]
        })
        &&& 0 <= i < store.group_rows@.len() && store.group_rows@[i].id@ != group@
            ==> final(store).group_rows@[i] == store.group_rows@[i]
        &&& (forall|k: int|
            0 <= k < store.group_rows@.len() ==> (#[trigger] store.group_rows@[k]).id@ != group@)
            ==> r is Err && *final(store) == *store
    } by {
        lemma_group_pos(store.group_rows@, group@);
        if 0 <= i < store.group_rows@.len() {
            lemma_only_group(*store, group@, i);
        }
    }
}

/// A switch changes its own setting and no other.
pub proof fn law_switches(s: AccountSettings, name: &str, r: AccountSettings)
    requires
        call_ensures(toggled, (s, name), r),
    ensures
        name@ == "auto_topics"@ ==> r.auto_topics == !s.auto_topics && r.auto_mark_read
            == s.auto_mark_read && r.show_phone_numbers == s.show_phone_numbers,
        name@ == "auto_mark_read"@ ==> r.auto_topics == s.auto_topics && r.auto_mark_read
            == !s.auto_mark_read && r.show_phone_numbers == s.show_phone_numbers,
        name@ == "show_phone_numbers"@ ==> r.auto_topics == s.auto_topics && r.auto_mark_read
            == s.auto_mark_read && r.show_phone_numbers == !s.show_phone_numbers,
        name@ != "auto_topics"@ && name@ != "auto_mark_read"@ && name@ != "show_phone_numbers"@ ==> r
            == s,
{
    reveal_strlit("auto_topics");
    reveal_strlit("auto_mark_read");
    reveal_strlit("show_phone_numbers");
    assert("auto_topics"@.len() == 11 && "auto_mark_read"@.len() == 14
        && "show_phone_numbers"@.len() == 18);
}

/// What the buttons of the bot mean.
pub proof fn law_buttons(data: &str, rest: Seq<char>, r: Callback)
    requires
        call_ensures(parse_callback, (data,), r),
    ensures
        data@ == "noop"@ ==> r == Callback::Close,
        data@ == "connect"@ || data@ == "reconnect"@ ==> r == Callback::Connect,
        data@ == "disc:keep"@ ==> r == (Callback::Disconnect { purge: false }),
        data@ == "disc:purge"@ ==> r == (Callback::Disconnect { purge: true }),
        data@ == "cat:"@ + rest ==> (r matches Callback::Category { slug } && slug@ == rest),
        data@ == "set:"@ + rest ==> (r matches Callback::Setting { name } && name@ == rest),
        data@ == "leave:"@ + rest ==> (r matches Callback::Leave { conversation } && (parsed_i64(rest)
            matches Some(n) ==> conversation == n)),
        data@ == "g:"@ + rest || data@ == "m:"@ + rest || data@ == "ma:"@ + rest ==> r
            == Callback::Group,
{
    reveal_strlit("noop");
    reveal_strlit("connect");
    reveal_strlit("reconnect");
    reveal_strlit("disc:keep");
    reveal_strlit("disc:purge");
    reveal_strlit("cat:");
    reveal_strlit("set:");
    reveal_strlit("leave:");
    reveal_strlit("g:");
    reveal_strlit("m:");
    reveal_strlit("ma:");
    let d = data@;
    if d == "cat:"@ + rest {
        assert(d.subrange(0, 4) =~= "cat:"@);
        assert(d.skip(4) =~= rest);
        assert(d[0] == 'c' && d[1] == 'a');
        assert("connect"@[1] == 'o');
    }
    if d == "set:"@ + rest {
        assert(d.subrange(0, 4) =~= "set:"@);
        assert(d.skip(4) =~= rest);
        assert(d[0] == 's');
    }
    if d == "leave:"@ + rest {
        assert(d.subrange(0, 6) =~= "leave:"@);
        assert(d.skip(6) =~= rest);
        assert(d[0] == 'l');
    }
    if d == "g:"@ + rest {
        assert(d.subrange(0, 2) =~= "g:"@);
        assert(d[0] == 'g');
    }
    if d == "m:"@ + rest {
        assert(d.subrange(0, 2) =~= "m:"@);
        assert(d[0] == 'm');
    }
    if d == "ma:"@ + rest {
        assert(d.subrange(0, 3) =~= "ma:"@);
        assert(d[0] == 'm');
    }
    assert("noop"@.len() == 4 && "noop"@[0] == 'n');
    assert("connect"@.len() == 7 && "connect"@[0] == 'c');
    assert("reconnect"@.len() == 9 && "reconnect"@[0] == 'r');
    assert("disc:keep"@.len() == 9 && "disc:keep"@[0] == 'd');
    assert("disc:purge"@.len() == 10 && "disc:purge"@[0] == 'd');
}

/// What the buttons of a group mean: the parts between the colons name the conversation, the member
/// and the action.
pub proof fn law_group_buttons(data: &str, r: Result<GroupCallback, String>)
    requires
        call_ensures(parse_group_callback, (data,), r),
    ensures
        ({
            let p = split(data@, seq![':']);
            &&& p.len() == 3 && p[0] == "g"@ && parsed_i64(p[1]) is Some ==> (r matches Ok(
                GroupCallback::Card { conversation, action },
            ) && conversation == parsed_i64(p[1])->0 && (p[2] == "members"@ ==> action
                == CardAction::Members) && (p[2] == "mute"@ ==> action == CardAction::Mute) && (p[2]
                == "read"@ ==> action == CardAction::Read) && (p[2] == "del1"@ ==> action
                == CardAction::AskDelete) && (p[2] == "del2"@ ==> action == CardAction::Delete) && (
            p[2] == "leave"@ ==> action == CardAction::AskLeave) && (p[2] == "post"@ ==> action
                == CardAction::FlipPost) && (p[2] == "addm"@ ==> action == CardAction::FlipAdd) && (
            p[2] == "add"@ ==> action == CardAction::Add) && (p[2] == "rename"@ ==> action
                == CardAction::Rename) && (p[2] == "card"@ ==> action == CardAction::Card))
            &&& p.len() == 3 && p[0] == "m"@ && parsed_i64(p[1]) is Some ==> (r matches Ok(
                GroupCallback::Member { conversation, user_id },
            ) && conversation == parsed_i64(p[1])->0 && user_id@ == p[2])
            &&& p.len() == 4 && p[0] == "ma"@ && parsed_i64(p[1]) is Some ==> (r matches Ok(
                GroupCallback::MemberAct { conversation, user_id, action },
            ) && conversation == parsed_i64(p[1])->0 && user_id@ == p[2] && (p[3] == "a"@ ==> action
                == MemberAction::Promote) && (p[3] == "m"@ ==> action == MemberAction::Demote) && (
            p[3] == "r"@ ==> action == MemberAction::Remove))
            &&& p.len() >= 3 && (p[0] == "g"@ || p[0] == "m"@) && p.len() == 3 && parsed_i64(
                p[1],
            ) is None ==> r is Err
        }),
{
    reveal_strlit("g");
    reveal_strlit("m");
    reveal_strlit("ma");
    reveal_strlit("a");
    reveal_strlit("r");
    reveal_strlit("members");
    reveal_strlit("add");
    reveal_strlit("rename");
    reveal_strlit("post");
    reveal_strlit("addm");
    reveal_strlit("read");
    reveal_strlit("mute");
    reveal_strlit("leave");
    reveal_strlit("del1");
    reveal_strlit("del2");
    reveal_strlit("card");
    assert("g"@[0] == 'g' && "m"@[0] == 'm' && "a"@[0] == 'a' && "r"@[0] == 'r');
    assert("members"@.len() == 7 && "add"@.len() == 3 && "rename"@.len() == 6 && "leave"@.len() == 5);
    assert("post"@.len() == 4 && "post"@[0] == 'p');
    assert("addm"@.len() == 4 && "addm"@[0] == 'a');
    assert("read"@.len() == 4 && "read"@[0] == 'r');
    assert("mute"@.len() == 4 && "mute"@[0] == 'm');
    assert("del1"@.len() == 4 && "del1"@[0] == 'd' && "del1"@[3] == '1');
    assert("del2"@.len() == 4 && "del2"@[0] == 'd' && "del2"@[3] == '2');
    assert("card"@.len() == 4 && "card"@[0] == 'c');
}

/// What a button does to a member's role.
pub proof fn law_member_actions(a: MemberAction, r: Option<Role>)
    requires
        call_ensures(MemberAction::role, (a,), r),
    ensures
        a == MemberAction::Promote ==> r == Some(Role::Admin),
        a == MemberAction::Demote ==> r == Some(Role::Member),
        a == MemberAction::Remove || a == MemberAction::Nothing ==> r is None,
{
}

/// A conversation is acted on by the owner of its account alone, and while that account runs.
pub proof fn law_own_conversations(
    account: &Option<Account>,
    conv: &Option<Conversation>,
    running: bool,
    mine: bool,
    r: Result<(), String>,
)
    requires
        call_ensures(owns, (account, conv), mine),
        call_ensures(own_conversation, (account, conv, running), r),
    ensures
        mine <==> *account is Some && *conv is Some && (*conv)->0.account == (*account)->0.id,
        r is Ok <==> mine && running,
{
}

/// The member that is picked has the id; none is picked where nobody has it.
pub proof fn law_pick_member(members: &Vec<MemberEntity>, user: &str, r: Result<&MemberEntity, String>, i: int)
    requires
        call_ensures(pick_member, (members, user), r),
        forall|a: int, b: int|
            0 <= a < b < members@.len() ==> (#[trigger] members@[a]).user_id@ != (
            #[trigger] members@[b]).user_id@,
    ensures
        0 <= i < members@.len() && members@[i].user_id@ == user@ ==> (r matches Ok(m) && *m
            == members@[i]),
        r matches Ok(m) ==> m.user_id@ == user@ && members@.contains(*m),
{
    if let Ok(m) = r {
        let k = choose|k: int|
            0 <= k < members@.len() && members@[k] == *m && m.user_id@ == user@ && forall|j: int|
                0 <= j < k ==> (#[trigger] members@[j]).user_id@ != user@;
        assert(members@[k] == *m);
        if 0 <= i < members@.len() && members@[i].user_id@ == user@ {
            if i < k {
                assert(members@[i].user_id@ != members@[k].user_id@);
            } else if k < i {
                assert(members@[k].user_id@ != members@[i].user_id@);
            }
        }
    }
}

} // verus!
