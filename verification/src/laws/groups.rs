//! Group events and the cached groups and members.

use crate::error::AppError;
use crate::laws::common::{lemma_only_group, lemma_only_member};
use crate::models::{MemberDto, Permission, Role};
use crate::store::local::{group_pos, lemma_group_pos, lemma_member_row_pos, member_row_pos};
use crate::store::{GroupEntity, LocalStore, MemberEntity};
use crate::sync::{event_applied, AfterGroupEvent, SyncEvent};
use crate::ws::GroupEvent;
use vstd::prelude::*;

verus! {

/// A change of role reaches the member it is about and nobody else. The user's own role in the
/// group follows it just where it is about the user; every other group row stays as it was.
pub proof fn law_role_change(
    s: LocalStore,
    t: LocalStore,
    me: Option<Seq<char>>,
    refresh: bool,
    group_id: String,
    user_id: String,
    role: Role,
    now: i64,
    r: Result<AfterGroupEvent, AppError>,
)
    requires
        s.wf(),
        event_applied(
            s,
            t,
            me,
            refresh,
            GroupEvent::RoleChanged { group_id, user_id, role },
            now,
            r,
        ),
    ensures
        t.group_rows@.len() == s.group_rows@.len(),
        forall|i: int|
            0 <= i < s.group_rows@.len() ==> (#[trigger] t.group_rows@[i]) == (if me == Some(
                user_id@,
            ) && s.group_rows@[i].id@ == group_id@ {
                GroupEntity { my_role: role, ..s.group_rows@[i] }
            } else {
                s.group_rows@[i]
            }),
        t.member_rows@.len() == s.member_rows@.len(),
        forall|i: int|
            0 <= i < s.member_rows@.len() ==> (#[trigger] t.member_rows@[i]) == (if s.member_rows@[
                i
            ].group_id@ == group_id@ && s.member_rows@[i].user_id@ == user_id@ {
                MemberEntity { role, ..s.member_rows@[i] }
            } else {
                s.member_rows@[i]
            }),
        t.message_rows == s.message_rows,
        t.outbox_rows == s.outbox_rows,
        r matches Ok(AfterGroupEvent::Emit(events)) && {
            &&& events@.contains(SyncEvent::MembersChanged { group_id })
            &&& events@.contains(SyncEvent::GroupChanged { group_id }) <==> me == Some(user_id@)
            &&& events@[0] matches SyncEvent::RoleChanged {
                group_id: g,
                user_id: u,
                role: to,
                display_name,
            } && g == group_id && u == user_id && to == role && forall|i: int|
                0 <= i < s.member_rows@.len() && (#[trigger] s.member_rows@[i]).group_id@
                    == group_id@ && s.member_rows@[i].user_id@ == user_id@ ==> display_name == Some(
                    s.member_rows@[i].display_name,
                )
        },
{
    assert forall|i: int| 0 <= i < s.group_rows@.len() implies (#[trigger] t.group_rows@[i]) == (
    if me == Some(user_id@) && s.group_rows@[i].id@ == group_id@ {
        GroupEntity { my_role: role, ..s.group_rows@[i] }
    } else {
        s.group_rows@[i]
    }) by {
        lemma_only_group(s, group_id@, i);
        lemma_group_pos(s.group_rows@, group_id@);
    }
    assert forall|i: int| 0 <= i < s.member_rows@.len() implies (#[trigger] t.member_rows@[i]) == (
    if s.member_rows@[i].group_id@ == group_id@ && s.member_rows@[i].user_id@ == user_id@ {
        MemberEntity { role, ..s.member_rows@[i] }
    } else {
        s.member_rows@[i]
    }) by {
        lemma_only_member(s, group_id@, user_id@, i);
        lemma_member_row_pos(s.member_rows@, group_id@, user_id@);
    }
    lemma_group_pos(s.group_rows@, group_id@);
    lemma_member_row_pos(s.member_rows@, group_id@, user_id@);
    let events = (r->Ok_0)->Emit_0@;
    assert(events.last() == (SyncEvent::MembersChanged { group_id }));
    assert forall|i: int|
        0 <= i < s.member_rows@.len() && (#[trigger] s.member_rows@[i]).group_id@ == group_id@
            && s.member_rows@[i].user_id@ == user_id@ implies events[0]->RoleChanged_display_name
        == Some(s.member_rows@[i].display_name) by {
        lemma_only_member(s, group_id@, user_id@, i);
    }
    if me == Some(user_id@) {
        assert(events[1] == (SyncEvent::GroupChanged { group_id }));
    }
}

/// When someone leaves a group, their row goes, the group counts one member less (never under
/// zero), and everyone else stays. A group that the user left is deleted; no other group is.
pub proof fn law_member_removed(
    s: LocalStore,
    t: LocalStore,
    me: Option<Seq<char>>,
    refresh: bool,
    group_id: String,
    user_id: String,
    reason: Option<String>,
    now: i64,
    r: Result<AfterGroupEvent, AppError>,
)
    requires
        s.wf(),
        event_applied(
            s,
            t,
            me,
            refresh,
            GroupEvent::MemberRemoved { group_id, user_id, reason },
            now,
            r,
        ),
    ensures
        t.group_rows@.len() == s.group_rows@.len(),
        forall|i: int|
            0 <= i < s.group_rows@.len() && (#[trigger] s.group_rows@[i]).id@ != group_id@
                ==> t.group_rows@[i] == s.group_rows@[i],
        forall|i: int|
            0 <= i < s.group_rows@.len() && (#[trigger] s.group_rows@[i]).id@ == group_id@ ==> {
                let old = s.group_rows@[i];
                let new = t.group_rows@[i];
                &&& new.is_deleted == (old.is_deleted || me == Some(user_id@))
                &&& old.member_count > 0 ==> new.member_count == old.member_count - 1
                &&& old.member_count <= 0 ==> new.member_count == 0
                &&& new == (GroupEntity {
                    is_deleted: new.is_deleted,
                    member_count: new.member_count,
                    ..old
                })
            },
        forall|i: int|
            0 <= i < t.member_rows@.len() ==> !((#[trigger] t.member_rows@[i]).group_id@ == group_id@
                && t.member_rows@[i].user_id@ == user_id@),
        forall|m: MemberEntity|
            !(m.group_id@ == group_id@ && m.user_id@ == user_id@) ==> (
            #[trigger] s.member_rows@.contains(m) <==> t.member_rows@.contains(m)),
        t.message_rows == s.message_rows,
        t.outbox_rows == s.outbox_rows,
        r matches Ok(AfterGroupEvent::Emit(events)) && {
            &&& events@.contains(SyncEvent::MembersChanged { group_id })
            &&& events@.contains(SyncEvent::GroupDeleted { group_id }) <==> me == Some(user_id@)
            &&& events@[0] matches SyncEvent::MemberRemoved {
                group_id: g,
                user_id: u,
                display_name,
            } && g == group_id && u == user_id && forall|i: int|
                0 <= i < s.member_rows@.len() && (#[trigger] s.member_rows@[i]).group_id@
                    == group_id@ && s.member_rows@[i].user_id@ == user_id@ ==> display_name == Some(
                    s.member_rows@[i].display_name,
                )
        },
{
    lemma_group_pos(s.group_rows@, group_id@);
    lemma_member_row_pos(s.member_rows@, group_id@, user_id@);
    let g = group_pos(s.group_rows@, group_id@);
    let counted = crate::store::groups::with_count_moved(s.group_rows@, group_id@, -1i64);
    lemma_group_pos(counted, group_id@);
    assert(group_pos(counted, group_id@) == g) by {
        let q = group_pos(counted, group_id@);
        if q < g {
            assert(counted[q] == s.group_rows@[q]);
        }
        if g < q {
            assert(counted[g].id@ == group_id@);
        }
    }
    assert forall|i: int| 0 <= i < s.group_rows@.len() implies ((
    #[trigger] s.group_rows@[i]).id@ == group_id@ <==> i == g) by {
        lemma_only_group(s, group_id@, i);
    }
    let p = member_row_pos(s.member_rows@, group_id@, user_id@);
    let old = s.member_rows@;
    let new = t.member_rows@;
    assert forall|i: int| 0 <= i < new.len() implies !((#[trigger] new[i]).group_id@ == group_id@
        && new[i].user_id@ == user_id@) by {
        let k = if i < p {
            i
        } else {
            i + 1
        };
        if p < old.len() {
            assert(new[i] == old[k]);
            lemma_only_member(s, group_id@, user_id@, k);
        } else {
            lemma_only_member(s, group_id@, user_id@, i);
        }
    }
    assert forall|m: MemberEntity| !(m.group_id@ == group_id@ && m.user_id@ == user_id@) implies (
    #[trigger] old.contains(m) <==> new.contains(m)) by {
        if old.contains(m) {
            let k = choose|k: int| 0 <= k < old.len() && old[k] == m;
            if p < old.len() {
                assert(k != p);
                let i = if k < p {
                    k
                } else {
                    k - 1
                };
                assert(new[i] == m);
            }
        }
        if new.contains(m) {
            let i = choose|i: int| 0 <= i < new.len() && new[i] == m;
            if p < old.len() {
                let k = if i < p {
                    i
                } else {
                    i + 1
                };
                assert(old[k] == m);
            }
        }
    }
    let events = (r->Ok_0)->Emit_0@;
    assert(events.last() == (SyncEvent::MembersChanged { group_id }));
    assert forall|i: int|
        0 <= i < old.len() && (#[trigger] old[i]).group_id@ == group_id@ && old[i].user_id@
            == user_id@ implies events[0]->MemberRemoved_display_name == Some(
        old[i].display_name,
    ) by {
        lemma_only_member(s, group_id@, user_id@, i);
    }
    if me == Some(user_id@) {
        assert(events[1] == (SyncEvent::GroupDeleted { group_id }));
    }
}

/// When someone else joins a cached group, the group counts one member more, and the member is
/// stored as the server describes them, where it does; everyone else stays. When the user joins,
/// nothing changes yet.
pub proof fn law_member_added(
    s: LocalStore,
    t: LocalStore,
    me: Option<Seq<char>>,
    refresh: bool,
    group_id: String,
    user_id: String,
    role: Option<Role>,
    member: Option<MemberDto>,
    now: i64,
    r: Result<AfterGroupEvent, AppError>,
    g: int,
)
    requires
        s.wf(),
        event_applied(
            s,
            t,
            me,
            refresh,
            GroupEvent::MemberAdded { group_id, user_id, role, member },
            now,
            r,
        ),
        0 <= g < s.group_rows@.len(),
        s.group_rows@[g].id@ == group_id@,
    ensures
        me == Some(user_id@) ==> t == s && (r matches Ok(AfterGroupEvent::Joined { group_id: j })
            && j == group_id),
        me != Some(user_id@) ==> {
            &&& r matches Ok(
                AfterGroupEvent::Announce { group_id: j, user_id: u, role: x, refresh: f },
            ) && j == group_id && u == user_id && x == role && f == refresh
            &&& t.group_rows@.len() == s.group_rows@.len()
            &&& forall|i: int|
                0 <= i < s.group_rows@.len() && i != g ==> (#[trigger] t.group_rows@[i])
                    == s.group_rows@[i]
            &&& t.group_rows@[g] == (GroupEntity {
                member_count: t.group_rows@[g].member_count,
                ..s.group_rows@[g]
            })
            &&& 0 <= s.group_rows@[g].member_count < i64::MAX ==> t.group_rows@[g].member_count
                == s.group_rows@[g].member_count + 1
            &&& member is None ==> t.member_rows == s.member_rows
            &&& member matches Some(m) ==> exists|i: int|
                {
                    &&& 0 <= i < t.member_rows@.len()
                    &&& (#[trigger] t.member_rows@[i]).group_id@ == group_id@
                    &&& t.member_rows@[i].user_id@ == m.user_id@
                    &&& t.member_rows@[i].display_name@ == m.display_name@
                    &&& t.member_rows@[i].role == m.role
                    &&& t.member_rows@[i].phone_e164 == m.phone_e164
                }
            &&& member matches Some(m) ==> forall|i: int|
                0 <= i < s.member_rows@.len() && !((#[trigger] s.member_rows@[i]).group_id@
                    == group_id@ && s.member_rows@[i].user_id@ == m.user_id@) ==> t.member_rows@[i]
                    == s.member_rows@[i]
        },
{
    lemma_only_group(s, group_id@, g);
    lemma_group_pos(s.group_rows@, group_id@);
    assert(crate::store::local::group_known(s.group_rows@, group_id@));
    if me != Some(user_id@) {
        match member {
            Some(m) => {
                let row = choose|row: MemberEntity| #[trigger]
                    crate::store::member_row_of(m, group_id@, now, row) && t.member_rows@
                        == crate::store::members::member_upserted(s.member_rows@, row);
                lemma_member_row_pos(s.member_rows@, group_id@, m.user_id@);
                let p = member_row_pos(s.member_rows@, group_id@, m.user_id@);
                assert(t.member_rows@[p].group_id@ == group_id@);
                assert forall|i: int|
                    0 <= i < s.member_rows@.len() && !((#[trigger] s.member_rows@[i]).group_id@
                        == group_id@ && s.member_rows@[i].user_id@
                        == m.user_id@) implies t.member_rows@[i] == s.member_rows@[i] by {
                    lemma_only_member(s, group_id@, m.user_id@, i);
                }
            },
            None => {},
        }
    }
}

/// New settings of a group reach that group: what the server names is taken over, what it leaves out
/// stays, and so does every other group.
pub proof fn law_group_updated(
    s: LocalStore,
    t: LocalStore,
    me: Option<Seq<char>>,
    refresh: bool,
    group_id: String,
    name: Option<String>,
    who_can_post: Option<Permission>,
    who_can_add_members: Option<Permission>,
    now: i64,
    r: Result<AfterGroupEvent, AppError>,
)
    requires
        s.wf(),
        event_applied(
            s,
            t,
            me,
            refresh,
            GroupEvent::GroupUpdated { group_id, name, who_can_post, who_can_add_members },
            now,
            r,
        ),
    ensures
        t.group_rows@.len() == s.group_rows@.len(),
        forall|i: int|
            0 <= i < s.group_rows@.len() && (#[trigger] s.group_rows@[i]).id@ != group_id@
                ==> t.group_rows@[i] == s.group_rows@[i],
        forall|i: int|
            0 <= i < s.group_rows@.len() && (#[trigger] s.group_rows@[i]).id@ == group_id@ ==> {
                let old = s.group_rows@[i];
                let new = t.group_rows@[i];
                &&& name is Some ==> new.name@ == name->0@
                &&& name is None ==> new.name@ == old.name@
                &&& who_can_post is Some ==> new.who_can_post == who_can_post->0
                &&& who_can_post is None ==> new.who_can_post == old.who_can_post
                &&& who_can_add_members is Some ==> new.who_can_add_members
                    == who_can_add_members->0
                &&& who_can_add_members is None ==> new.who_can_add_members
                    == old.who_can_add_members
                &&& new == (GroupEntity {
                    name: new.name,
                    who_can_post: new.who_can_post,
                    who_can_add_members: new.who_can_add_members,
                    ..old
                })
            },
        t.member_rows == s.member_rows,
        t.message_rows == s.message_rows,
        r matches Ok(AfterGroupEvent::Emit(events)) && events@ == seq![
            SyncEvent::GroupChanged { group_id },
        ],
{
    lemma_group_pos(s.group_rows@, group_id@);
    assert forall|i: int| 0 <= i < s.group_rows@.len() implies ((
    #[trigger] s.group_rows@[i]).id@ == group_id@ <==> i == group_pos(
        s.group_rows@,
        group_id@,
    )) by {
        lemma_only_group(s, group_id@, i);
    }
}

/// A deleted group is marked as deleted, and no other one.
pub proof fn law_group_deleted(
    s: LocalStore,
    t: LocalStore,
    me: Option<Seq<char>>,
    refresh: bool,
    group_id: String,
    now: i64,
    r: Result<AfterGroupEvent, AppError>,
)
    requires
        s.wf(),
        event_applied(s, t, me, refresh, GroupEvent::GroupDeleted { group_id }, now, r),
    ensures
        t.group_rows@.len() == s.group_rows@.len(),
        forall|i: int|
            0 <= i < s.group_rows@.len() ==> (#[trigger] t.group_rows@[i]) == (GroupEntity {
                is_deleted: s.group_rows@[i].is_deleted || s.group_rows@[i].id@ == group_id@,
                ..s.group_rows@[i]
            }),
        t.member_rows == s.member_rows,
        t.message_rows == s.message_rows,
        t.outbox_rows == s.outbox_rows,
        r matches Ok(AfterGroupEvent::Emit(events)) && events@ == seq![
            SyncEvent::GroupDeleted { group_id },
        ],
{
    lemma_group_pos(s.group_rows@, group_id@);
    assert forall|i: int| 0 <= i < s.group_rows@.len() implies (#[trigger] t.group_rows@[i]) == (
    GroupEntity {
        is_deleted: s.group_rows@[i].is_deleted || s.group_rows@[i].id@ == group_id@,
        ..s.group_rows@[i]
    }) by {
        lemma_only_group(s, group_id@, i);
    }
}

} // verus!
