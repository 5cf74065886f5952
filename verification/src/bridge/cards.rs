//! The group card with its buttons, the list of members, and the menu for one member.

use crate::bridge::format::{escape_html, escaped, SERVICE_PREFIX};
use crate::bridge::outbound::MAX_OUTBOUND_CHARS;
use crate::bridge::reply::{
    add_key, add_row, button, face, fixed, no_rows, one, rows_of, two, Button, Face, Key, Reply,
};
use crate::bridge::reports::{members_title, title_of_members};
use crate::constants::DEFAULT_MAX_MESSAGE;
use crate::models::{
    min_to_post, GroupDto, GroupKind, Permission, Role, ADMINS, EVERYONE,
};
use crate::numbers::{decimal, decimal_int, show_i64, show_u64, show_usize};
use crate::store::{may_add_members, GroupEntity, MemberEntity};
use crate::text::{begins_with, same, same_ascii_folded, same_ignoring_case, starts_with};
use vstd::prelude::*;

verus! {

/// Who a permission admits, in a word.
pub open spec fn permission_word(p: Permission) -> Seq<char> {
    if same_ascii_folded(p.0@, "admins"@) {
        "admins"@
    } else {
        "everyone"@
    }
}

/// Who a permission admits, in a word.
pub fn perm_label(p: &Permission) -> (r: &'static str)
    ensures
        r@ == permission_word(*p),
{
    if same_ignoring_case(p.as_str(), "admins") {
        "admins"
    } else {
        "everyone"
    }
}

/// The other permission.
pub fn flip(p: &Permission) -> (r: Permission)
    ensures
        r.0@ == (if same_ascii_folded(p.0@, "admins"@) {
            EVERYONE@
        } else {
            ADMINS@
        }),
{
    if same_ignoring_case(p.as_str(), "admins") {
        Permission::everyone()
    } else {
        Permission::admins()
    }
}

/// What the server says about a group beyond its cached row.
#[derive(Debug, Clone, Copy, PartialEq, Eq, Structural)]
pub struct LiveFacts {
    /// Members needed before anyone may post.
    pub min_members: i64,
    /// Characters in one message.
    pub max_length: usize,
    pub unread: i64,
}

/// What the server says about a group; defaults where it could not be asked.
pub open spec fn facts_of(live: Option<GroupDto>) -> LiveFacts {
    match live {
        Some(g) => LiveFacts {
            min_members: match min_to_post(g) {
                Some(n) => n as i64,
                None => 0,
            },
            max_length: match g.limits {
                Some(l) => match l.message_max_length {
                    Some(n) => n as usize,
                    None => DEFAULT_MAX_MESSAGE,
                },
                None => DEFAULT_MAX_MESSAGE,
            },
            unread: match g.unread_count {
                Some(n) => n,
                None => 0,
            },
        },
        None => LiveFacts { min_members: 0, max_length: MAX_OUTBOUND_CHARS, unread: 0 },
    }
}

/// What the server says about a group; defaults where it could not be asked.
pub fn live_facts(live: &Option<GroupDto>) -> (r: LiveFacts)
    ensures
        r == facts_of(*live),
{
    match live {
        Some(g) => LiveFacts {
            min_members: match g.min_members_to_post() {
                Some(n) => n as i64,
                None => 0,
            },
            max_length: g.message_max_length(),
            unread: match g.unread_count {
                Some(n) => n,
                None => 0,
            },
        },
        None => LiveFacts { min_members: 0, max_length: MAX_OUTBOUND_CHARS, unread: 0 },
    }
}

/// The head of a group card.
pub open spec fn card_head(g: GroupEntity) -> Seq<char> {
    "<b>"@ + escaped(g.name@) + "</b>\n"@ + escaped(g.category@) + " · "@ + decimal_int(
        g.member_count as int,
    ) + " member(s) · you are "@ + (if g.my_role == Role::Admin {
        "an admin"@
    } else {
        "a member"@
    }) + (if g.muted {
        " · muted"@
    } else {
        ""@
    }) + "\n"@
}

/// The rules of a group, as its card shows them.
pub open spec fn card_rules(g: GroupEntity, f: LiveFacts) -> Seq<char> {
    "Who can post: <b>"@ + permission_word(g.who_can_post) + "</b> · Who can add members: <b>"@
        + permission_word(g.who_can_add_members) + "</b>\nMax message: "@ + decimal(
        f.max_length as nat,
    ) + " characters"@ + (if f.unread > 0 {
        " · "@ + decimal(f.unread as nat) + " unread on Tzibbur"@
    } else {
        Seq::empty()
    }) + "\n"@ + (if g.member_count < f.min_members {
        "\nTzibbur requires <b>"@ + decimal_int(f.min_members as int)
            + "</b> members before anyone can post here. Add "@ + decimal_int(
            f.min_members - g.member_count,
        ) + " more with <b>Add members</b>.\n"@
    } else {
        Seq::empty()
    })
}

/// The text of a group card.
pub open spec fn card_text(g: GroupEntity, f: LiveFacts) -> Seq<char> {
    card_head(g) + (if g.kind == GroupKind::System {
        "System announcements thread — read-only.\n"@
    } else {
        card_rules(g, f)
    })
}

/// What a button of the group card means.
pub open spec fn group_data(conv: i64, action: Seq<char>) -> Seq<char> {
    "g:"@ + decimal_int(conv as int) + ":"@ + action
}

/// What a button of the group card means.
pub fn group_action(conv: i64, action: &str) -> (r: String)
    ensures
        r@ == group_data(conv, action@),
{
    "g:".to_owned().concat(show_i64(conv).as_str()).concat(":").concat(action)
}

/// The first rows of a group card: members, and what admins may change.
pub open spec fn card_top(g: GroupEntity, conv: i64) -> Seq<Seq<Key>> {
    if g.kind == GroupKind::System {
        seq![]
    } else {
        let members = seq![("Members"@, group_data(conv, "members"@))];
        let first = if may_add_members(g) {
            members.push(("Add members"@, group_data(conv, "add"@)))
        } else {
            members
        };
        if g.my_role == Role::Admin {
            seq![
                first,
                seq![("Rename"@, group_data(conv, "rename"@))],
                seq![
                    (
                        "Post: "@ + permission_word(g.who_can_post) + " "@,
                        group_data(conv, "post"@),
                    ),
                    (
                        "Add: "@ + permission_word(g.who_can_add_members) + " "@,
                        group_data(conv, "addm"@),
                    ),
                ],
            ]
        } else {
            seq![first]
        }
    }
}

/// The last rows of a group card: reading, muting, leaving, deleting, closing.
pub open spec fn card_bottom(g: GroupEntity, conv: i64) -> Seq<Seq<Key>> {
    let always = seq![
        ("Mark read"@, group_data(conv, "read"@)),
        (
            if g.muted {
                "Unmute"@
            } else {
                "Mute"@
            },
            group_data(conv, "mute"@),
        ),
    ];
    let row = if g.kind == GroupKind::System {
        always
    } else {
        always.push(("Leave"@, group_data(conv, "leave"@)))
    };
    let close = seq![("Close"@, "noop"@)];
    if g.my_role == Role::Admin && g.kind != GroupKind::System {
        seq![row, seq![("Delete group…"@, group_data(conv, "del1"@))], close]
    } else {
        seq![row, close]
    }
}

fn head_of_card(g: &GroupEntity) -> (r: String)
    ensures
        r@ == card_head(*g),
{
    let role = if g.my_role == Role::Admin {
        "an admin"
    } else {
        "a member"
    };
    let muted = if g.muted {
        " · muted"
    } else {
        ""
    };
    "<b>".to_owned().concat(escape_html(g.name.as_str()).as_str()).concat("</b>\n").concat(
        escape_html(g.category.as_str()).as_str(),
    ).concat(" · ").concat(show_i64(g.member_count).as_str()).concat(
        " member(s) · you are ",
    ).concat(role).concat(muted).concat("\n")
}

fn rules_of_card(g: &GroupEntity, f: LiveFacts) -> (r: String)
    ensures
        r@ == card_rules(*g, f),
{
    let unread = if f.unread > 0 {
        " · ".to_owned().concat(show_u64(f.unread as u64).as_str()).concat(" unread on Tzibbur")
    } else {
        String::new()
    };
    let short = if g.member_count < f.min_members {
        let missing: u64 = ((f.min_members as i128) - (g.member_count as i128)) as u64;
        assert(decimal_int(f.min_members - g.member_count) == decimal(missing as nat));
        "\nTzibbur requires <b>".to_owned().concat(show_i64(f.min_members).as_str()).concat(
            "</b> members before anyone can post here. Add ",
        ).concat(show_u64(missing).as_str()).concat(" more with <b>Add members</b>.\n")
    } else {
        String::new()
    };
    "Who can post: <b>".to_owned().concat(perm_label(&g.who_can_post)).concat(
        "</b> · Who can add members: <b>",
    ).concat(perm_label(&g.who_can_add_members)).concat("</b>\nMax message: ").concat(
        show_usize(f.max_length).as_str(),
    ).concat(" characters").concat(unread.as_str()).concat("\n").concat(short.as_str())
}

fn top_of_card(g: &GroupEntity, conv: i64) -> (rows: Vec<Vec<Button>>)
    ensures
        rows_of(rows@) == card_top(*g, conv),
{
    let mut rows = no_rows();
    if g.kind != GroupKind::System {
        let mut first = one(button("Members", group_action(conv, "members")));
        if g.can_add_members() {
            add_key(&mut first, button("Add members", group_action(conv, "add")));
        }
        add_row(&mut rows, first);
        if g.my_role == Role::Admin {
            add_row(&mut rows, one(button("Rename", group_action(conv, "rename"))));
            let post = "Post: ".to_owned().concat(perm_label(&g.who_can_post)).concat(" ");
            let add = "Add: ".to_owned().concat(perm_label(&g.who_can_add_members)).concat(" ");
            add_row(
                &mut rows,
                two(
                    button(post.as_str(), group_action(conv, "post")),
                    button(add.as_str(), group_action(conv, "addm")),
                ),
            );
        }
    }
    assert(rows_of(rows@) =~= card_top(*g, conv));
    rows
}

fn bottom_of_card(g: &GroupEntity, conv: i64) -> (rows: Vec<Vec<Button>>)
    ensures
        rows_of(rows@) == card_bottom(*g, conv),
{
    let mut rows = no_rows();
    let mute = if g.muted {
        "Unmute"
    } else {
        "Mute"
    };
    let mut row = two(
        button("Mark read", group_action(conv, "read")),
        button(mute, group_action(conv, "mute")),
    );
    if g.kind != GroupKind::System {
        add_key(&mut row, button("Leave", group_action(conv, "leave")));
    }
    add_row(&mut rows, row);
    if g.my_role == Role::Admin && g.kind != GroupKind::System {
        add_row(&mut rows, one(button("Delete group…", group_action(conv, "del1"))));
    }
    add_row(&mut rows, one(fixed("Close", "noop")));
    assert(rows_of(rows@) =~= card_bottom(*g, conv));
    rows
}

/// The card of a group.
pub fn card(g: &GroupEntity, live: &Option<GroupDto>, conv: i64) -> (r: Reply)
    ensures
        face(r) == (Face {
            text: card_text(*g, facts_of(*live)),
            keyboard: card_top(*g, conv) + card_bottom(*g, conv),
        }),
{
    let f = live_facts(live);
    let body = if g.kind == GroupKind::System {
        "System announcements thread — read-only.\n".to_owned()
    } else {
        rules_of_card(g, f)
    };
    let text = head_of_card(g).concat(body.as_str());
    let mut rows = top_of_card(g, conv);
    let mut rest = bottom_of_card(g, conv);
    let ghost a = rows@;
    let ghost b = rest@;
    rows.append(&mut rest);
    assert(rows_of(rows@) =~= rows_of(a) + rows_of(b));
    assert(text@ == card_text(*g, f));
    Reply { text, keyboard: rows }
}

/// A member in the list that admins act on.
pub open spec fn listed_member(m: MemberEntity, me: Seq<char>) -> Seq<char> {
    "• "@ + escaped(m.display_name@) + role_mark(m) + (if m.user_id@ == me {
        " (you)"@
    } else {
        ""@
    }) + escaped(
        match m.phone_e164 {
            Some(p) => " · "@ + p@,
            None => Seq::empty(),
        },
    ) + "\n"@
}

/// The mark of an admin.
pub open spec fn role_mark(m: MemberEntity) -> Seq<char> {
    if m.role == Role::Admin {
        " "@
    } else {
        ""@
    }
}

/// The lines for members, one after the other.
pub open spec fn listed_members(ms: Seq<MemberEntity>, me: Seq<char>) -> Seq<char>
    decreases ms.len(),
{
    if ms.len() == 0 {
        Seq::empty()
    } else {
        listed_members(ms.drop_last(), me) + listed_member(ms.last(), me)
    }
}

/// What a member's button means.
pub open spec fn member_data(conv: i64, user: Seq<char>) -> Seq<char> {
    "m:"@ + decimal_int(conv as int) + ":"@ + user
}

/// A member an admin can act on: someone else, and no service account.
pub open spec fn manageable(m: MemberEntity, me: Seq<char>) -> bool {
    m.user_id@ != me && !begins_with(m.user_id@, SERVICE_PREFIX@)
}

/// The rows of members an admin can act on.
pub open spec fn member_rows(ms: Seq<MemberEntity>, me: Seq<char>, conv: i64) -> Seq<Seq<Key>>
    decreases ms.len(),
{
    if ms.len() == 0 {
        seq![]
    } else {
        let m = ms.last();
        let before = member_rows(ms.drop_last(), me, conv);
        if manageable(m, me) {
            before.push(seq![(m.display_name@ + role_mark(m), member_data(conv, m.user_id@))])
        } else {
            before
        }
    }
}

/// The row that leads back to the card.
pub open spec fn back_row(conv: i64, action: Seq<char>) -> Seq<Key> {
    seq![("Back"@, group_data(conv, action)), ("Close"@, "noop"@)]
}

/// The list of members, with a button for each that the user can act on.
pub open spec fn members_face(
    g: GroupEntity,
    ms: Seq<MemberEntity>,
    me: Seq<char>,
    conv: i64,
) -> Face {
    let admin = g.my_role == Role::Admin;
    let rows = if admin {
        member_rows(ms, me, conv)
    } else {
        seq![]
    };
    Face {
        text: members_title(g.name@, ms.len()) + listed_members(ms, me) + (if !admin {
            ""@
        } else if rows.len() == 0 {
            "\nNo other members to manage yet."@
        } else {
            "\nTap a member to promote, demote or remove."@
        }),
        keyboard: rows.push(back_row(conv, "card"@)),
    }
}

fn line_of_member(m: &MemberEntity, me: &str) -> (r: String)
    ensures
        r@ == listed_member(*m, me@),
{
    let role = if m.role == Role::Admin {
        " "
    } else {
        ""
    };
    let you = if same(m.user_id.as_str(), me) {
        " (you)"
    } else {
        ""
    };
    let phone = match &m.phone_e164 {
        Some(p) => " · ".to_owned().concat(p.as_str()),
        None => String::new(),
    };
    "• ".to_owned().concat(escape_html(m.display_name.as_str()).as_str()).concat(role).concat(
        you,
    ).concat(escape_html(phone.as_str()).as_str()).concat("\n")
}

/// The list of members, with a button for each that the user can act on.
pub fn members_view(g: &GroupEntity, members: &Vec<MemberEntity>, me: &str, conv: i64) -> (r: Reply)
    ensures
        face(r) == members_face(*g, members@, me@, conv),
{
    let admin = g.my_role == Role::Admin;
    let mut text = title_of_members(g.name.as_str(), members.len());
    let ghost title = text@;
    let mut rows = no_rows();
    let mut i: usize = 0;
    let ghost empty: Seq<Seq<Key>> = seq![];
    assert(members@.take(0) =~= Seq::empty());
    assert(title + listed_members(members@.take(0), me@) =~= title);
    assert(rows_of(rows@) =~= empty);
    while i < members.len()
        invariant
            i <= members.len(),
            admin == (g.my_role == Role::Admin),
            text@ == title + listed_members(members@.take(i as int), me@),
            rows_of(rows@) == (if admin {
                member_rows(members@.take(i as int), me@, conv)
            } else {
                seq![]
            }),
        decreases members.len() - i,
    {
        assert(members@.take(i + 1).drop_last() =~= members@.take(i as int));
        let m = &members[i];
        let line = line_of_member(m, me);
        let ghost before = listed_members(members@.take(i as int), me@);
        text = text.concat(line.as_str());
        assert(text@ =~= title + (before + line@));
        if admin && !same(m.user_id.as_str(), me) && !starts_with(m.user_id.as_str(), SERVICE_PREFIX) {
            let mark = if m.role == Role::Admin {
                " "
            } else {
                ""
            };
            let label = m.display_name.clone().concat(mark);
            let data = "m:".to_owned().concat(show_i64(conv).as_str()).concat(":").concat(
                m.user_id.as_str(),
            );
            add_row(&mut rows, one(button(label.as_str(), data)));
        }
        i += 1;
    }
    assert(members@.take(i as int) =~= members@);
    let end = if !admin {
        ""
    } else if rows.len() == 0 {
        "\nNo other members to manage yet."
    } else {
        "\nTap a member to promote, demote or remove."
    };
    assert(rows@.len() == rows_of(rows@).len());
    text = text.concat(end);
    add_row(
        &mut rows,
        two(button("Back", group_action(conv, "card")), fixed("Close", "noop")),
    );
    Reply { text, keyboard: rows }
}

/// What a button of a member's menu means.
pub open spec fn member_action_data(conv: i64, user: Seq<char>, what: Seq<char>) -> Seq<char> {
    "ma:"@ + decimal_int(conv as int) + ":"@ + user + ":"@ + what
}

fn member_action(conv: i64, user: &str, what: &str) -> (r: String)
    ensures
        r@ == member_action_data(conv, user@, what@),
{
    "ma:".to_owned().concat(show_i64(conv).as_str()).concat(":").concat(user).concat(":").concat(
        what,
    )
}

/// What can be done about one member.
pub fn member_menu(conv: i64, name: &str, user_id: &str, role: Role) -> (r: Reply)
    ensures
        face(r) == (Face {
            text: "<b>"@ + escaped(name@) + "</b> — "@ + (if role == Role::Admin {
                "admin"@
            } else {
                "member"@
            }),
            keyboard: seq![
                seq![
                    if role == Role::Admin {
                        ("Make member"@, member_action_data(conv, user_id@, "m"@))
                    } else {
                        ("Make admin"@, member_action_data(conv, user_id@, "a"@))
                    },
                ],
                seq![("Remove from group"@, member_action_data(conv, user_id@, "r"@))],
                back_row(conv, "members"@),
            ],
        }),
{
    let mut rows = no_rows();
    let word = match role {
        Role::Admin => {
            add_row(
                &mut rows,
                one(button("Make member", member_action(conv, user_id, "m"))),
            );
            "admin"
        },
        Role::Member => {
            add_row(&mut rows, one(button("Make admin", member_action(conv, user_id, "a"))));
            "member"
        },
    };
    add_row(
        &mut rows,
        one(button("Remove from group", member_action(conv, user_id, "r"))),
    );
    add_row(
        &mut rows,
        two(button("Back", group_action(conv, "members")), fixed("Close", "noop")),
    );
    let text = "<b>".to_owned().concat(escape_html(name).as_str()).concat("</b> — ").concat(word);
    let r = Reply { text, keyboard: rows };
    assert(face(r).keyboard =~= seq![
        seq![
            if role == Role::Admin {
                ("Make member"@, member_action_data(conv, user_id@, "m"@))
            } else {
                ("Make admin"@, member_action_data(conv, user_id@, "a"@))
            },
        ],
        seq![("Remove from group"@, member_action_data(conv, user_id@, "r"@))],
        back_row(conv, "members"@),
    ]);
    r
}

/// Nobody can act on themselves or on a service account from the list of members.
pub proof fn law_only_others_are_managed(ms: Seq<MemberEntity>, me: Seq<char>, conv: i64, k: int)
    requires
        0 <= k < member_rows(ms, me, conv).len(),
    ensures
        exists|i: int|
            0 <= i < ms.len() && manageable(#[trigger] ms[i], me) && member_rows(ms, me, conv)[k]
                == seq![(ms[i].display_name@ + role_mark(ms[i]), member_data(conv, ms[i].user_id@))],
    decreases ms.len(),
{
    let before = member_rows(ms.drop_last(), me, conv);
    if k < before.len() {
        law_only_others_are_managed(ms.drop_last(), me, conv, k);
        let i = choose|i: int|
            0 <= i < ms.drop_last().len() && manageable(#[trigger] ms.drop_last()[i], me)
                && before[k] == seq![
                (
                    ms.drop_last()[i].display_name@ + role_mark(ms.drop_last()[i]),
                    member_data(conv, ms.drop_last()[i].user_id@),
                ),
            ];
        assert(manageable(ms[i], me));
    } else {
        assert(manageable(ms[ms.len() - 1], me));
    }
}

} // verus!
