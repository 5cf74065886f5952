//! The texts in which the bot reports what a command found or did.

use crate::bridge::format::{escape_html, escaped};
use crate::bridge::records::{status_text, Account};
use crate::error::{error_text, AppError, ErrorField, ErrorItem, ErrorsDto};
use crate::models::{
    opt_text, AddMembersOutcome, AddedMember, Device, RegisteredContact, Role,
};
use crate::numbers::{decimal, decimal_int, show_i64, show_u64, show_usize};
use crate::socket::SyncState;
use crate::store::{GroupWithUnread, MemberEntity};
use crate::text::{chars_of, join, joined, same, string_from, texts};
use vstd::prelude::*;

verus! {

/// A text without its leading slashes.
pub open spec fn without_slashes(s: Seq<char>) -> Seq<char>
    decreases s.len(),
{
    if s.len() > 0 && s[0] == '/' {
        without_slashes(s.drop_first())
    } else {
        s
    }
}

fn drop_slashes(s: &str) -> (r: String)
    ensures
        r@ == without_slashes(s@),
{
    let v = chars_of(s);
    let mut i: usize = 0;
    assert(v@.skip(0) =~= s@);
    while i < v.len() && v[i] == '/'
        invariant
            i <= v.len(),
            v@ == s@,
            without_slashes(s@) == without_slashes(v@.skip(i as int)),
        decreases v.len() - i,
    {
        assert(v@.skip(i as int).drop_first() =~= v@.skip(i + 1));
        i += 1;
    }
    let r = string_from(&v, i, v.len());
    assert(r@ =~= v@.skip(i as int));
    r
}

/// One entry of a list of field errors, in words.
pub open spec fn item_text(e: ErrorItem) -> Seq<char> {
    let path = without_slashes(e.path@);
    if path.len() == 0 {
        e.message@
    } else {
        path + ": "@ + e.message@
    }
}

/// One member of an object of field errors, in words.
pub open spec fn field_text(e: ErrorField) -> Seq<char> {
    e.name@ + ": "@ + e.text@
}

/// All field errors, in words.
pub open spec fn error_items(e: ErrorsDto) -> Seq<Seq<char>> {
    match e {
        ErrorsDto::Items(v) => Seq::new(v@.len(), |i: int| item_text(v@[i])),
        ErrorsDto::Fields(v) => Seq::new(v@.len(), |i: int| field_text(v@[i])),
        ErrorsDto::Text(t) => seq![t@],
    }
}

/// The texts of a list that say something.
pub open spec fn telling(s: Seq<Seq<char>>) -> Seq<Seq<char>>
    decreases s.len(),
{
    if s.len() == 0 {
        seq![]
    } else if s.last().len() > 0 {
        telling(s.drop_last()).push(s.last())
    } else {
        telling(s.drop_last())
    }
}

/// Field errors in one line.
pub open spec fn validation_text(e: Option<ErrorsDto>) -> Seq<char> {
    match e {
        None => "invalid input"@,
        Some(d) => {
            let line = join(telling(error_items(d)), "; "@);
            if line.len() == 0 {
                "invalid input"@
            } else {
                line
            }
        },
    }
}

fn list_errors(e: &ErrorsDto) -> (r: Vec<String>)
    ensures
        texts(r@) == error_items(*e),
{
    let mut out: Vec<String> = Vec::new();
    match e {
        ErrorsDto::Items(v) => {
            let mut i: usize = 0;
            while i < v.len()
                invariant
                    i <= v.len(),
                    out@.len() == i,
                    forall|k: int| 0 <= k < i ==> (#[trigger] out@[k])@ == item_text(v@[k]),
                decreases v.len() - i,
            {
                let path = drop_slashes(v[i].path.as_str());
                if path.as_str().is_empty() {
                    out.push(v[i].message.clone());
                } else {
                    out.push(path.concat(": ").concat(v[i].message.as_str()));
                }
                i += 1;
            }
            assert(texts(out@) =~= error_items(*e));
        },
        ErrorsDto::Fields(v) => {
            let mut i: usize = 0;
            while i < v.len()
                invariant
                    i <= v.len(),
                    out@.len() == i,
                    forall|k: int| 0 <= k < i ==> (#[trigger] out@[k])@ == field_text(v@[k]),
                decreases v.len() - i,
            {
                out.push(v[i].name.clone().concat(": ").concat(v[i].text.as_str()));
                i += 1;
            }
            assert(texts(out@) =~= error_items(*e));
        },
        ErrorsDto::Text(t) => {
            out.push(t.clone());
            assert(texts(out@) =~= seq![t@]);
        },
    }
    out
}

fn drop_silent(v: &Vec<String>) -> (r: Vec<String>)
    ensures
        texts(r@) == telling(texts(v@)),
{
    let mut out: Vec<String> = Vec::new();
    let mut i: usize = 0;
    let ghost all = texts(v@);
    assert(all.take(0) =~= seq![]);
    assert(texts(out@) =~= seq![]);
    while i < v.len()
        invariant
            i <= v.len(),
            all == texts(v@),
            texts(out@) == telling(all.take(i as int)),
        decreases v.len() - i,
    {
        assert(all.take(i + 1).drop_last() =~= all.take(i as int));
        assert(all.take(i + 1).last() == v@[i as int]@);
        if !v[i].as_str().is_empty() {
            let ghost before = texts(out@);
            out.push(v[i].clone());
            assert(texts(out@) =~= before.push(v@[i as int]@));
        }
        i += 1;
    }
    assert(all.take(i as int) =~= all);
    out
}

/// Field errors in one line.
pub fn render_validation_errors(errors: &Option<ErrorsDto>) -> (r: String)
    ensures
        r@ == validation_text(*errors),
{
    match errors {
        None => "invalid input".to_owned(),
        Some(e) => {
            let line = joined(&drop_silent(&list_errors(e)), "; ");
            if line.as_str().is_empty() {
                "invalid input".to_owned()
            } else {
                line
            }
        },
    }
}

/// What an error says to the user.
pub open spec fn friendly_text(e: AppError) -> Seq<char> {
    match e {
        AppError::RateLimited { retry_after_seconds, .. } => "Too many attempts. Try again in "@
            + decimal(
            match retry_after_seconds {
                Some(s) => s as nat,
                None => 60,
            },
        ) + " seconds."@,
        AppError::InvalidCode { .. } => "Wrong code."@,
        AppError::SmsDeliveryFailed { .. } => "Tzibbur could not send an SMS to that number."@,
        AppError::InvalidDisplayName { max_length, .. } => "Invalid name; the limit is "@ + decimal(
            max_length as nat,
        ) + " characters."@,
        AppError::ReservedDisplayName { .. } => "That display name is reserved."@,
        AppError::ValidationFailed { errors, .. } => "Tzibbur rejected it: "@ + validation_text(
            errors,
        ) + "."@,
        AppError::GroupTooSmall { min_members, .. } => "The group needs at least "@ + decimal(
            match min_members {
                Some(m) => m as nat,
                None => 3,
            },
        ) + " members before anyone can post."@,
        AppError::Network { .. } => "Tzibbur is unreachable. Try again shortly."@,
        _ => error_text(e),
    }
}

/// What an error says to the user.
pub fn friendly(e: &AppError) -> (r: String)
    ensures
        r@ == friendly_text(*e),
{
    match e {
        AppError::RateLimited { retry_after_seconds, .. } => {
            let n: u64 = match retry_after_seconds {
                Some(s) => *s,
                None => 60,
            };
            "Too many attempts. Try again in ".to_owned().concat(show_u64(n).as_str()).concat(
                " seconds.",
            )
        },
        AppError::InvalidCode { .. } => "Wrong code.".to_owned(),
        AppError::SmsDeliveryFailed { .. } =>
            "Tzibbur could not send an SMS to that number.".to_owned(),
        AppError::InvalidDisplayName { max_length, .. } => "Invalid name; the limit is ".to_owned()
            .concat(show_usize(*max_length).as_str()).concat(" characters."),
        AppError::ReservedDisplayName { .. } => "That display name is reserved.".to_owned(),
        AppError::ValidationFailed { errors, .. } => "Tzibbur rejected it: ".to_owned().concat(
            render_validation_errors(errors).as_str(),
        ).concat("."),
        AppError::GroupTooSmall { min_members, .. } => {
            let n: u32 = match min_members {
                Some(m) => *m,
                None => 3,
            };
            "The group needs at least ".to_owned().concat(show_u64(n as u64).as_str()).concat(
                " members before anyone can post.",
            )
        },
        AppError::Network { .. } => "Tzibbur is unreachable. Try again shortly.".to_owned(),
        _ => e.message(),
    }
}

/// A failure behind a lead, as the user sees it.
pub open spec fn failure_text(lead: Seq<char>, e: AppError) -> Seq<char> {
    lead + escaped(friendly_text(e))
}

/// A failure behind a lead, as the user sees it.
pub fn failure(lead: &str, e: &AppError) -> (r: String)
    ensures
        r@ == failure_text(lead@, *e),
{
    lead.to_owned().concat(escape_html(friendly(e).as_str()).as_str())
}

/// A list of texts, escaped, behind a lead; nothing when the list is empty.
pub open spec fn listed(lead: Seq<char>, v: Seq<Seq<char>>, end: Seq<char>) -> Seq<char> {
    if v.len() == 0 {
        Seq::empty()
    } else {
        lead + escaped(join(v, ", "@)) + end
    }
}

/// A list of texts, escaped, behind a lead; nothing when the list is empty.
pub fn list_after(lead: &str, v: &Vec<String>, end: &str) -> (r: String)
    ensures
        r@ == listed(lead@, texts(v@), end@),
{
    if v.len() == 0 {
        String::new()
    } else {
        lead.to_owned().concat(escape_html(joined(v, ", ").as_str()).as_str()).concat(end)
    }
}

/// The note about words that are no phone numbers.
pub fn bad_numbers(bad: &Vec<String>) -> (r: String)
    ensures
        r@ == listed("Not phone numbers: "@, texts(bad@), Seq::empty()),
{
    proof {
        reveal_strlit("");
        assert(""@ =~= Seq::empty());
    }
    list_after("Not phone numbers: ", bad, "")
}

/// The note about a text over its limit.
pub open spec fn too_long_text(count: nat, max: nat) -> Seq<char> {
    "Too long: "@ + decimal(count) + " characters, the limit is "@ + decimal(max) + "."@
}

/// The note about a text over its limit.
pub fn too_long(count: usize, max: usize) -> (r: String)
    ensures
        r@ == too_long_text(count as nat, max as nat),
{
    "Too long: ".to_owned().concat(show_usize(count).as_str()).concat(
        " characters, the limit is ",
    ).concat(show_usize(max).as_str()).concat(".")
}

/// An added member, escaped.
pub open spec fn added_name(a: AddedMember) -> Seq<char> {
    match a {
        AddedMember::Member(m) => escaped(m.display_name@),
        AddedMember::Phone(p) => escaped(p@),
    }
}

/// The names of added members, escaped.
pub open spec fn added_names(v: Seq<AddedMember>) -> Seq<Seq<char>> {
    Seq::new(v.len(), |i: int| added_name(v[i]))
}

fn name_added(v: &Vec<AddedMember>) -> (r: Vec<String>)
    ensures
        texts(r@) == added_names(v@),
{
    let mut out: Vec<String> = Vec::new();
    let mut i: usize = 0;
    while i < v.len()
        invariant
            i <= v.len(),
            out@.len() == i,
            forall|k: int| 0 <= k < i ==> (#[trigger] out@[k])@ == added_name(v@[k]),
        decreases v.len() - i,
    {
        match &v[i] {
            AddedMember::Member(m) => {
                out.push(escape_html(m.display_name.as_str()));
            },
            AddedMember::Phone(p) => {
                out.push(escape_html(p.as_str()));
            },
        }
        i += 1;
    }
    assert(texts(out@) =~= added_names(v@));
    out
}

/// What became of a member addition.
pub open spec fn outcome_text(o: AddMembersOutcome) -> Seq<char> {
    let s = (if o.added@.len() == 0 {
        Seq::empty()
    } else {
        "Added: "@ + join(added_names(o.added@), ", "@) + "\n"@
    }) + listed("ℹ️ Already members: "@, texts(o.already_member@), "\n"@) + listed(
        "Not on Tzibbur: "@,
        texts(o.not_found@),
        "\n"@,
    );
    if s.len() == 0 {
        "Nothing changed."@
    } else {
        s
    }
}

/// What became of a member addition.
pub fn format_add_outcome(o: &AddMembersOutcome) -> (r: String)
    ensures
        r@ == outcome_text(*o),
{
    let head = if o.added.len() == 0 {
        String::new()
    } else {
        "Added: ".to_owned().concat(joined(&name_added(&o.added), ", ").as_str()).concat("\n")
    };
    let s = head.concat(list_after("ℹ️ Already members: ", &o.already_member, "\n").as_str()).concat(
        list_after("Not on Tzibbur: ", &o.not_found, "\n").as_str(),
    );
    if s.as_str().is_empty() {
        "Nothing changed.".to_owned()
    } else {
        s
    }
}

/// A number the server refused, and why.
#[derive(Debug)]
pub struct Refused {
    pub phone: String,
    pub why: String,
}

/// A refused number, escaped.
pub open spec fn refused_text(f: Refused) -> Seq<char> {
    escaped(f.phone@) + " ("@ + escaped(f.why@) + ")"@
}

/// The refused numbers, escaped.
pub open spec fn refused_texts(v: Seq<Refused>) -> Seq<Seq<char>> {
    Seq::new(v.len(), |i: int| refused_text(v[i]))
}

/// The numbers the server refused.
pub open spec fn failures_text(v: Seq<Refused>) -> Seq<char> {
    if v.len() == 0 {
        Seq::empty()
    } else {
        "Refused by Tzibbur: "@ + join(refused_texts(v), ", "@) + "\n"@
    }
}

/// The numbers the server refused.
pub fn format_add_failures(v: &Vec<Refused>) -> (r: String)
    ensures
        r@ == failures_text(v@),
{
    if v.len() == 0 {
        return String::new();
    }
    let mut out: Vec<String> = Vec::new();
    let mut i: usize = 0;
    while i < v.len()
        invariant
            i <= v.len(),
            out@.len() == i,
            forall|k: int| 0 <= k < i ==> (#[trigger] out@[k])@ == refused_text(v@[k]),
        decreases v.len() - i,
    {
        out.push(
            escape_html(v[i].phone.as_str()).concat(" (").concat(
                escape_html(v[i].why.as_str()).as_str(),
            ).concat(")"),
        );
        i += 1;
    }
    assert(texts(out@) =~= refused_texts(v@));
    "Refused by Tzibbur: ".to_owned().concat(joined(&out, ", ").as_str()).concat("\n")
}

/// The report on the groups of an account.
pub open spec fn group_line(r: GroupWithUnread) -> Seq<char> {
    "• "@ + escaped(r.group.name@) + (if r.group.muted {
        " "@
    } else {
        ""@
    }) + " — "@ + decimal_int(r.group.member_count as int) + " member(s)"@ + (if r.unread_count > 0 {
        " · "@ + decimal(r.unread_count as nat) + " unread"@
    } else {
        Seq::empty()
    }) + "\n"@
}

/// The lines for groups, one after the other.
pub open spec fn group_lines(rows: Seq<GroupWithUnread>) -> Seq<char>
    decreases rows.len(),
{
    if rows.len() == 0 {
        Seq::empty()
    } else {
        group_lines(rows.drop_last()) + group_line(rows.last())
    }
}

/// The report on the groups of an account.
pub open spec fn chats_text(rows: Seq<GroupWithUnread>) -> Seq<char> {
    if rows.len() == 0 {
        "No groups yet. Send /newgroup to create one."@
    } else {
        "<b>Your Tzibbur groups</b>\n"@ + group_lines(rows)
    }
}

fn line_for_group(r: &GroupWithUnread) -> (s: String)
    ensures
        s@ == group_line(*r),
{
    let muted = if r.group.muted {
        " "
    } else {
        ""
    };
    let unread = if r.unread_count > 0 {
        " · ".to_owned().concat(show_u64(r.unread_count as u64).as_str()).concat(" unread")
    } else {
        String::new()
    };
    "• ".to_owned().concat(escape_html(r.group.name.as_str()).as_str()).concat(muted).concat(
        " — ",
    ).concat(show_i64(r.group.member_count).as_str()).concat(" member(s)").concat(
        unread.as_str(),
    ).concat("\n")
}

/// The report on the groups of an account.
pub fn chats_report(rows: &Vec<GroupWithUnread>) -> (r: String)
    ensures
        r@ == chats_text(rows@),
{
    if rows.len() == 0 {
        return "No groups yet. Send /newgroup to create one.".to_owned();
    }
    let mut lines = String::new();
    let mut i: usize = 0;
    assert(rows@.take(0) =~= Seq::empty());
    while i < rows.len()
        invariant
            i <= rows.len(),
            lines@ == group_lines(rows@.take(i as int)),
        decreases rows.len() - i,
    {
        assert(rows@.take(i + 1).drop_last() =~= rows@.take(i as int));
        lines = lines.concat(line_for_group(&rows[i]).as_str());
        i += 1;
    }
    assert(rows@.take(i as int) =~= rows@);
    "<b>Your Tzibbur groups</b>\n".to_owned().concat(lines.as_str())
}

/// The name of a connection state.
pub open spec fn sync_name(s: Option<SyncState>) -> Seq<char> {
    match s {
        Some(SyncState::Idle) => "Idle"@,
        Some(SyncState::Connecting) => "Connecting"@,
        Some(SyncState::Connected) => "Connected"@,
        Some(SyncState::BackingOff) => "BackingOff"@,
        Some(SyncState::UpdateRequired) => "UpdateRequired"@,
        None => "stopped"@,
    }
}

fn name_sync(s: Option<SyncState>) -> (r: &'static str)
    ensures
        r@ == sync_name(s),
{
    match s {
        Some(SyncState::Idle) => "Idle",
        Some(SyncState::Connecting) => "Connecting",
        Some(SyncState::Connected) => "Connected",
        Some(SyncState::BackingOff) => "BackingOff",
        Some(SyncState::UpdateRequired) => "UpdateRequired",
        None => "stopped",
    }
}

/// The report on an account's connection.
pub open spec fn account_text(
    a: Option<Account>,
    sync: Option<SyncState>,
    groups: nat,
    topics: bool,
) -> Seq<char> {
    match a {
        None => "Not connected. Send /connect."@,
        Some(a) => "Account: <b>"@ + escaped(
            match a.display_name {
                Some(n) => n@,
                None => "?"@,
            },
        ) + "</b> ("@ + escaped(
            match a.phone_e164 {
                Some(p) => p@,
                None => ""@,
            },
        ) + ")\nStatus: "@ + status_text(a.status) + "\nSync: "@ + sync_name(sync)
            + "\nGroups cached: "@ + decimal(groups) + "\nTopics: "@ + (if topics {
            "enabled"@
        } else {
            "disabled"@
        }),
    }
}

/// The report on an account's connection; `sync` is absent when the account is not running.
pub fn status_report(
    account: &Option<Account>,
    sync: Option<SyncState>,
    groups: usize,
    topics: bool,
) -> (r: String)
    ensures
        r@ == account_text(*account, sync, groups as nat, topics),
{
    match account {
        None => "Not connected. Send /connect.".to_owned(),
        Some(a) => {
            let name = match &a.display_name {
                Some(n) => n.as_str(),
                None => "?",
            };
            let phone = match &a.phone_e164 {
                Some(p) => p.as_str(),
                None => "",
            };
            let on = if topics {
                "enabled"
            } else {
                "disabled"
            };
            "Account: <b>".to_owned().concat(escape_html(name).as_str()).concat("</b> (").concat(
                escape_html(phone).as_str(),
            ).concat(")\nStatus: ").concat(a.status.as_str()).concat("\nSync: ").concat(
                name_sync(sync),
            ).concat("\nGroups cached: ").concat(show_usize(groups).as_str()).concat(
                "\nTopics: ",
            ).concat(on)
        },
    }
}

/// The members of a group, one line each.
pub open spec fn member_line(m: MemberEntity, me: Seq<char>) -> Seq<char> {
    "• "@ + escaped(m.display_name@) + (if m.role == Role::Admin {
        " (admin)"@
    } else {
        ""@
    }) + (if m.user_id@ == me {
        " — you"@
    } else {
        ""@
    }) + "\n"@
}

/// The lines for members, one after the other.
pub open spec fn member_lines(ms: Seq<MemberEntity>, me: Seq<char>) -> Seq<char>
    decreases ms.len(),
{
    if ms.len() == 0 {
        Seq::empty()
    } else {
        member_lines(ms.drop_last(), me) + member_line(ms.last(), me)
    }
}

/// The title of a list of members.
pub open spec fn members_title(name: Seq<char>, n: nat) -> Seq<char> {
    "<b>"@ + escaped(name) + "</b> — "@ + decimal(n) + " member(s)\n"@
}

/// The title of a list of members.
pub fn title_of_members(name: &str, n: usize) -> (r: String)
    ensures
        r@ == members_title(name@, n as nat),
{
    "<b>".to_owned().concat(escape_html(name).as_str()).concat("</b> — ").concat(
        show_usize(n).as_str(),
    ).concat(" member(s)\n")
}

/// The report on the members of a group.
pub fn members_report(name: &Option<String>, members: &Vec<MemberEntity>, me: &str) -> (r: String)
    ensures
        r@ == members_title(
            match *name {
                Some(n) => n@,
                None => "Group"@,
            },
            members@.len(),
        ) + member_lines(members@, me@),
{
    let title = match name {
        Some(n) => title_of_members(n.as_str(), members.len()),
        None => title_of_members("Group", members.len()),
    };
    let mut lines = String::new();
    let mut i: usize = 0;
    assert(members@.take(0) =~= Seq::empty());
    while i < members.len()
        invariant
            i <= members.len(),
            lines@ == member_lines(members@.take(i as int), me@),
        decreases members.len() - i,
    {
        assert(members@.take(i + 1).drop_last() =~= members@.take(i as int));
        let m = &members[i];
        let role = if m.role == Role::Admin {
            " (admin)"
        } else {
            ""
        };
        let you = if same(m.user_id.as_str(), me) {
            " — you"
        } else {
            ""
        };
        let line = "• ".to_owned().concat(escape_html(m.display_name.as_str()).as_str()).concat(
            role,
        ).concat(you).concat("\n");
        lines = lines.concat(line.as_str());
        i += 1;
    }
    assert(members@.take(i as int) =~= members@);
    title.concat(lines.as_str())
}

/// The phone numbers of registered contacts.
pub open spec fn contact_phones(reg: Seq<RegisteredContact>) -> Seq<Seq<char>>
    decreases reg.len(),
{
    if reg.len() == 0 {
        seq![]
    } else {
        match reg.last().phone_e164 {
            Some(p) => contact_phones(reg.drop_last()).push(p@),
            None => contact_phones(reg.drop_last()),
        }
    }
}

/// The texts of a list that are not in another.
pub open spec fn others(v: Seq<Seq<char>>, known: Seq<Seq<char>>) -> Seq<Seq<char>>
    decreases v.len(),
{
    if v.len() == 0 {
        seq![]
    } else if known.contains(v.last()) {
        others(v.drop_last(), known)
    } else {
        others(v.drop_last(), known).push(v.last())
    }
}

fn phones_of(reg: &Vec<RegisteredContact>) -> (r: Vec<String>)
    ensures
        texts(r@) == contact_phones(reg@),
{
    let mut out: Vec<String> = Vec::new();
    let mut i: usize = 0;
    assert(reg@.take(0) =~= Seq::empty());
    assert(texts(out@) =~= seq![]);
    while i < reg.len()
        invariant
            i <= reg.len(),
            texts(out@) == contact_phones(reg@.take(i as int)),
        decreases reg.len() - i,
    {
        assert(reg@.take(i + 1).drop_last() =~= reg@.take(i as int));
        match &reg[i].phone_e164 {
            Some(p) => {
                let ghost before = texts(out@);
                out.push(p.clone());
                assert(texts(out@) =~= before.push(p@));
            },
            None => {},
        }
        i += 1;
    }
    assert(reg@.take(i as int) =~= reg@);
    out
}

fn is_among(s: &str, v: &Vec<String>) -> (r: bool)
    ensures
        r == texts(v@).contains(s@),
{
    let mut i: usize = 0;
    while i < v.len()
        invariant
            i <= v.len(),
            forall|k: int| 0 <= k < i ==> texts(v@)[k] != s@,
        decreases v.len() - i,
    {
        if same(v[i].as_str(), s) {
            assert(texts(v@)[i as int] == s@);
            return true;
        }
        i += 1;
    }
    false
}

fn those_not_in(v: &Vec<String>, known: &Vec<String>) -> (r: Vec<String>)
    ensures
        texts(r@) == others(texts(v@), texts(known@)),
{
    let mut out: Vec<String> = Vec::new();
    let mut i: usize = 0;
    let ghost all = texts(v@);
    assert(all.take(0) =~= seq![]);
    assert(texts(out@) =~= seq![]);
    while i < v.len()
        invariant
            i <= v.len(),
            all == texts(v@),
            texts(out@) == others(all.take(i as int), texts(known@)),
        decreases v.len() - i,
    {
        assert(all.take(i + 1).drop_last() =~= all.take(i as int));
        assert(all.take(i + 1).last() == v@[i as int]@);
        if !is_among(v[i].as_str(), known) {
            let ghost before = texts(out@);
            out.push(v[i].clone());
            assert(texts(out@) =~= before.push(v@[i as int]@));
        }
        i += 1;
    }
    assert(all.take(i as int) =~= all);
    out
}

/// The report on which numbers are registered.
pub open spec fn contacts_text(
    reg: Seq<RegisteredContact>,
    phones: Seq<Seq<char>>,
    bad: Seq<Seq<char>>,
) -> Seq<char> {
    listed("On Tzibbur: "@, contact_phones(reg), "\n"@) + listed(
        "Not on Tzibbur: "@,
        others(phones, contact_phones(reg)),
        "\n"@,
    ) + listed("Not phone numbers: "@, bad, Seq::empty())
}

/// The report on which numbers are registered.
pub fn contacts_report(
    registered: &Vec<RegisteredContact>,
    phones: &Vec<String>,
    bad: &Vec<String>,
) -> (r: String)
    ensures
        r@ == contacts_text(registered@, texts(phones@), texts(bad@)),
{
    let on = phones_of(registered);
    let off = those_not_in(phones, &on);
    list_after("On Tzibbur: ", &on, "\n").concat(
        list_after("Not on Tzibbur: ", &off, "\n").as_str(),
    ).concat(bad_numbers(bad).as_str())
}

/// How a time is shown: to the minute, such as `2026-01-31 09:05 UTC`.
pub const TO_THE_MINUTE: &'static str = "%Y-%m-%d %H:%M UTC";

/// A time, in milliseconds since 1970, in UTC after a pattern; nothing for a time that no calendar
/// date has.
pub uninterp spec fn utc_shown(ms: i64, pattern: Seq<char>) -> Option<Seq<char>>;

/// `chrono::DateTime::from_timestamp_millis`, then `format`. What each time looks like is left to a
/// name. With a pattern that has an unknown specifier the call would panic, so the one pattern that
/// is in use is asked for.
#[verifier::external_body]
fn show_time(ms: i64, pattern: &str) -> (r: Option<String>)
    requires
        pattern@ == TO_THE_MINUTE@,
    ensures
        opt_text(r) == utc_shown(ms, pattern@),
{
    chrono::DateTime::from_timestamp_millis(ms).map(|t| t.format(pattern).to_string())
}

/// A device, in one line, with the time when it was last seen.
pub open spec fn device_text(d: Device, seen: Option<Seq<char>>) -> Seq<char> {
    "• "@ + escaped(
        match d.platform {
            Some(p) => p@,
            None => "?"@,
        },
    ) + " "@ + escaped(
        match d.device_model {
            Some(m) => m@,
            None => ""@,
        },
    ) + " — last seen "@ + (match seen {
        Some(t) => t,
        None => "never"@,
    }) + "\n"@
}

/// A device, in one line, with the time when it was last seen.
pub fn device_line(d: &Device, seen: &Option<String>) -> (r: String)
    ensures
        r@ == device_text(*d, opt_text(*seen)),
{
    let platform = match &d.platform {
        Some(p) => p.as_str(),
        None => "?",
    };
    let model = match &d.device_model {
        Some(m) => m.as_str(),
        None => "",
    };
    let when = match seen {
        Some(t) => t.as_str(),
        None => "never",
    };
    "• ".to_owned().concat(escape_html(platform).as_str()).concat(" ").concat(
        escape_html(model).as_str(),
    ).concat(" — last seen ").concat(when).concat("\n")
}

/// When a device was last seen.
pub open spec fn seen_text(d: Device) -> Option<Seq<char>> {
    match d.last_seen_at {
        Some(ms) => utc_shown(ms, TO_THE_MINUTE@),
        None => None,
    }
}

/// The lines for devices, one after the other.
pub open spec fn device_lines(ds: Seq<Device>) -> Seq<char>
    decreases ds.len(),
{
    if ds.len() == 0 {
        Seq::empty()
    } else {
        device_lines(ds.drop_last()) + device_text(ds.last(), seen_text(ds.last()))
    }
}

/// The report on the devices of an account.
pub fn devices_report(devices: &Vec<Device>) -> (r: String)
    ensures
        r@ == "<b>Your Tzibbur devices</b> ("@ + decimal(devices@.len()) + ")\n"@ + device_lines(
            devices@,
        )
            + "\nThe bridge itself shows up as one of these (android · Pixel 7 by default)."@,
{
    let mut lines = String::new();
    let mut i: usize = 0;
    assert(devices@.take(0) =~= Seq::empty());
    while i < devices.len()
        invariant
            i <= devices.len(),
            lines@ == device_lines(devices@.take(i as int)),
        decreases devices.len() - i,
    {
        assert(devices@.take(i + 1).drop_last() =~= devices@.take(i as int));
        let seen: Option<String> = match devices[i].last_seen_at {
            Some(ms) => show_time(ms, TO_THE_MINUTE),
            None => None,
        };
        lines = lines.concat(device_line(&devices[i], &seen).as_str());
        i += 1;
    }
    assert(devices@.take(i as int) =~= devices@);
    "<b>Your Tzibbur devices</b> (".to_owned().concat(show_usize(devices.len()).as_str()).concat(
        ")\n",
    ).concat(lines.as_str()).concat(
        "\nThe bridge itself shows up as one of these (android · Pixel 7 by default).",
    )
}

/// What the bot stores, and what it does not.
pub const PRIVACY_TEXT: &'static str =
    "<b>What this bot stores</b>\n\nYour Telegram id, your Tzibbur id and phone number, your list of groups, and which topic belongs to which group.\nMessage ids, to avoid duplicates. Message text is deleted from the server as soon as it is delivered.\nYour Tzibbur session, encrypted, so the bot can stay connected for you.\n\n<b>Not stored</b>\nMessage text, SMS codes, your Telegram messages.\n\n/disconnect removes the session. Disconnect and erase also removes every mapping.";

/// How much of a legal document one message shows, in characters.
pub const LEGAL_EXCERPT: usize = 3800;

/// A legal document, as far as one message shows it.
pub fn legal_report(key: &str, markdown: &str) -> (r: String)
    ensures
        r@ == "<b>"@ + key@ + "</b>\n<pre>"@ + escaped(
            crate::text::first_chars(markdown@, LEGAL_EXCERPT as int),
        ) + "</pre>"@,
{
    let text = crate::text::take_chars(markdown, LEGAL_EXCERPT);
    "<b>".to_owned().concat(key).concat("</b>\n<pre>").concat(
        escape_html(text.as_str()).as_str(),
    ).concat("</pre>")
}

/// A group was created: what to know about it.
pub open spec fn created_text(name: Seq<char>, min_members: u32) -> Seq<char> {
    "Created <b>"@ + escaped(name) + "</b>.\n"@ + (if min_members > 1 {
        "ℹ️ Tzibbur lets people post once the group has <b>"@ + decimal(min_members as nat)
            + "</b> members. Add more any time with /add inside its topic.\n"@
    } else {
        Seq::empty()
    })
}

/// A group was created: what to know about it.
pub fn created_report(name: &str, min_members: Option<u32>) -> (r: String)
    ensures
        r@ == created_text(
            name@,
            match min_members {
                Some(n) => n,
                None => 0,
            },
        ),
{
    let n: u32 = match min_members {
        Some(n) => n,
        None => 0,
    };
    let hint = if n > 1 {
        "ℹ️ Tzibbur lets people post once the group has <b>".to_owned().concat(
            show_u64(n as u64).as_str(),
        ).concat("</b> members. Add more any time with /add inside its topic.\n")
    } else {
        String::new()
    };
    "Created <b>".to_owned().concat(escape_html(name).as_str()).concat("</b>.\n").concat(
        hint.as_str(),
    )
}

/// How adding several numbers goes on after the first attempt.
#[derive(Debug)]
pub enum Addition {
    /// Done: this is what became of each number.
    Done(AddMembersOutcome),
    /// One of the numbers was refused, and the server did not say which: add them one by one.
    OneByOne,
    /// All were refused.
    Failed(Vec<Refused>),
}

/// All numbers refused for the same reason.
pub open spec fn all_refused(v: Seq<Refused>, phones: Seq<Seq<char>>, why: Seq<char>) -> bool {
    &&& v.len() == phones.len()
    &&& forall|i: int| 0 <= i < v.len() ==> (#[trigger] v[i]).phone@ == phones[i] && v[i].why@ == why
}

/// How adding several numbers goes on after the first attempt: a single bad number must not sink
/// the rest.
pub fn after_first_addition(phones: &Vec<String>, reply: Result<AddMembersOutcome, AppError>) -> (r:
    Addition)
    ensures
        match reply {
            Ok(o) => r == Addition::Done(o),
            Err(e) => if e is ValidationFailed && phones@.len() > 1 {
                r is OneByOne
            } else {
                r matches Addition::Failed(v) && all_refused(
                    v@,
                    texts(phones@),
                    friendly_text(e),
                )
            },
        },
{
    match reply {
        Ok(o) => Addition::Done(o),
        Err(e) => {
            if matches!(e, AppError::ValidationFailed { .. }) && phones.len() > 1 {
                return Addition::OneByOne;
            }
            let mut out: Vec<Refused> = Vec::new();
            let mut i: usize = 0;
            while i < phones.len()
                invariant
                    i <= phones.len(),
                    out@.len() == i,
                    forall|k: int|
                        0 <= k < i ==> (#[trigger] out@[k]).phone@ == texts(phones@)[k]
                            && out@[k].why@ == friendly_text(e),
                decreases phones.len() - i,
            {
                out.push(Refused { phone: phones[i].clone(), why: friendly(&e) });
                i += 1;
            }
            Addition::Failed(out)
        },
    }
}

/// Take in what became of one number.
pub fn merge_addition(
    outcome: &mut AddMembersOutcome,
    failed: &mut Vec<Refused>,
    phone: &str,
    reply: Result<AddMembersOutcome, AppError>,
)
    ensures
        match reply {
            Ok(o) => {
                &&& final(outcome).added@ == old(outcome).added@ + o.added@
                &&& final(outcome).not_found@ == old(outcome).not_found@ + o.not_found@
                &&& final(outcome).already_member@ == old(outcome).already_member@
                    + o.already_member@
                &&& final(outcome).extra == old(outcome).extra
                &&& final(failed)@ == old(failed)@
            },
            Err(e) => {
                &&& *final(outcome) == *old(outcome)
                &&& final(failed)@.len() == old(failed)@.len() + 1
                &&& final(failed)@.drop_last() == old(failed)@
                &&& final(failed)@.last().phone@ == phone@
                &&& final(failed)@.last().why@ == friendly_text(e)
            },
        },
{
    match reply {
        Ok(o) => {
            let mut added = o.added;
            let mut not_found = o.not_found;
            let mut already = o.already_member;
            outcome.added.append(&mut added);
            outcome.not_found.append(&mut not_found);
            outcome.already_member.append(&mut already);
        },
        Err(e) => {
            failed.push(Refused { phone: phone.to_owned(), why: friendly(&e) });
            assert(failed@.drop_last() =~= old(failed)@);
        },
    }
}

} // verus!
