//! How messages look in Telegram, in its HTML notation.

use crate::store::{MemberEntity, MessageEntity};
use crate::text::{begins_with, chars_of, same, starts_with, string_from, texts, trim, trimmed};
use vstd::prelude::*;

verus! {

/// A character in Telegram's HTML notation.
pub open spec fn escaped_char(c: char) -> Seq<char> {
    if c == '&' {
        "&amp;"@
    } else if c == '<' {
        "&lt;"@
    } else if c == '>' {
        "&gt;"@
    } else {
        seq![c]
    }
}

/// A text in Telegram's HTML notation.
pub open spec fn escaped(s: Seq<char>) -> Seq<char>
    decreases s.len(),
{
    if s.len() == 0 {
        Seq::empty()
    } else {
        escaped(s.drop_last()) + escaped_char(s.last())
    }
}

/// A text in Telegram's HTML notation.
pub fn escape_html(s: &str) -> (r: String)
    ensures
        r@ == escaped(s@),
{
    let v = chars_of(s);
    let mut out = String::new();
    let mut i: usize = 0;
    assert(v@.take(0) =~= Seq::empty());
    while i < v.len()
        invariant
            i <= v.len(),
            out@ == escaped(v@.take(i as int)),
        decreases v.len() - i,
    {
        assert(v@.take(i + 1).drop_last() =~= v@.take(i as int));
        let c = v[i];
        if c == '&' {
            out = out.concat("&amp;");
        } else if c == '<' {
            out = out.concat("&lt;");
        } else if c == '>' {
            out = out.concat("&gt;");
        } else {
            out.push(c);
            assert(out@ =~= escaped(v@.take(i as int)) + seq![c]);
        }
        i += 1;
    }
    assert(v@.take(i as int) =~= s@);
    out
}

/// Escaped text holds no markup: neither `<` nor `>` occurs in it.
pub proof fn law_escaped_is_plain(s: Seq<char>)
    ensures
        forall|i: int| 0 <= i < escaped(s).len() ==> escaped(s)[i] != '<' && escaped(s)[i] != '>',
    decreases s.len(),
{
    if s.len() > 0 {
        law_escaped_is_plain(s.drop_last());
        reveal_strlit("&amp;");
        reveal_strlit("&lt;");
        reveal_strlit("&gt;");
        let a = escaped(s.drop_last());
        let b = escaped_char(s.last());
        assert forall|i: int| 0 <= i < escaped(s).len() implies escaped(s)[i] != '<' && escaped(
            s,
        )[i] != '>' by {
            if i < a.len() {
                assert(escaped(s)[i] == a[i]);
            } else {
                assert(escaped(s)[i] == b[i - a.len()]);
            }
        }
    }
}

/// Bytes of a character in UTF-8.
pub open spec fn width(c: char) -> nat {
    if (c as u32) < 0x80 {
        1
    } else if (c as u32) < 0x800 {
        2
    } else if (c as u32) < 0x10000 {
        3
    } else {
        4
    }
}

/// How many characters at the start of `s` fit into `room` bytes.
pub open spec fn fitting(s: Seq<char>, room: int) -> int
    decreases s.len(),
{
    if s.len() == 0 || width(s[0]) > room {
        0
    } else {
        1 + fitting(s.drop_first(), room - width(s[0]))
    }
}

proof fn lemma_fitting(s: Seq<char>, room: int)
    ensures
        0 <= fitting(s, room) <= s.len(),
    decreases s.len(),
{
    if s.len() > 0 && width(s[0]) <= room {
        lemma_fitting(s.drop_first(), room - width(s[0]));
    }
}

/// The first eight bytes of an id.
pub open spec fn short_id(s: Seq<char>) -> Seq<char> {
    s.take(fitting(s, 8))
}

fn shortened(s: &str) -> (r: String)
    ensures
        r@ == short_id(s@),
{
    let v = chars_of(s);
    let mut i: usize = 0;
    let mut room: usize = 8;
    assert(s@.skip(0) =~= s@);
    while i < v.len()
        invariant
            i <= v.len(),
            v@ == s@,
            fitting(s@, 8) == i + fitting(s@.skip(i as int), room as int),
        ensures
            i <= v.len(),
            fitting(s@, 8) == i,
        decreases v.len() - i,
    {
        let n = v[i] as u32;
        let w: usize = if n < 0x80 {
            1
        } else if n < 0x800 {
            2
        } else if n < 0x10000 {
            3
        } else {
            4
        };
        if w > room {
            break;
        }
        assert(s@.skip(i as int).drop_first() =~= s@.skip(i + 1));
        room = room - w;
        i += 1;
    }
    assert(v@.subrange(0, i as int) =~= s@.take(i as int));
    string_from(&v, 0, i)
}

/// Start of the ids of service accounts.
pub const SERVICE_PREFIX: &'static str = "00000000-0000-7000-8000-";

/// The first member with a user id.
pub open spec fn member_with(members: Seq<MemberEntity>, user: Seq<char>) -> Option<MemberEntity>
    decreases members.len(),
{
    if members.len() == 0 {
        None
    } else if members[0].user_id@ == user {
        Some(members[0])
    } else {
        member_with(members.drop_first(), user)
    }
}

fn find_member<'a>(members: &'a Vec<MemberEntity>, user: &str) -> (r: Option<&'a MemberEntity>)
    ensures
        r == (match member_with(members@, user@) {
            Some(m) => Some(&m),
            None => None,
        }),
{
    let mut i: usize = 0;
    assert(members@.skip(0) =~= members@);
    while i < members.len()
        invariant
            i <= members.len(),
            member_with(members@, user@) == member_with(members@.skip(i as int), user@),
        decreases members.len() - i,
    {
        if same(members[i].user_id.as_str(), user) {
            return Some(&members[i]);
        }
        assert(members@.skip(i as int).drop_first() =~= members@.skip(i + 1));
        i += 1;
    }
    None
}

/// The name of a sender without their entry in the member list.
pub open spec fn anonymous(sender: Seq<char>) -> Seq<char> {
    if begins_with(sender, SERVICE_PREFIX@) {
        "Tzibbur"@
    } else {
        "Member "@ + short_id(sender)
    }
}

/// Who sent a message, as shown in Telegram.
pub open spec fn label_of(
    sender: Seq<char>,
    members: Seq<MemberEntity>,
    me: Option<Seq<char>>,
    show_phone: bool,
) -> Seq<char> {
    if me == Some(sender) {
        "You"@
    } else {
        match member_with(members, sender) {
            Some(m) => if trim(m.display_name@).len() > 0 {
                m.display_name@
            } else if show_phone && m.phone_e164 is Some {
                m.phone_e164->0@
            } else {
                anonymous(sender)
            },
            None => anonymous(sender),
        }
    }
}

/// Two lists of the same members, but perhaps with other phone numbers.
pub open spec fn same_but_phones(a: Seq<MemberEntity>, b: Seq<MemberEntity>) -> bool {
    a.len() == b.len() && forall|i: int|
        0 <= i < a.len() ==> (#[trigger] a[i]).user_id@ == b[i].user_id@ && a[i].display_name@
            == b[i].display_name@
}

/// Unless phone numbers are to be shown, no label depends on one.
pub proof fn law_labels_hide_phones(
    sender: Seq<char>,
    a: Seq<MemberEntity>,
    b: Seq<MemberEntity>,
    me: Option<Seq<char>>,
)
    requires
        same_but_phones(a, b),
    ensures
        label_of(sender, a, me, false) == label_of(sender, b, me, false),
    decreases a.len(),
{
    if a.len() > 0 && a[0].user_id@ != sender {
        assert(same_but_phones(a.drop_first(), b.drop_first())) by {
            assert forall|i: int| 0 <= i < a.len() - 1 implies (#[trigger] a.drop_first()[i]).user_id@
                == b.drop_first()[i].user_id@ && a.drop_first()[i].display_name@
                == b.drop_first()[i].display_name@ by {
                assert(a[i + 1].user_id@ == b[i + 1].user_id@);
            }
        }
        law_labels_hide_phones(sender, a.drop_first(), b.drop_first(), me);
    }
}

/// Who sent a message: the user, a member by name or phone, the service, or a shortened id.
pub fn sender_label(
    msg: &MessageEntity,
    members: &Vec<MemberEntity>,
    self_user_id: Option<&str>,
    show_phone: bool,
) -> (r: String)
    ensures
        r@ == label_of(
            msg.sender_id@,
            members@,
            match self_user_id {
                Some(u) => Some(u@),
                None => None,
            },
            show_phone,
        ),
{
    let sender = msg.sender_id.as_str();
    match self_user_id {
        Some(u) => {
            if same(u, sender) {
                return "You".to_owned();
            }
        },
        None => {},
    }
    match find_member(members, sender) {
        Some(m) => {
            if !trimmed(m.display_name.as_str()).as_str().is_empty() {
                return m.display_name.clone();
            }
            if show_phone {
                match &m.phone_e164 {
                    Some(p) => {
                        return p.clone();
                    },
                    None => {},
                }
            }
        },
        None => {},
    }
    if starts_with(sender, SERVICE_PREFIX) {
        "Tzibbur".to_owned()
    } else {
        "Member ".to_owned().concat(shortened(sender).as_str())
    }
}

/// An inbound message in Telegram's notation: the group in a flat chat, the sender, the text.
pub open spec fn rendered(label: Seq<char>, body: Seq<char>, group: Option<Seq<char>>) -> Seq<char> {
    (match group {
        Some(g) => "<i>["@ + escaped(g) + "]</i>\n"@,
        None => Seq::empty(),
    }) + "<b>"@ + escaped(label) + "</b>\n"@ + escaped(body)
}

/// An inbound message in Telegram's notation.
pub fn render_inbound(label: &str, body: &str, group_prefix: Option<&str>) -> (r: String)
    ensures
        r@ == rendered(
            label@,
            body@,
            match group_prefix {
                Some(g) => Some(g@),
                None => None,
            },
        ),
{
    let head = match group_prefix {
        Some(g) => "<i>[".to_owned().concat(escape_html(g).as_str()).concat("]</i>\n"),
        None => String::new(),
    };
    head.concat("<b>").concat(escape_html(label).as_str()).concat("</b>\n").concat(
        escape_html(body).as_str(),
    )
}

/// A text cut into pieces of `max` characters.
pub open spec fn pieces(s: Seq<char>, max: int) -> Seq<Seq<char>>
    decreases s.len(),
{
    if max <= 0 || s.len() <= max {
        seq![s]
    } else {
        seq![s.take(max)] + pieces(s.skip(max), max)
    }
}

/// A text cut to fit messages of `max` characters.
pub open spec fn chunked(s: Seq<char>, max: int) -> Seq<Seq<char>> {
    if s.len() <= max {
        seq![s]
    } else if max == 0 {
        seq![Seq::empty()] + pieces(s, 1)
    } else {
        pieces(s, max)
    }
}

fn cut(v: &Vec<char>, max: usize) -> (r: Vec<String>)
    requires
        max > 0,
    ensures
        texts(r@) == pieces(v@, max as int),
{
    let mut out: Vec<String> = Vec::new();
    let mut at: usize = 0;
    assert(v@.skip(0) =~= v@);
    assert(texts(out@) + pieces(v@.skip(0), max as int) =~= pieces(v@, max as int));
    while v.len() - at > max
        invariant
            at <= v.len(),
            max > 0,
            texts(out@) + pieces(v@.skip(at as int), max as int) == pieces(v@, max as int),
        decreases v.len() - at,
    {
        let piece = string_from(v, at, at + max);
        let ghost before = texts(out@);
        let ghost rest = v@.skip(at as int);
        out.push(piece);
        assert(rest.take(max as int) =~= piece@);
        assert(rest.skip(max as int) =~= v@.skip(at + max));
        assert(texts(out@) =~= before.push(piece@));
        assert(texts(out@) + pieces(v@.skip(at + max), max as int) =~= before + pieces(
            rest,
            max as int,
        ));
        at = at + max;
    }
    let last = string_from(v, at, v.len());
    assert(last@ =~= v@.skip(at as int));
    let ghost before = texts(out@);
    out.push(last);
    assert(texts(out@) =~= before.push(last@));
    assert(texts(out@) =~= before + pieces(v@.skip(at as int), max as int));
    out
}

/// A text cut to fit messages of `max` characters.
pub fn chunk(s: &str, max: usize) -> (r: Vec<String>)
    ensures
        texts(r@) == chunked(s@, max as int),
{
    let v = chars_of(s);
    if v.len() <= max {
        let mut out: Vec<String> = Vec::new();
        out.push(s.to_owned());
        assert(texts(out@) =~= seq![s@]);
        out
    } else if max == 0 {
        let mut rest = cut(&v, 1);
        let ghost r0 = rest@;
        let mut out: Vec<String> = Vec::new();
        out.push(String::new());
        out.append(&mut rest);
        assert(texts(out@) =~= seq![Seq::<char>::empty()] + texts(r0));
        out
    } else {
        cut(&v, max)
    }
}

/// All pieces one after the other.
pub open spec fn rejoined(p: Seq<Seq<char>>) -> Seq<char>
    decreases p.len(),
{
    if p.len() == 0 {
        Seq::empty()
    } else {
        p[0] + rejoined(p.drop_first())
    }
}

/// Cutting loses nothing, and every piece fits.
pub proof fn law_chunks_keep_text(s: Seq<char>, max: int)
    requires
        max > 0,
    ensures
        rejoined(chunked(s, max)) == s,
        forall|i: int| 0 <= i < chunked(s, max).len() ==> (#[trigger] chunked(s, max)[i]).len() <= max,
    decreases s.len(),
{
    let c = chunked(s, max);
    assert(c == pieces(s, max));
    if s.len() <= max {
        assert(c.drop_first() =~= Seq::empty());
        assert(rejoined(c.drop_first()) =~= Seq::empty());
        assert(c[0] == s);
        assert(rejoined(c) =~= s);
    } else {
        let t = s.skip(max);
        law_chunks_keep_text(t, max);
        assert(chunked(t, max) == pieces(t, max));
        assert(c.drop_first() =~= pieces(t, max));
        assert(s.take(max) + t =~= s);
        assert forall|i: int| 0 <= i < c.len() implies (#[trigger] c[i]).len() <= max by {
            if i > 0 {
                assert(c[i] == chunked(t, max)[i - 1]);
            }
        }
    }
}

} // verus!
