//! Messages that users write in a topic.

use crate::bridge::compose::{
    compose, law_parts_fit, law_splitting_keeps_text, line_end, parts_notice, parts_of,
    quote_prefix, split_for_tzibbur, visible, Replied,
};
use crate::bridge::format::rejoined;
use crate::text::{is_white, texts, trim};
use vstd::prelude::*;

verus! {

proof fn lemma_line_end(head: Seq<char>, rest: Seq<char>)
    requires
        !head.contains('\n'),
    ensures
        line_end(head.push('\n') + rest) == head.len(),
        line_end(head) == head.len(),
    decreases head.len(),
{
    let s = head.push('\n') + rest;
    if head.len() == 0 {
        assert(s[0] == '\n');
    } else {
        let h = head.drop_first();
        assert(!h.contains('\n')) by {
            if h.contains('\n') {
                let k = choose|k: int| 0 <= k < h.len() && h[k] == '\n';
                assert(head[k + 1] == '\n');
            }
        }
        lemma_line_end(h, rest);
        assert(s[0] == head[0]);
        assert(head[0] != '\n') by {
            if head[0] == '\n' {
                assert(head.contains('\n'));
            }
        }
        assert(s.drop_first() =~= h.push('\n') + rest);
    }
}

/// The start of a quote with the name of who is quoted.
pub open spec fn quoting(label: Seq<char>) -> Seq<char> {
    "↩ "@ + (if label.len() == 0 {
        Seq::empty()
    } else {
        label + ": "@
    }) + "“"@
}

/// A quote names who is quoted and shows up to eighty characters of what they wrote: the user by
/// that word, everyone else by the first line of the bot's message. What says nothing is not quoted.
pub proof fn law_quote(r: &Replied, head: Seq<char>, rest: Seq<char>, out: String)
    requires
        call_ensures(quote_prefix, (r,), out),
    ensures
        !r.from_bot && trim(r.text@).len() == 0 ==> out@.len() == 0,
        !r.from_bot && 0 < trim(r.text@).len() <= 80 ==> out@ == quoting("You"@) + trim(r.text@)
            + "”\n"@,
        !r.from_bot && trim(r.text@).len() > 80 ==> out@ == quoting("You"@) + trim(r.text@).take(80)
            + "…”\n"@,
        r.from_bot && !head.contains('\n') && r.text@ == head.push('\n') + rest && trim(rest).len()
            == 0 ==> out@.len() == 0,
        r.from_bot && !head.contains('\n') && r.text@ == head.push('\n') + rest && 0 < trim(
            rest,
        ).len() <= 80 ==> out@ == quoting(trim(head)) + trim(rest) + "”\n"@,
        r.from_bot && !head.contains('\n') && r.text@ == head.push('\n') + rest && trim(rest).len()
            > 80 ==> out@ == quoting(trim(head)) + trim(rest).take(80) + "…”\n"@,
{
    reveal_strlit("You");
    assert("You"@.len() == 3);
    if !head.contains('\n') {
        lemma_line_end(head, rest);
        if r.text@ == head.push('\n') + rest {
            assert(r.text@.take(head.len() as int) =~= head);
            assert(r.text@.skip(head.len() as int + 1) =~= rest);
        }
    }
}

/// What is typed is sent without the white space around it, behind the quote of what it replies to,
/// in one message of up to 1000 characters where it fits, else in several that fit; nothing but
/// white space is lost.
pub proof fn law_composed(text: &str, reply: &Option<Replied>, q: String, r: Option<Vec<String>>, i: int)
    requires
        call_ensures(compose, (text, reply), r),
        *reply matches Some(m) ==> call_ensures(quote_prefix, (&m,), q),
        *reply is None ==> q@.len() == 0,
    ensures
        r is None <==> trim(text@).len() == 0,
        r matches Some(parts) ==> {
            &&& (q@ + trim(text@)).len() <= 1000 ==> parts@.len() == 1 && parts@[0]@ == q@ + trim(
                text@,
            )
            &&& 0 <= i < parts@.len() ==> parts@[i]@.len() <= 1000
            &&& visible(rejoined(texts(parts@))) == visible(q@ + trim(text@))
        },
{
    if let Some(parts) = r {
        let whole = q@ + trim(text@);
        if *reply is None {
            assert(q@ =~= Seq::<char>::empty());
        }
        assert(texts(parts@) == parts_of(whole, 1000));
        law_parts_fit(whole, 1000);
        law_splitting_keeps_text(whole, 1000);
        if 0 <= i < parts@.len() {
            assert(texts(parts@)[i] == parts@[i]@);
        }
        if whole.len() <= 1000 {
            assert(texts(parts@).len() == 1);
            assert(texts(parts@)[0] == parts@[0]@);
        }
    }
}

/// What is visible of a text are its characters other than white space, in order.
pub proof fn law_visible(s: Seq<char>, c: char)
    ensures
        visible(Seq::empty()) == Seq::<char>::empty(),
        is_white(c) ==> visible(s.push(c)) == visible(s),
        !is_white(c) ==> visible(s.push(c)) == visible(s).push(c),
{
    reveal(Seq::filter);
    assert(s.push(c).drop_last() =~= s);
}

/// A text is split by the limit that is asked for, and left whole where it fits.
pub proof fn law_split_for(text: &str, max: usize, r: Vec<String>, i: int)
    requires
        call_ensures(split_for_tzibbur, (text, max), r),
        max > 0,
    ensures
        text@.len() <= max ==> r@.len() == 1 && r@[0]@ == text@,
        0 <= i < r@.len() ==> r@[i]@.len() <= max,
        visible(rejoined(texts(r@))) == visible(text@),
{
    law_parts_fit(text@, max as int);
    law_splitting_keeps_text(text@, max as int);
    if 0 <= i < r@.len() {
        assert(texts(r@)[i] == r@[i]@);
    }
    if text@.len() <= max {
        assert(texts(r@).len() == 1);
        assert(texts(r@)[0] == r@[0]@);
    }
}

/// The user is told where a message goes out in several parts, and only then.
pub proof fn law_parts_told(n: usize, r: Option<String>)
    requires
        call_ensures(parts_notice, (n,), r),
    ensures
        r is Some <==> n > 1,
{
}

} // verus!
