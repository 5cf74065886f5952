//! From what the user wrote in a topic to what the group gets: quoting and splitting.

use crate::bridge::format::{chunk, chunked, law_chunks_keep_text, pieces, rejoined};
use crate::bridge::outbound::MAX_OUTBOUND_CHARS;
use crate::models::{code_points, opt_text};
use crate::numbers::{decimal, show_usize};
use crate::text::{
    chars_of, first_chars, is_white, is_white_char, string_from, take_chars, texts, trim, trim_end,
    trim_start, trimmed, trimmed_end,
};
use vstd::prelude::*;

verus! {

/// Characters of a message that a quote shows.
pub const SNIPPET: usize = 80;

/// A message that was replied to.
#[derive(Debug)]
pub struct Replied {
    pub text: String,
    /// The bot sent it, so its first line names the sender.
    pub from_bot: bool,
}

/// Where the first line break stands; the length when there is none.
pub open spec fn line_end(s: Seq<char>) -> int
    decreases s.len(),
{
    if s.len() == 0 || s[0] == '\n' {
        0
    } else {
        1 + line_end(s.drop_first())
    }
}

fn find_line_end(v: &Vec<char>) -> (r: usize)
    ensures
        r == line_end(v@),
        r <= v.len(),
{
    let mut i: usize = 0;
    assert(v@.skip(0) =~= v@);
    while i < v.len() && v[i] != '\n'
        invariant
            i <= v.len(),
            line_end(v@) == i + line_end(v@.skip(i as int)),
        decreases v.len() - i,
    {
        assert(v@.skip(i as int).drop_first() =~= v@.skip(i + 1));
        i += 1;
    }
    i
}

/// Who wrote the message that was replied to.
pub open spec fn quoted_label(text: Seq<char>, from_bot: bool) -> Seq<char> {
    if !from_bot {
        "You"@
    } else if line_end(text) < text.len() {
        trim(text.take(line_end(text)))
    } else {
        Seq::empty()
    }
}

/// What the message that was replied to says.
pub open spec fn quoted_body(text: Seq<char>, from_bot: bool) -> Seq<char> {
    if from_bot && line_end(text) < text.len() {
        trim(text.skip(line_end(text) + 1))
    } else {
        trim(text)
    }
}

/// The line that quotes a message: the service has no replies of its own.
pub open spec fn quote(text: Seq<char>, from_bot: bool) -> Seq<char> {
    let label = quoted_label(text, from_bot);
    let body = quoted_body(text, from_bot);
    if body.len() == 0 {
        Seq::empty()
    } else {
        "↩ "@ + (if label.len() == 0 {
            Seq::empty()
        } else {
            label + ": "@
        }) + "“"@ + first_chars(body, SNIPPET as int) + (if body.len() > SNIPPET {
            "…”\n"@
        } else {
            "”\n"@
        })
    }
}

/// The line that quotes a message.
pub fn quote_prefix(r: &Replied) -> (out: String)
    ensures
        out@ == quote(r.text@, r.from_bot),
{
    let v = chars_of(r.text.as_str());
    let end = find_line_end(&v);
    let label: String;
    let body: String;
    if !r.from_bot {
        label = "You".to_owned();
        body = trimmed(r.text.as_str());
    } else if end < v.len() {
        let head = string_from(&v, 0, end);
        let tail = string_from(&v, end + 1, v.len());
        assert(head@ =~= v@.take(end as int));
        assert(tail@ =~= v@.skip(end + 1));
        label = trimmed(head.as_str());
        body = trimmed(tail.as_str());
    } else {
        label = String::new();
        body = trimmed(r.text.as_str());
    }
    if body.as_str().is_empty() {
        return String::new();
    }
    let who = if label.as_str().is_empty() {
        String::new()
    } else {
        label.concat(": ")
    };
    let n: usize = code_points(body.as_str());
    let end = if n > SNIPPET {
        "…”\n"
    } else {
        "”\n"
    };
    "↩ ".to_owned().concat(who.as_str()).concat("“").concat(
        take_chars(body.as_str(), SNIPPET).as_str(),
    ).concat(end)
}

/// Where the first white space stands; the length when there is none.
pub open spec fn first_white(s: Seq<char>) -> int
    decreases s.len(),
{
    if s.len() == 0 || is_white(s[0]) {
        0
    } else {
        1 + first_white(s.drop_first())
    }
}

/// A text cut behind each white space.
pub open spec fn spaced(s: Seq<char>) -> Seq<Seq<char>>
    decreases s.len(),
{
    let p = first_white(s);
    if s.len() == 0 {
        seq![]
    } else if 0 <= p < s.len() {
        seq![s.take(p + 1)] + spaced(s.skip(p + 1))
    } else {
        seq![s]
    }
}

fn cut_behind_spaces(s: &str) -> (r: Vec<String>)
    ensures
        texts(r@) == spaced(s@),
{
    let v = chars_of(s);
    let mut out: Vec<String> = Vec::new();
    let mut at: usize = 0;
    assert(v@.skip(0) =~= v@);
    assert(texts(out@) + spaced(v@) =~= spaced(v@));
    while at < v.len()
        invariant
            at <= v.len(),
            texts(out@) + spaced(v@.skip(at as int)) == spaced(v@),
        decreases v.len() - at,
    {
        let ghost rest = v@.skip(at as int);
        let ghost before = texts(out@);
        let mut p: usize = at;
        assert(rest.skip(0) =~= rest);
        while p < v.len() && !is_white_char(v[p])
            invariant
                at <= p <= v.len(),
                rest == v@.skip(at as int),
                first_white(rest) == p - at + first_white(rest.skip(p - at)),
            decreases v.len() - p,
        {
            assert(rest.skip(p - at).drop_first() =~= rest.skip(p + 1 - at));
            p += 1;
        }
        let end = if p < v.len() {
            p + 1
        } else {
            p
        };
        let word = string_from(&v, at, end);
        assert(word@ =~= rest.take(end - at));
        out.push(word);
        assert(texts(out@) =~= before.push(word@));
        proof {
            if p < v.len() {
                assert(rest.skip(p + 1 - at) =~= v@.skip(end as int));
            } else {
                assert(rest.take(end - at) =~= rest);
                assert(v@.skip(end as int) =~= Seq::empty());
            }
            assert(texts(out@) + spaced(v@.skip(end as int)) =~= before + spaced(rest));
        }
        at = end;
    }
    assert(v@.skip(at as int) =~= Seq::empty());
    assert(texts(out@) + spaced(v@.skip(at as int)) =~= texts(out@));
    out
}

/// Finished parts, and the part in the making.
pub type Packing = (Seq<Seq<char>>, Seq<char>);

/// One more word: it opens a new part when it does not fit, and is cut when it fits in none.
pub open spec fn packed_word(st: Packing, word: Seq<char>, max: int) -> Packing {
    let full = st.1.len() + word.len() > max && st.1.len() > 0;
    let out = if full {
        st.0.push(trim_end(st.1))
    } else {
        st.0
    };
    let cur = if full {
        Seq::empty()
    } else {
        st.1
    };
    if word.len() > max {
        let cuts = chunked(word, max);
        (out + cuts.drop_last(), cur + cuts.last())
    } else {
        (out, cur + word)
    }
}

/// Words one after the other.
pub open spec fn packed(ws: Seq<Seq<char>>, max: int) -> Packing
    decreases ws.len(),
{
    if ws.len() == 0 {
        (seq![], Seq::empty())
    } else {
        packed_word(packed(ws.drop_last(), max), ws.last(), max)
    }
}

/// A text split into parts of at most `max` characters, at white space where possible.
pub open spec fn parts_of(s: Seq<char>, max: int) -> Seq<Seq<char>> {
    if s.len() <= max {
        seq![s]
    } else {
        let p = packed(spaced(s), max);
        if trim(p.1).len() > 0 {
            p.0.push(trim_end(p.1))
        } else {
            p.0
        }
    }
}

fn split_long(text: &str, max: usize) -> (r: Vec<String>)
    requires
        text@.len() > max,
    ensures
        texts(r@) == parts_of(text@, max as int),
{
    let words = cut_behind_spaces(text);
    let ghost ws = texts(words@);
    let mut out: Vec<String> = Vec::new();
    let mut cur = String::new();
    let mut i: usize = 0;
    assert(ws.take(0) =~= seq![]);
    assert(texts(out@) =~= seq![]);
    assert(cur@ =~= Seq::empty());
    while i < words.len()
        invariant
            i <= words.len(),
            ws == texts(words@),
            (texts(out@), cur@) == packed(ws.take(i as int), max as int),
        decreases words.len() - i,
    {
        assert(ws.take(i + 1).drop_last() =~= ws.take(i as int));
        let word = words[i].as_str();
        assert(ws.take(i + 1).last() == word@);
        let n: usize = code_points(word);
        let have: usize = code_points(cur.as_str());
        let ghost st = (texts(out@), cur@);
        if have > 0 && (have > max || n > max - have) {
            let part = trimmed_end(cur.as_str());
            let ghost before = texts(out@);
            out.push(part);
            assert(texts(out@) =~= before.push(part@));
            cur = String::new();
            assert(cur@ =~= Seq::empty());
        }
        if n > max {
            let mut cuts = chunk(word, max);
            let ghost all = texts(cuts@);
            proof {
                lemma_chunks_nonempty(word@, max as int);
            }
            let ghost cv = cuts@;
            let last = match cuts.pop() {
                Some(l) => l,
                None => String::new(),
            };
            assert(last@ == all.last());
            assert(texts(cuts@) =~= all.drop_last());
            let ghost before = texts(out@);
            let ghost rest = texts(cuts@);
            out.append(&mut cuts);
            assert(texts(out@) =~= before + rest);
            cur = cur.concat(last.as_str());
        } else {
            cur = cur.concat(word);
        }
        assert((texts(out@), cur@) == packed_word(st, word@, max as int));
        i += 1;
    }
    assert(ws.take(i as int) =~= ws);
    if !trimmed(cur.as_str()).as_str().is_empty() {
        let part = trimmed_end(cur.as_str());
        let ghost before = texts(out@);
        out.push(part);
        assert(texts(out@) =~= before.push(part@));
    }
    out
}

proof fn lemma_chunks_nonempty(s: Seq<char>, max: int)
    requires
        max >= 0,
    ensures
        chunked(s, max).len() > 0,
{
    if s.len() > max && max > 0 {
        assert(pieces(s, max).len() > 0);
    }
}

/// A text split into parts of at most `max` characters, at white space where possible.
pub fn split_for_tzibbur(text: &str, max: usize) -> (r: Vec<String>)
    ensures
        texts(r@) == parts_of(text@, max as int),
{
    if code_points(text) <= max {
        let mut out: Vec<String> = Vec::new();
        out.push(text.to_owned());
        assert(texts(out@) =~= seq![text@]);
        out
    } else {
        split_long(text, max)
    }
}

proof fn lemma_trim_end_shorter(s: Seq<char>)
    ensures
        trim_end(s).len() <= s.len(),
    decreases s.len(),
{
    if s.len() > 0 && is_white(s.last()) {
        lemma_trim_end_shorter(s.drop_last());
    }
}

/// All parts fit.
pub open spec fn all_fit(parts: Seq<Seq<char>>, max: int) -> bool {
    forall|i: int| 0 <= i < parts.len() ==> (#[trigger] parts[i]).len() <= max
}

proof fn lemma_packed_fits(ws: Seq<Seq<char>>, max: int)
    requires
        max > 0,
    ensures
        all_fit(packed(ws, max).0, max),
        packed(ws, max).1.len() <= max,
    decreases ws.len(),
{
    if ws.len() > 0 {
        lemma_packed_fits(ws.drop_last(), max);
        let st = packed(ws.drop_last(), max);
        let word = ws.last();
        lemma_trim_end_shorter(st.1);
        if word.len() > max {
            law_chunks_keep_text(word, max);
            lemma_chunks_nonempty(word, max);
            let cuts = chunked(word, max);
            assert(cuts[cuts.len() - 1].len() <= max);
            let after = packed(ws, max).0;
            assert forall|i: int| 0 <= i < after.len() implies (#[trigger] after[i]).len() <= max by {
                let full = st.1.len() > 0;
                let out = if full {
                    st.0.push(trim_end(st.1))
                } else {
                    st.0
                };
                if i < out.len() {
                    assert(after[i] == out[i]);
                } else {
                    assert(after[i] == cuts[i - out.len()]);
                }
            }
        }
    }
}

/// Every part of a split message fits.
pub proof fn law_parts_fit(s: Seq<char>, max: int)
    requires
        max > 0,
    ensures
        all_fit(parts_of(s, max), max),
{
    if s.len() > max {
        lemma_packed_fits(spaced(s), max);
        lemma_trim_end_shorter(packed(spaced(s), max).1);
    }
}

/// A text without its white space.
pub open spec fn visible(s: Seq<char>) -> Seq<char> {
    s.filter(|c: char| !is_white(c))
}

proof fn lemma_visible_add(a: Seq<char>, b: Seq<char>)
    ensures
        visible(a + b) == visible(a) + visible(b),
{
    Seq::filter_distributes_over_add(a, b, |c: char| !is_white(c));
}

proof fn lemma_visible_trim_end(s: Seq<char>)
    ensures
        visible(trim_end(s)) == visible(s),
    decreases s.len(),
{
    if s.len() > 0 && is_white(s.last()) {
        lemma_visible_trim_end(s.drop_last());
        reveal(Seq::filter);
        assert(visible(s) =~= visible(s.drop_last()));
    }
}

proof fn lemma_visible_trim_start(s: Seq<char>)
    ensures
        visible(trim_start(s)) == visible(s),
    decreases s.len(),
{
    if s.len() > 0 && is_white(s[0]) {
        lemma_visible_trim_start(s.drop_first());
        assert(seq![s[0]] + s.drop_first() =~= s);
        lemma_visible_add(seq![s[0]], s.drop_first());
        assert(visible(seq![s[0]]) =~= Seq::empty()) by {
            reveal(Seq::filter);
            assert(seq![s[0]].drop_last() =~= Seq::empty());
            assert(Seq::<char>::empty().filter(|c: char| !is_white(c)) =~= Seq::empty());
        }
        assert(visible(s) =~= visible(s.drop_first()));
    }
}

proof fn lemma_visible_trim(s: Seq<char>)
    ensures
        visible(trim(s)) == visible(s),
{
    lemma_visible_trim_start(s);
    lemma_visible_trim_end(trim_start(s));
}

proof fn lemma_rejoined_add(a: Seq<Seq<char>>, b: Seq<Seq<char>>)
    ensures
        rejoined(a + b) == rejoined(a) + rejoined(b),
    decreases a.len(),
{
    if a.len() == 0 {
        assert(a + b =~= b);
        assert(rejoined(a) + rejoined(b) =~= rejoined(b));
    } else {
        lemma_rejoined_add(a.drop_first(), b);
        assert((a + b).drop_first() =~= a.drop_first() + b);
        assert(rejoined(a + b) =~= rejoined(a) + rejoined(b));
    }
}

proof fn lemma_rejoined_push(a: Seq<Seq<char>>, x: Seq<char>)
    ensures
        rejoined(a.push(x)) == rejoined(a) + x,
{
    assert(a.push(x) =~= a + seq![x]);
    lemma_rejoined_add(a, seq![x]);
    assert(seq![x].drop_first() =~= Seq::empty());
    assert(rejoined(seq![x]) =~= x + rejoined(Seq::empty()));
    assert(rejoined(seq![x]) =~= x);
}

proof fn lemma_spaced_keeps_text(s: Seq<char>)
    ensures
        rejoined(spaced(s)) == s,
    decreases s.len(),
{
    let p = first_white(s);
    if s.len() == 0 {
        assert(s =~= Seq::empty());
    } else if 0 <= p < s.len() {
        lemma_spaced_keeps_text(s.skip(p + 1));
        let all = spaced(s);
        assert(all.drop_first() =~= spaced(s.skip(p + 1)));
        assert(s.take(p + 1) + s.skip(p + 1) =~= s);
        assert(all[0] == s.take(p + 1));
    } else {
        let none: Seq<Seq<char>> = seq![];
        lemma_rejoined_push(none, s);
        assert(none.push(s) =~= spaced(s));
        assert(rejoined(none) + s =~= s);
    }
}

/// The visible characters of a packing.
pub open spec fn shown(st: Packing) -> Seq<char> {
    visible(rejoined(st.0) + st.1)
}

proof fn lemma_packed_word_keeps(st: Packing, word: Seq<char>, max: int)
    requires
        max > 0,
    ensures
        shown(packed_word(st, word, max)) == shown(st) + visible(word),
{
    let full = st.1.len() + word.len() > max && st.1.len() > 0;
    let out = if full {
        st.0.push(trim_end(st.1))
    } else {
        st.0
    };
    let cur = if full {
        Seq::empty()
    } else {
        st.1
    };
    assert(visible(rejoined(out) + cur) == shown(st)) by {
        if full {
            lemma_rejoined_push(st.0, trim_end(st.1));
            assert(rejoined(out) + cur =~= rejoined(st.0) + trim_end(st.1));
            lemma_visible_add(rejoined(st.0), trim_end(st.1));
            lemma_visible_add(rejoined(st.0), st.1);
            lemma_visible_trim_end(st.1);
        }
    }
    lemma_visible_add(rejoined(out) + cur, word);
    if word.len() > max {
        let cuts = chunked(word, max);
        law_chunks_keep_text(word, max);
        lemma_chunks_nonempty(word, max);
        assert(cur =~= Seq::<char>::empty());
        lemma_rejoined_add(out, cuts.drop_last());
        lemma_rejoined_push(cuts.drop_last(), cuts.last());
        assert(cuts.drop_last().push(cuts.last()) =~= cuts);
        let r = packed_word(st, word, max);
        assert(rejoined(r.0) + r.1 =~= (rejoined(out) + cur) + word);
    } else {
        let r = packed_word(st, word, max);
        assert(rejoined(r.0) + r.1 =~= (rejoined(out) + cur) + word);
    }
}

proof fn lemma_packed_keeps(ws: Seq<Seq<char>>, max: int)
    requires
        max > 0,
    ensures
        shown(packed(ws, max)) == visible(rejoined(ws)),
    decreases ws.len(),
{
    if ws.len() == 0 {
        assert(rejoined(packed(ws, max).0) + packed(ws, max).1 =~= rejoined(ws));
    } else {
        lemma_packed_keeps(ws.drop_last(), max);
        lemma_packed_word_keeps(packed(ws.drop_last(), max), ws.last(), max);
        lemma_rejoined_push(ws.drop_last(), ws.last());
        assert(ws.drop_last().push(ws.last()) =~= ws);
        lemma_visible_add(rejoined(ws.drop_last()), ws.last());
    }
}

/// Splitting loses nothing but white space: the parts together show every other character of the
/// text, in order.
pub proof fn law_splitting_keeps_text(s: Seq<char>, max: int)
    requires
        max > 0,
    ensures
        visible(rejoined(parts_of(s, max))) == visible(s),
{
    if s.len() <= max {
        let none: Seq<Seq<char>> = seq![];
        lemma_rejoined_push(none, s);
        assert(none.push(s) =~= parts_of(s, max));
        assert(rejoined(none) + s =~= s);
    } else {
        let p = packed(spaced(s), max);
        lemma_packed_keeps(spaced(s), max);
        lemma_spaced_keeps_text(s);
        lemma_visible_add(rejoined(p.0), p.1);
        lemma_visible_trim(p.1);
        if trim(p.1).len() > 0 {
            lemma_rejoined_push(p.0, trim_end(p.1));
            lemma_visible_trim_end(p.1);
            lemma_visible_add(rejoined(p.0), trim_end(p.1));
        } else {
            assert(trim(p.1) =~= Seq::empty());
            assert(visible(trim(p.1)) =~= Seq::empty()) by {
                reveal(Seq::filter);
            }
            assert(visible(rejoined(p.0)) + visible(p.1) =~= visible(rejoined(p.0)));
        }
    }
}

/// The words of a text: its runs of visible characters, with `cur` the run before it.
pub open spec fn words_after(cur: Seq<char>, s: Seq<char>) -> Seq<Seq<char>>
    decreases s.len(),
{
    if s.len() == 0 {
        ended(cur)
    } else if is_white(s[0]) {
        ended(cur) + words_after(Seq::empty(), s.drop_first())
    } else {
        words_after(cur.push(s[0]), s.drop_first())
    }
}

/// A run of visible characters is a word, unless it is empty.
pub open spec fn ended(cur: Seq<char>) -> Seq<Seq<char>> {
    if cur.len() == 0 {
        seq![]
    } else {
        seq![cur]
    }
}

/// The words of a text.
pub open spec fn words(s: Seq<char>) -> Seq<Seq<char>> {
    words_after(Seq::empty(), s)
}

/// The words of several texts.
pub open spec fn all_words(parts: Seq<Seq<char>>) -> Seq<Seq<char>>
    decreases parts.len(),
{
    if parts.len() == 0 {
        seq![]
    } else {
        all_words(parts.drop_last()) + words(parts.last())
    }
}

/// A text ends in white space, or is empty.
pub open spec fn closed_off(s: Seq<char>) -> bool {
    s.len() == 0 || is_white(s.last())
}

proof fn lemma_words_after_add(cur: Seq<char>, a: Seq<char>, b: Seq<char>)
    requires
        a.len() > 0,
        is_white(a.last()),
    ensures
        words_after(cur, a + b) == words_after(cur, a) + words(b),
    decreases a.len(),
{
    let t = a.drop_first();
    assert((a + b).drop_first() =~= t + b);
    let next = if is_white(a[0]) {
        Seq::empty()
    } else {
        cur.push(a[0])
    };
    if t.len() > 0 {
        lemma_words_after_add(next, t, b);
    } else {
        assert(t + b =~= b);
        assert(words_after(Seq::empty(), t) =~= seq![]);
    }
    assert(words_after(cur, a + b) =~= words_after(cur, a) + words(b));
}

proof fn lemma_words_add(a: Seq<char>, b: Seq<char>)
    requires
        closed_off(a),
    ensures
        words(a + b) == words(a) + words(b),
{
    if a.len() == 0 {
        assert(a + b =~= b);
        assert(words(a) + words(b) =~= words(b));
    } else {
        lemma_words_after_add(Seq::empty(), a, b);
    }
}

proof fn lemma_words_after_white(cur: Seq<char>, s: Seq<char>, c: char)
    requires
        is_white(c),
    ensures
        words_after(cur, s.push(c)) == words_after(cur, s),
    decreases s.len(),
{
    let t = s.push(c).drop_first();
    if s.len() == 0 {
        assert(t =~= Seq::empty());
        assert(words_after(Seq::empty(), t) =~= seq![]);
        assert(words_after(cur, s.push(c)) =~= ended(cur));
    } else {
        assert(t =~= s.drop_first().push(c));
        let next = if is_white(s[0]) {
            Seq::empty()
        } else {
            cur.push(s[0])
        };
        lemma_words_after_white(next, s.drop_first(), c);
    }
}

proof fn lemma_words_trim_end(s: Seq<char>)
    ensures
        words(trim_end(s)) == words(s),
    decreases s.len(),
{
    if s.len() > 0 && is_white(s.last()) {
        lemma_words_trim_end(s.drop_last());
        lemma_words_after_white(Seq::empty(), s.drop_last(), s.last());
        assert(s.drop_last().push(s.last()) =~= s);
    }
}

proof fn lemma_all_words_push(parts: Seq<Seq<char>>, x: Seq<char>)
    ensures
        all_words(parts.push(x)) == all_words(parts) + words(x),
{
    assert(parts.push(x).drop_last() =~= parts);
}

/// Each piece but the last ends in white space.
proof fn lemma_spaced_closed(s: Seq<char>)
    ensures
        forall|i: int| 0 <= i < spaced(s).len() - 1 ==> closed_off(#[trigger] spaced(s)[i]),
    decreases s.len(),
{
    let p = first_white(s);
    if s.len() > 0 && 0 <= p < s.len() {
        let rest = spaced(s.skip(p + 1));
        lemma_spaced_closed(s.skip(p + 1));
        lemma_first_white(s);
        assert forall|i: int| 0 <= i < spaced(s).len() - 1 implies closed_off(
            #[trigger] spaced(s)[i],
        ) by {
            if i == 0 {
                assert(s.take(p + 1).last() == s[p]);
            } else {
                assert(spaced(s)[i] == rest[i - 1]);
            }
        }
    }
}

proof fn lemma_first_white(s: Seq<char>)
    ensures
        0 <= first_white(s) <= s.len(),
        first_white(s) < s.len() ==> is_white(s[first_white(s)]),
    decreases s.len(),
{
    if s.len() > 0 && !is_white(s[0]) {
        lemma_first_white(s.drop_first());
    }
}

/// Only the last character may be white space.
pub open spec fn one_word(w: Seq<char>) -> bool {
    forall|i: int| 0 <= i < w.len() - 1 ==> !is_white(#[trigger] w[i])
}

/// A piece without the white space behind it.
pub open spec fn stem(w: Seq<char>) -> Seq<char> {
    if w.len() > 0 && is_white(w.last()) {
        w.drop_last()
    } else {
        w
    }
}

proof fn lemma_words_of_one(cur: Seq<char>, w: Seq<char>)
    requires
        one_word(w),
    ensures
        words_after(cur, w) == ended(cur + stem(w)),
    decreases w.len(),
{
    if w.len() == 0 {
        assert(cur + stem(w) =~= cur);
    } else {
        let t = w.drop_first();
        assert forall|i: int| 0 <= i < t.len() - 1 implies !is_white(#[trigger] t[i]) by {
            assert(t[i] == w[i + 1]);
        }
        if is_white(w[0]) {
            assert(w.len() == 1);
            assert(t =~= Seq::empty());
            assert(words_after(Seq::empty(), t) =~= seq![]);
            assert(cur + stem(w) =~= cur);
            assert(words_after(cur, w) =~= ended(cur));
        } else {
            lemma_words_of_one(cur.push(w[0]), t);
            assert(cur.push(w[0]) + stem(t) =~= cur + stem(w));
        }
    }
}

proof fn lemma_spaced_single(s: Seq<char>)
    ensures
        forall|i: int| 0 <= i < spaced(s).len() ==> one_word(#[trigger] spaced(s)[i]),
    decreases s.len(),
{
    let p = first_white(s);
    lemma_before_white(s);
    lemma_first_white(s);
    if s.len() > 0 && p < s.len() {
        let rest = spaced(s.skip(p + 1));
        lemma_spaced_single(s.skip(p + 1));
        assert forall|i: int| 0 <= i < spaced(s).len() implies one_word(#[trigger] spaced(s)[i]) by {
            if i == 0 {
                assert(spaced(s)[0] == s.take(p + 1));
            } else {
                assert(spaced(s)[i] == rest[i - 1]);
            }
        }
    }
}

proof fn lemma_before_white(s: Seq<char>)
    ensures
        forall|i: int| 0 <= i < first_white(s) && i < s.len() ==> !is_white(#[trigger] s[i]),
    decreases s.len(),
{
    if s.len() > 0 && !is_white(s[0]) {
        lemma_before_white(s.drop_first());
        assert forall|i: int| 0 <= i < first_white(s) && i < s.len() implies !is_white(
            #[trigger] s[i],
        ) by {
            if i > 0 {
                assert(s[i] == s.drop_first()[i - 1]);
            }
        }
    }
}

proof fn lemma_words_rejoined(ws: Seq<Seq<char>>)
    requires
        forall|i: int| 0 <= i < ws.len() - 1 ==> closed_off(#[trigger] ws[i]),
    ensures
        words(rejoined(ws)) == all_words(ws),
        ws.len() == 0 || closed_off(ws.last()) ==> closed_off(rejoined(ws)),
    decreases ws.len(),
{
    if ws.len() == 0 {
        assert(words(rejoined(ws)) =~= all_words(ws));
    } else {
        let init = ws.drop_last();
        assert(init.len() == 0 || closed_off(init.last())) by {
            if init.len() > 0 {
                assert(init.last() == ws[ws.len() - 2]);
            }
        }
        lemma_words_rejoined(init);
        assert(init.push(ws.last()) =~= ws);
        lemma_rejoined_push(init, ws.last());
        lemma_words_add(rejoined(init), ws.last());
    }
}

proof fn lemma_all_words_has(ws: Seq<Seq<char>>, i: int, w: Seq<char>)
    requires
        0 <= i < ws.len(),
        words(ws[i]).contains(w),
    ensures
        all_words(ws).contains(w),
    decreases ws.len(),
{
    let head = all_words(ws.drop_last());
    let tail = words(ws.last());
    if i < ws.len() - 1 {
        lemma_all_words_has(ws.drop_last(), i, w);
        let k = choose|k: int| 0 <= k < head.len() && head[k] == w;
        assert((head + tail)[k] == w);
    } else {
        let k = choose|k: int| 0 <= k < tail.len() && tail[k] == w;
        assert((head + tail)[head.len() + k] == w);
    }
}

proof fn lemma_cut_behind_word(word: Seq<char>, max: int)
    requires
        max > 0,
        one_word(word),
        stem(word).len() <= max,
        word.len() > max,
    ensures
        chunked(word, max) == seq![stem(word), seq![word.last()]],
        is_white(word.last()),
{
    assert(word.len() == max + 1);
    let rest = word.skip(max);
    reveal_with_fuel(pieces, 3);
    assert(word.take(max) =~= stem(word));
    assert(rest =~= seq![word.last()]);
    assert(chunked(word, max) =~= seq![stem(word), seq![word.last()]]);
}

proof fn lemma_packed_words(ws: Seq<Seq<char>>, max: int)
    requires
        max > 0,
        forall|i: int| 0 <= i < ws.len() ==> one_word(#[trigger] ws[i]) && stem(ws[i]).len() <= max,
        forall|i: int| 0 <= i < ws.len() - 1 ==> closed_off(#[trigger] ws[i]),
    ensures
        all_words(packed(ws, max).0) + words(packed(ws, max).1) == words(rejoined(ws)),
        ws.len() == 0 || closed_off(ws.last()) ==> closed_off(packed(ws, max).1) && closed_off(
            rejoined(ws),
        ),
    decreases ws.len(),
{
    if ws.len() > 0 {
        let init = ws.drop_last();
        let word = ws.last();
        let st = packed(init, max);
        assert(init.len() == 0 || closed_off(init.last())) by {
            if init.len() > 0 {
                assert(init.last() == ws[ws.len() - 2]);
            }
        }
        assert forall|i: int| 0 <= i < init.len() implies one_word(#[trigger] init[i]) && stem(
            init[i],
        ).len() <= max by {
            assert(init[i] == ws[i]);
        }
        lemma_packed_words(init, max);
        assert(init.push(word) =~= ws);
        lemma_rejoined_push(init, word);
        lemma_words_add(rejoined(init), word);
        let now = packed(ws, max);
        assert(word == ws[ws.len() - 1]);
        let full = st.1.len() + word.len() > max && st.1.len() > 0;
        let out = if full {
            st.0.push(trim_end(st.1))
        } else {
            st.0
        };
        if full {
            lemma_all_words_push(st.0, trim_end(st.1));
            lemma_words_trim_end(st.1);
        }
        if word.len() > max {
            lemma_cut_behind_word(word, max);
            lemma_words_of_one(Seq::empty(), word);
            assert(Seq::empty() + stem(word) =~= stem(word));
            lemma_words_of_one(Seq::empty(), stem(word));
            assert(stem(stem(word)) =~= stem(word)) by {
                assert(stem(word).last() == word[word.len() - 2]);
            }
            let blank = seq![word.last()];
            lemma_words_of_one(Seq::empty(), blank);
            assert(Seq::empty() + stem(blank) =~= Seq::<char>::empty());
            let cuts = chunked(word, max);
            assert(cuts.drop_last() =~= seq![stem(word)]);
            assert(now.0 =~= out.push(stem(word)));
            assert(now.1 =~= blank);
            lemma_all_words_push(out, stem(word));
            if !full {
                assert(words(st.1) =~= seq![]);
            }
            assert(all_words(now.0) + words(now.1) =~= words(rejoined(ws)));
        } else if full {
            assert(now.1 =~= word);
            assert(all_words(now.0) + words(now.1) =~= words(rejoined(ws)));
        } else {
            lemma_words_add(st.1, word);
            assert(all_words(now.0) + words(now.1) =~= words(rejoined(ws)));
        }
    } else {
        assert(all_words(packed(ws, max).0) + words(packed(ws, max).1) =~= words(rejoined(ws)));
    }
}

/// A word is cut only where it fits in no part: when every word fits, the parts hold the words of
/// the text, whole and in order.
pub proof fn law_splitting_keeps_words(s: Seq<char>, max: int)
    requires
        max > 0,
        forall|i: int| 0 <= i < words(s).len() ==> (#[trigger] words(s)[i]).len() <= max,
    ensures
        all_words(parts_of(s, max)) == words(s),
{
    let none: Seq<Seq<char>> = seq![];
    if s.len() <= max {
        lemma_all_words_push(none, s);
        assert(none.push(s) =~= parts_of(s, max));
        assert(all_words(none) + words(s) =~= words(s));
    } else {
        let ws = spaced(s);
        let p = packed(ws, max);
        lemma_spaced_closed(s);
        lemma_spaced_single(s);
        lemma_spaced_keeps_text(s);
        lemma_words_rejoined(ws);
        assert forall|i: int| 0 <= i < ws.len() implies one_word(#[trigger] ws[i]) && stem(
            ws[i],
        ).len() <= max by {
            let c = stem(ws[i]);
            if c.len() > 0 {
                lemma_words_of_one(Seq::empty(), ws[i]);
                assert(Seq::empty() + c =~= c);
                assert(words(ws[i])[0] == c);
                lemma_all_words_has(ws, i, c);
                let k = choose|k: int| 0 <= k < words(s).len() && words(s)[k] == c;
                assert(words(s)[k].len() <= max);
            }
        }
        lemma_packed_words(ws, max);
        if trim(p.1).len() > 0 {
            lemma_all_words_push(p.0, trim_end(p.1));
            lemma_words_trim_end(p.1);
        } else {
            lemma_blank_has_no_words(p.1);
            assert(all_words(p.0) + words(p.1) =~= all_words(p.0));
        }
    }
}

proof fn lemma_blank_has_no_words(s: Seq<char>)
    requires
        trim(s).len() == 0,
    ensures
        words(s) == Seq::<Seq<char>>::empty(),
    decreases s.len(),
{
    if s.len() > 0 {
        if is_white(s[0]) {
            lemma_blank_has_no_words(s.drop_first());
            assert(words(s) =~= words(s.drop_first()));
        } else {
            lemma_visible_start(s);
        }
    }
}

proof fn lemma_visible_start(s: Seq<char>)
    requires
        s.len() > 0,
        !is_white(s[0]),
    ensures
        trim_end(s).len() > 0,
    decreases s.len(),
{
    if is_white(s.last()) {
        lemma_visible_start(s.drop_last());
    }
}

/// The parts of a message typed in a topic: the trimmed text after the quote of what it replies to.
pub open spec fn composed(text: Seq<char>, reply: Option<(Seq<char>, bool)>) -> Seq<Seq<char>> {
    parts_of(
        (match reply {
            Some(r) => quote(r.0, r.1),
            None => Seq::empty(),
        }) + trim(text),
        MAX_OUTBOUND_CHARS as int,
    )
}

/// The parts of a message typed in a topic; none when nothing was typed.
pub fn compose(text: &str, reply: &Option<Replied>) -> (r: Option<Vec<String>>)
    ensures
        match r {
            None => trim(text@).len() == 0,
            Some(v) => trim(text@).len() > 0 && texts(v@) == composed(
                text@,
                match *reply {
                    Some(q) => Some((q.text@, q.from_bot)),
                    None => None,
                },
            ),
        },
{
    let body = trimmed(text);
    if body.as_str().is_empty() {
        return None;
    }
    let whole = match reply {
        Some(q) => quote_prefix(q).concat(body.as_str()),
        None => {
            assert(Seq::<char>::empty() + body@ =~= body@);
            body
        },
    };
    Some(split_for_tzibbur(whole.as_str(), MAX_OUTBOUND_CHARS))
}

/// The notice before a message goes out in several parts.
pub fn parts_notice(n: usize) -> (r: Option<String>)
    ensures
        opt_text(r) == (if n > 1 {
            Some("ℹ️ Long message — sending it as "@ + decimal(n as nat) + " parts."@)
        } else {
            None
        }),
{
    if n > 1 {
        Some(
            "ℹ️ Long message — sending it as ".to_owned().concat(show_usize(n).as_str()).concat(
                " parts.",
            ),
        )
    } else {
        None
    }
}

} // verus!
