//! Texts: trimming, searching, case, cutting and escaping.

use crate::bridge::format::escaped;
use crate::text::{
    ascii_lower, ascii_upper, begins_with, contains_text, first_chars, is_white, join, occurs_at,
    split, trim, trim_end, trim_start,
};
use vstd::prelude::*;

verus! {

/// White space through and through.
pub open spec fn blank(s: Seq<char>) -> bool {
    forall|i: int| 0 <= i < s.len() ==> is_white(#[trigger] s[i])
}

/// A space, a tab and a line break are white space; letters, digits and what else is printed in ASCII
/// are not.
pub proof fn law_white_space(c: char)
    ensures
        c == ' ' || c == '\t' || c == '\n' || c == '\r' ==> is_white(c),
        '!' <= c <= '~' ==> !is_white(c),
{
}

proof fn lemma_trim_start_splits(s: Seq<char>) -> (n: int)
    ensures
        0 <= n <= s.len(),
        s.skip(n) == trim_start(s),
        blank(s.take(n)),
        n < s.len() ==> !is_white(s[n]),
    decreases s.len(),
{
    if s.len() > 0 && is_white(s[0]) {
        let n = lemma_trim_start_splits(s.drop_first());
        assert(s.skip(n + 1) =~= s.drop_first().skip(n));
        assert forall|i: int| 0 <= i < n + 1 implies is_white(#[trigger] s.take(n + 1)[i]) by {
            if i > 0 {
                assert(s.drop_first().take(n)[i - 1] == s[i]);
            }
        }
        n + 1
    } else {
        assert(s.skip(0) =~= s);
        0
    }
}

proof fn lemma_trim_end_splits(s: Seq<char>) -> (n: int)
    ensures
        0 <= n <= s.len(),
        s.take(n) == trim_end(s),
        blank(s.skip(n)),
        n > 0 ==> !is_white(s[n - 1]),
    decreases s.len(),
{
    if s.len() > 0 && is_white(s.last()) {
        let n = lemma_trim_end_splits(s.drop_last());
        assert(s.take(n) =~= s.drop_last().take(n));
        assert forall|i: int| 0 <= i < s.skip(n).len() implies is_white(#[trigger] s.skip(n)[i]) by {
            if n + i < s.len() - 1 {
                assert(s.drop_last().skip(n)[i] == s.skip(n)[i]);
            }
        }
        n
    } else {
        assert(s.take(s.len() as int) =~= s);
        s.len() as int
    }
}

/// Trimming takes white space away at both ends, all of it, and nothing else.
pub proof fn law_trim(s: Seq<char>)
    ensures
        exists|a: int, b: int|
            0 <= a <= b <= s.len() && #[trigger] s.subrange(a, b) == trim(s) && blank(s.take(a))
                && blank(s.skip(b)),
        trim(s).len() > 0 ==> !is_white(trim(s)[0]) && !is_white(trim(s).last()),
        trim(s).len() == 0 <==> blank(s),
{
    let n = lemma_trim_start_splits(s);
    let t = trim_start(s);
    let m = lemma_trim_end_splits(t);
    assert(s.subrange(n, n + m) =~= trim(s));
    assert forall|i: int| 0 <= i < s.skip(n + m).len() implies is_white(
        #[trigger] s.skip(n + m)[i],
    ) by {
        assert(t.skip(m)[i] == s.skip(n + m)[i]);
    }
    if trim(s).len() > 0 {
        assert(t[0] == s[n]);
    }
    if trim(s).len() == 0 {
        assert forall|i: int| 0 <= i < s.len() implies is_white(#[trigger] s[i]) by {
            if i < n {
                assert(s.take(n)[i] == s[i]);
            } else {
                assert(s.skip(n + m)[i - n - m] == s[i]);
            }
        }
    }
    if blank(s) && trim(s).len() > 0 {
        assert(is_white(s[n]));
    }
}

/// A text without white space at its ends is left alone by trimming, also when white space is put
/// around it.
pub proof fn law_trim_undoes_padding(a: Seq<char>, s: Seq<char>, b: Seq<char>)
    requires
        blank(a),
        blank(b),
        s.len() > 0,
        !is_white(s[0]),
        !is_white(s.last()),
    ensures
        trim(a + s + b) == s,
    decreases a.len() + b.len(),
{
    let all = a + s + b;
    if a.len() > 0 {
        assert(is_white(a[0]));
        assert(all.drop_first() =~= a.drop_first() + s + b);
        assert forall|i: int| 0 <= i < a.drop_first().len() implies is_white(
            #[trigger] a.drop_first()[i],
        ) by {
            assert(is_white(a[i + 1]));
        }
        law_trim_undoes_padding(a.drop_first(), s, b);
    } else {
        assert(all =~= s + b);
        lemma_trim_end_padding(s, b);
    }
}

proof fn lemma_trim_end_padding(s: Seq<char>, b: Seq<char>)
    requires
        blank(b),
        s.len() > 0,
        !is_white(s.last()),
    ensures
        trim_end(s + b) == s,
    decreases b.len(),
{
    if b.len() > 0 {
        assert(is_white(b[b.len() - 1]));
        assert((s + b).drop_last() =~= s + b.drop_last());
        assert forall|i: int| 0 <= i < b.drop_last().len() implies is_white(
            #[trigger] b.drop_last()[i],
        ) by {
            assert(is_white(b[i]));
        }
        lemma_trim_end_padding(s, b.drop_last());
    } else {
        assert(s + b =~= s);
    }
}

/// A text is contained in every text that is built around it.
pub proof fn law_contains(a: Seq<char>, p: Seq<char>, b: Seq<char>)
    ensures
        contains_text(a + p + b, p),
        begins_with(p + b, p),
{
    let s = a + p + b;
    assert(s.subrange(a.len() as int, (a.len() + p.len()) as int) =~= p);
    assert(occurs_at(s, p, a.len() as int));
    assert((p + b).subrange(0, p.len() as int) =~= p);
}

/// Where a text is contained, something stands before it and something behind it, and no more.
pub proof fn law_contained(s: Seq<char>, p: Seq<char>)
    requires
        contains_text(s, p),
    ensures
        exists|a: Seq<char>, b: Seq<char>| s == #[trigger] ((a + p) + b),
{
    let i = choose|i: int| occurs_at(s, p, i);
    let a = s.take(i);
    let b = s.skip(i + p.len());
    assert(s =~= (a + p) + b);
}

/// A text begins with another just where the other is its first part.
pub proof fn law_begins(s: Seq<char>, p: Seq<char>)
    requires
        begins_with(s, p),
    ensures
        p.len() <= s.len(),
        s == p + s.skip(p.len() as int),
{
    assert(s =~= p + s.skip(p.len() as int));
}

/// Lower case and upper case meet: two letters that differ in case alone are one in either.
pub proof fn law_ascii_case(s: Seq<char>)
    ensures
        ascii_lower(s).len() == s.len(),
        ascii_upper(s).len() == s.len(),
        ascii_lower(ascii_upper(s)) == ascii_lower(s),
        ascii_upper(ascii_lower(s)) == ascii_upper(s),
        forall|i: int|
            0 <= i < s.len() ==> !('A' <= (#[trigger] ascii_lower(s)[i]) <= 'Z') && (!('A' <= s[i]
                <= 'Z') ==> ascii_lower(s)[i] == s[i]),
        forall|i: int|
            0 <= i < s.len() ==> !('a' <= (#[trigger] ascii_upper(s)[i]) <= 'z') && (!('a' <= s[i]
                <= 'z') ==> ascii_upper(s)[i] == s[i]),
{
    assert(ascii_lower(ascii_upper(s)) =~= ascii_lower(s));
    assert(ascii_upper(ascii_lower(s)) =~= ascii_upper(s));
}

/// The first characters of a text are a part of it, and as many as were asked for where it has them.
pub proof fn law_first_chars(s: Seq<char>, n: int)
    requires
        n >= 0,
    ensures
        first_chars(s, n).len() <= n,
        s.len() <= n ==> first_chars(s, n) == s,
        s.len() > n ==> first_chars(s, n).len() == n,
        begins_with(s, first_chars(s, n)),
{
    let f = first_chars(s, n);
    assert(s.subrange(0, f.len() as int) =~= f);
}

/// Splitting cuts at every separator: no piece holds one, and there is one piece more than there
/// are separators. Pieces joined again by the separator are the text.
pub proof fn law_split(s: Seq<char>, seps: Seq<char>, sep: char)
    ensures
        split(s, seps).len() >= 1,
        forall|i: int, k: int|
            0 <= i < split(s, seps).len() && 0 <= k < split(s, seps)[i].len() ==> !seps.contains(
                #[trigger] split(s, seps)[i][k],
            ),
        seps == seq![sep] ==> join(split(s, seps), seps) == s,
    decreases s.len(),
{
    if s.len() > 0 {
        let t = s.drop_last();
        law_split(t, seps, sep);
        let before = split(t, seps);
        let all = split(s, seps);
        assert forall|i: int, k: int|
            0 <= i < all.len() && 0 <= k < all[i].len() implies !seps.contains(
            #[trigger] all[i][k],
        ) by {
            if seps.contains(s.last()) {
                if i < before.len() {
                    assert(all[i] == before[i]);
                    assert(!seps.contains(before[i][k]));
                }
            } else if i < before.len() - 1 {
                assert(all[i] == before[i]);
                assert(!seps.contains(before[i][k]));
            } else if k < before.last().len() {
                assert(!seps.contains(before[before.len() - 1][k]));
            }
        }
        if seps == seq![sep] {
            if seps.contains(s.last()) {
                assert(s.last() == sep);
                assert(all.drop_last() =~= before);
                assert(join(all, seps) =~= join(before, seps) + seps + Seq::<char>::empty());
                assert(s =~= t.push(sep));
                assert(join(all, seps) =~= s);
            } else {
                let last = before.last().push(s.last());
                assert(all.drop_last() =~= before.drop_last());
                if before.len() == 1 {
                    assert(join(all, seps) =~= last);
                    assert(join(before, seps) =~= before[0]);
                } else {
                    assert(join(all, seps) =~= join(before.drop_last(), seps) + seps + last);
                    assert(join(before, seps) =~= join(before.drop_last(), seps) + seps
                        + before.last());
                }
                assert(join(all, seps) =~= join(before, seps).push(s.last()));
                assert(s =~= t.push(s.last()));
            }
        }
    } else {
        assert(split(s, seps) =~= seq![Seq::<char>::empty()]);
        assert(join(split(s, seps), seps) =~= s);
    }
}

/// Escaping works character by character, and leaves alone what is no markup.
pub proof fn law_escaping(a: Seq<char>, b: Seq<char>)
    ensures
        escaped(a + b) == escaped(a) + escaped(b),
        !a.contains('&') && !a.contains('<') && !a.contains('>') ==> escaped(a) == a,
        escaped(seq!['&']) == "&amp;"@,
        escaped(seq!['<']) == "&lt;"@,
        escaped(seq!['>']) == "&gt;"@,
    decreases a.len() + b.len(),
{
    reveal_with_fuel(escaped, 2);
    assert(seq!['&'].drop_last() =~= Seq::empty());
    assert(seq!['<'].drop_last() =~= Seq::empty());
    assert(seq!['>'].drop_last() =~= Seq::empty());
    assert(escaped(seq!['&']) =~= "&amp;"@);
    assert(escaped(seq!['<']) =~= "&lt;"@);
    assert(escaped(seq!['>']) =~= "&gt;"@);
    if b.len() > 0 {
        law_escaping(a, b.drop_last());
        assert((a + b).drop_last() =~= a + b.drop_last());
        assert(escaped(a + b) =~= escaped(a) + escaped(b));
    } else {
        assert(a + b =~= a);
        assert(escaped(a) + escaped(b) =~= escaped(a));
        if a.len() > 0 {
            law_escaping(a.drop_last(), b);
            if !a.contains('&') && !a.contains('<') && !a.contains('>') {
                assert(a[a.len() - 1] == a.last());
                assert forall|c: char| #[trigger] a.drop_last().contains(c) implies a.contains(c) by {
                    let k = choose|k: int| 0 <= k < a.drop_last().len() && a.drop_last()[k] == c;
                    assert(a[k] == c);
                }
                assert(a.drop_last().push(a.last()) =~= a);
                assert(escaped(a) =~= a);
            }
        }
    }
}

} // verus!
