//! Phone numbers as users type them.

use crate::bridge::phone::{
    all_facts, decide, facts_of, first_plausible, first_valid, has_letter, parse_phone,
    parse_phone_list, plausible, sift, sift_piece, sift_words, words, NumberFacts,
};
use crate::numbers::decimal;
use crate::text::{split, texts, trim};
use crate::validation::only_digits;
use vstd::prelude::*;

verus! {

/// What is no number is refused for what is wrong with it: nothing typed, letters, fewer than seven
/// digits or more than fifteen.
pub proof fn law_no_number(input: &str, region: &str, r: Result<String, String>)
    requires
        call_ensures(parse_phone, (input, region), r),
    ensures
        trim(input@).len() == 0 ==> (r matches Err(e) && e@ == "no number given"@),
        trim(input@).len() > 0 && has_letter(trim(input@)) ==> (r matches Err(e) && e@
            == "that has letters in it"@),
        trim(input@).len() > 0 && !has_letter(trim(input@)) && only_digits(trim(input@)).len() < 7
            ==> (r matches Err(e) && e@ == "too short"@),
        trim(input@).len() > 0 && !has_letter(trim(input@)) && only_digits(trim(input@)).len() > 15
            ==> (r matches Err(e) && e@ == "too long"@),
{
}

type Read = Option<(bool, u64, Seq<char>)>;

proof fn lemma_first_valid(reads: Seq<Read>, i: int)
    requires
        0 <= i < reads.len(),
        reads[i] is Some && (reads[i]->0).0,
        forall|j: int| 0 <= j < i ==> !((#[trigger] reads[j]) is Some && (reads[j]->0).0),
    ensures
        first_valid(reads) == Some((reads[i]->0).2),
    decreases i,
{
    if i > 0 {
        assert(!(reads[0] is Some && (reads[0]->0).0));
        let rest = reads.drop_first();
        assert forall|j: int| 0 <= j < i - 1 implies !((#[trigger] rest[j]) is Some && (
        rest[j]->0).0) by {
            assert(rest[j] == reads[j + 1]);
        }
        lemma_first_valid(rest, i - 1);
    }
}

proof fn lemma_none_valid(reads: Seq<Read>)
    requires
        forall|j: int| 0 <= j < reads.len() ==> !((#[trigger] reads[j]) is Some && (reads[j]->0).0),
    ensures
        first_valid(reads) is None,
    decreases reads.len(),
{
    if reads.len() > 0 {
        assert(!(reads[0] is Some && (reads[0]->0).0));
        let rest = reads.drop_first();
        assert forall|j: int| 0 <= j < rest.len() implies !((#[trigger] rest[j]) is Some && (
        rest[j]->0).0) by {
            assert(rest[j] == reads[j + 1]);
        }
        lemma_none_valid(rest);
    }
}

proof fn lemma_first_plausible(reads: Seq<Read>, i: int)
    requires
        0 <= i < reads.len(),
        reads[i] is Some && plausible((reads[i]->0).1),
        forall|j: int| 0 <= j < i ==> !((#[trigger] reads[j]) is Some && plausible((reads[j]->0).1)),
    ensures
        first_plausible(reads) == Some((reads[i]->0).2),
    decreases i,
{
    if i > 0 {
        assert(!(reads[0] is Some && plausible((reads[0]->0).1)));
        let rest = reads.drop_first();
        assert forall|j: int| 0 <= j < i - 1 implies !((#[trigger] rest[j]) is Some && plausible(
            (rest[j]->0).1,
        )) by {
            assert(rest[j] == reads[j + 1]);
        }
        lemma_first_plausible(rest, i - 1);
    }
}

proof fn lemma_none_plausible(reads: Seq<Read>)
    requires
        forall|j: int|
            0 <= j < reads.len() ==> !((#[trigger] reads[j]) is Some && plausible((reads[j]->0).1)),
    ensures
        first_plausible(reads) is None,
    decreases reads.len(),
{
    if reads.len() > 0 {
        assert(!(reads[0] is Some && plausible((reads[0]->0).1)));
        let rest = reads.drop_first();
        assert forall|j: int| 0 <= j < rest.len() implies !((#[trigger] rest[j]) is Some
            && plausible((rest[j]->0).1)) by {
            assert(rest[j] == reads[j + 1]);
        }
        lemma_none_plausible(rest);
    }
}

/// A number of six to fourteen digits.
pub open spec fn fair_length(f: NumberFacts) -> bool {
    6 <= decimal(f.national as nat).len() <= 14
}

/// Among the readings of what was typed the first valid one counts; without a valid one the first
/// of a fair length; without one of those either the number is refused.
pub proof fn law_decide(reads: &Vec<Option<NumberFacts>>, region: &str, r: Result<String, String>, i: int)
    requires
        call_ensures(decide, (reads, region), r),
    ensures
        0 <= i < reads@.len() && (reads@[i] matches Some(f) && f.valid) && (forall|j: int|
            0 <= j < i ==> !((#[trigger] reads@[j]) matches Some(f) && f.valid)) ==> (r matches Ok(n)
            && n@ == reads@[i]->0.e164@),
        0 <= i < reads@.len() && (forall|j: int|
            0 <= j < reads@.len() ==> !((#[trigger] reads@[j]) matches Some(f) && f.valid)) && (
        reads@[i] matches Some(f) && fair_length(f)) && (forall|j: int|
            0 <= j < i ==> !((#[trigger] reads@[j]) matches Some(f) && fair_length(f))) ==> (
        r matches Ok(n) && n@ == reads@[i]->0.e164@),
        (forall|j: int|
            0 <= j < reads@.len() ==> ((#[trigger] reads@[j]) matches Some(f) ==> !f.valid
                && !fair_length(f))) ==> r is Err,
{
    let all = all_facts(reads@);
    if 0 <= i < reads@.len() && (reads@[i] matches Some(f) && f.valid) && (forall|j: int|
        0 <= j < i ==> !((#[trigger] reads@[j]) matches Some(f) && f.valid)) {
        assert forall|j: int| 0 <= j < i implies !((#[trigger] all[j]) is Some && (all[j]->0).0) by {
            assert(all[j] == facts_of(reads@[j]));
        }
        assert(all[i] == facts_of(reads@[i]));
        lemma_first_valid(all, i);
    }
    if forall|j: int| 0 <= j < reads@.len() ==> !((#[trigger] reads@[j]) matches Some(f) && f.valid) {
        assert forall|j: int| 0 <= j < all.len() implies !((#[trigger] all[j]) is Some && (
        all[j]->0).0) by {
            assert(all[j] == facts_of(reads@[j]));
        }
        lemma_none_valid(all);
        if 0 <= i < reads@.len() && (reads@[i] matches Some(f) && fair_length(f)) && (forall|j: int|
            0 <= j < i ==> !((#[trigger] reads@[j]) matches Some(f) && fair_length(f))) {
            assert forall|j: int| 0 <= j < i implies !((#[trigger] all[j]) is Some && plausible(
                (all[j]->0).1,
            )) by {
                assert(all[j] == facts_of(reads@[j]));
            }
            assert(all[i] == facts_of(reads@[i]));
            lemma_first_plausible(all, i);
        }
    }
    if forall|j: int|
        0 <= j < reads@.len() ==> ((#[trigger] reads@[j]) matches Some(f) ==> !f.valid
            && !fair_length(f)) {
        assert forall|j: int| 0 <= j < all.len() implies !((#[trigger] all[j]) is Some && (
        all[j]->0).0) by {
            assert(all[j] == facts_of(reads@[j]));
        }
        lemma_none_valid(all);
        assert forall|j: int| 0 <= j < all.len() implies !((#[trigger] all[j]) is Some && plausible(
            (all[j]->0).1,
        )) by {
            assert(all[j] == facts_of(reads@[j]));
        }
        lemma_none_plausible(all);
    }
}

type Lists = (Seq<Seq<char>>, Seq<Seq<char>>);

proof fn lemma_words_add(acc: Lists, ws: Seq<Seq<char>>, region: Seq<char>)
    ensures
        sift_words(acc, ws, region).0 == acc.0 + sift_words((seq![], seq![]), ws, region).0,
        sift_words(acc, ws, region).1 == acc.1 + sift_words((seq![], seq![]), ws, region).1,
    decreases ws.len(),
{
    let none: Lists = (seq![], seq![]);
    if ws.len() > 0 {
        lemma_words_add(acc, ws.drop_last(), region);
        let a = sift_words(acc, ws, region);
        let b = sift_words(none, ws, region);
        assert(a.0 =~= acc.0 + b.0);
        assert(a.1 =~= acc.1 + b.1);
    } else {
        assert(acc.0 =~= acc.0 + none.0);
        assert(acc.1 =~= acc.1 + none.1);
    }
}

proof fn lemma_piece_add(acc: Lists, p: Seq<char>, region: Seq<char>)
    ensures
        sift_piece(acc, p, region).0 == acc.0 + sift_piece((seq![], seq![]), p, region).0,
        sift_piece(acc, p, region).1 == acc.1 + sift_piece((seq![], seq![]), p, region).1,
{
    let none: Lists = (seq![], seq![]);
    lemma_words_add(acc, words(trim(p)), region);
    let a = sift_piece(acc, p, region);
    let b = sift_piece(none, p, region);
    assert(a.0 =~= acc.0 + b.0);
    assert(a.1 =~= acc.1 + b.1);
}

/// A list is read piece by piece: what its parts give, one behind the other, is what it gives.
pub proof fn law_list_by_pieces(ps: Seq<Seq<char>>, p: Seq<char>, region: Seq<char>)
    ensures
        sift(Seq::empty(), region).0.len() == 0,
        sift(Seq::empty(), region).1.len() == 0,
        sift(ps.push(p), region).0 == sift(ps, region).0 + sift(seq![p], region).0,
        sift(ps.push(p), region).1 == sift(ps, region).1 + sift(seq![p], region).1,
{
    let none: Lists = (seq![], seq![]);
    assert(ps.push(p).drop_last() =~= ps);
    assert(seq![p].drop_last() =~= Seq::<Seq<char>>::empty());
    assert(sift(seq![p], region) == sift_piece(sift(Seq::<Seq<char>>::empty(), region), p, region));
    lemma_piece_add(sift(ps, region), p, region);
}

/// One piece of a list: a number is accepted as it was read, white space gives nothing, and a piece
/// that is neither a number nor several numbers is refused as it was typed.
pub proof fn law_one_piece(p: &str, region: &str, q: &str, r: Result<String, String>)
    requires
        q@ == trim(p@),
        call_ensures(parse_phone, (q, region), r),
    ensures
        q@.len() == 0 ==> sift(seq![p@], region@).0.len() == 0 && sift(seq![p@], region@).1.len() == 0,
        q@.len() > 0 && r is Ok ==> sift(seq![p@], region@).0 == seq![r->Ok_0@] && sift(
            seq![p@],
            region@,
        ).1.len() == 0,
        q@.len() > 0 && r is Err && words(q@).len() <= 1 ==> sift(seq![p@], region@).0.len() == 0
            && sift(seq![p@], region@).1 == seq![q@],
{
    let none: Lists = (seq![], seq![]);
    assert(seq![p@].drop_last() =~= Seq::<Seq<char>>::empty());
    assert(sift(seq![p@], region@) == sift_piece(sift(Seq::<Seq<char>>::empty(), region@), p@, region@));
    if q@.len() > 0 && r is Ok {
        assert(sift(seq![p@], region@).0 =~= seq![r->Ok_0@]);
    }
    if q@.len() > 0 && r is Err && words(q@).len() <= 1 {
        assert(sift(seq![p@], region@).1 =~= seq![q@]);
    }
}

/// A list is cut at commas, semicolons and ends of lines.
pub proof fn law_list_of_numbers(input: &str, region: &str, r: (Vec<String>, Vec<String>))
    requires
        call_ensures(parse_phone_list, (input, region), r),
    ensures
        texts(r.0@) == sift(split(input@, seq![',', ';', '\n']), region@).0,
        texts(r.1@) == sift(split(input@, seq![',', ';', '\n']), region@).1,
{
}

/// Words are what white space parts: none of them holds any, and none is empty.
pub proof fn law_words(s: Seq<char>)
    ensures
        forall|i: int| 0 <= i < words(s).len() ==> (#[trigger] words(s)[i]).len() > 0,
        forall|i: int, k: int|
            0 <= i < words(s).len() && 0 <= k < words(s)[i].len() ==> !crate::text::is_white(
                #[trigger] words(s)[i][k],
            ),
        s.len() > 0 && !crate::text::is_white(s.last()) ==> words(s).len() > 0,
    decreases s.len(),
{
    if s.len() > 0 {
        let t = s.drop_last();
        law_words(t);
        let w = words(t);
        let all = words(s);
        if s.len() > 1 && !crate::text::is_white(s.last()) && !crate::text::is_white(s[s.len() - 2]) {
            assert(t.last() == s[s.len() - 2]);
        }
        assert forall|i: int, k: int|
            0 <= i < all.len() && 0 <= k < all[i].len() implies !crate::text::is_white(
            #[trigger] all[i][k],
        ) by {
            if crate::text::is_white(s.last()) {
                assert(all[i][k] == w[i][k]);
            } else if s.len() == 1 || crate::text::is_white(s[s.len() - 2]) {
                if i < w.len() {
                    assert(all[i][k] == w[i][k]);
                }
            } else {
                if i < w.len() - 1 {
                    assert(all[i][k] == w[i][k]);
                } else if k < w[i].len() {
                    assert(all[i][k] == w[i][k]);
                }
            }
        }
        assert forall|i: int| 0 <= i < all.len() implies (#[trigger] all[i]).len() > 0 by {
            if i < w.len() {
                assert(w[i].len() > 0);
            }
        }
    }
}

} // verus!
