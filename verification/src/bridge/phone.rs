//! Phone numbers as people type them: `212-736-5000`, `(212) 736 5000`, `+972 50-123-4567`,
//! `0501234567` with a default region.

use crate::numbers::{decimal, show_u64};
use crate::text::{
    ascii_upper, begins_with, chars_of, is_white, is_white_char, skip_chars, split, split_on,
    starts_with, texts, to_ascii_upper, trim, trimmed,
};
use crate::validation::{keep_digits, only_digits};
use phonenumber::country::Id;
use phonenumber::Mode;
use std::str::FromStr;
use vstd::prelude::*;

verus! {

/// Whether a character is a letter of some script.
pub uninterp spec fn alphabetic(c: char) -> bool;

/// The region for a two-letter code in capitals, if it is one.
pub uninterp spec fn region_named(code: Seq<char>) -> Option<Seq<char>>;

/// What a text means as a phone number of a region: whether the number exists, its national part,
/// and its international notation.
pub uninterp spec fn number_read(region: Seq<char>, text: Seq<char>) -> Option<(bool, u64, Seq<char>)>;

/// `char::is_alphabetic`. Which characters are letters is left to a name.
#[verifier::external_body]
fn is_letter(c: char) -> (r: bool)
    ensures
        r == alphabetic(c),
{
    c.is_alphabetic()
}

/// `phonenumber::country::Id::from_str`, written back by `as_ref`. Which codes exist is left to a
/// name.
#[verifier::external_body]
fn find_region(code: &str) -> (r: Option<String>)
    ensures
        match r {
            Some(s) => region_named(code@) == Some(s@),
            None => region_named(code@) is None,
        },
{
    Id::from_str(code).ok().map(|id| id.as_ref().to_owned())
}

/// `phonenumber::parse` for a region, then `is_valid`, `national` and the E.164 `format` of the
/// number. What they are is left to a name.
#[verifier::external_body]
fn read_number(region: &str, text: &str) -> (r: Option<NumberFacts>)
    ensures
        match r {
            Some(f) => number_read(region@, text@) == Some((f.valid, f.national, f.e164@)),
            None => number_read(region@, text@) is None,
        },
{
    let n = phonenumber::parse(Id::from_str(region).ok(), text).ok()?;
    let (valid, national) = (n.is_valid(), n.national().value());
    Some(NumberFacts { valid, national, e164: n.format().mode(Mode::E164).to_string() })
}

/// What is known of a text that reads as a phone number.
#[derive(Debug)]
pub struct NumberFacts {
    /// The number exists.
    pub valid: bool,
    /// The number without its country code.
    pub national: u64,
    /// International notation.
    pub e164: String,
}

/// The number of digits of a national number is sane.
pub open spec fn plausible(national: u64) -> bool {
    6 <= decimal(national as nat).len() <= 14
}

/// The ways in which a text is tried as a number, in order.
pub open spec fn candidates(raw: Seq<char>) -> Seq<Seq<char>> {
    let digits = only_digits(raw);
    (if begins_with(raw, "00"@) {
        seq!["+"@ + digits.skip(2)]
    } else {
        seq![]
    }) + seq![raw] + (if begins_with(raw, "+"@) {
        seq!["+"@ + digits]
    } else if digits.len() == 11 && digits[0] == '1' {
        seq![digits, "+"@ + digits]
    } else {
        seq![digits]
    })
}

/// The first reading that exists.
pub open spec fn first_valid(reads: Seq<Option<(bool, u64, Seq<char>)>>) -> Option<Seq<char>>
    decreases reads.len(),
{
    if reads.len() == 0 {
        None
    } else if reads[0] is Some && (reads[0]->0).0 {
        Some((reads[0]->0).2)
    } else {
        first_valid(reads.drop_first())
    }
}

/// The first reading of a sane length.
pub open spec fn first_plausible(reads: Seq<Option<(bool, u64, Seq<char>)>>) -> Option<Seq<char>>
    decreases reads.len(),
{
    if reads.len() == 0 {
        None
    } else if reads[0] is Some && plausible((reads[0]->0).1) {
        Some((reads[0]->0).2)
    } else {
        first_plausible(reads.drop_first())
    }
}

/// What the readings of the candidates amount to: the first number that exists, else the first of a
/// sane length.
pub open spec fn decided(
    reads: Seq<Option<(bool, u64, Seq<char>)>>,
    region: Seq<char>,
) -> Result<Seq<char>, Seq<char>> {
    match first_valid(reads) {
        Some(n) => Ok(n),
        None => match first_plausible(reads) {
            Some(n) => Ok(n),
            None => Err(
                "not a number I recognise for "@ + region
                    + " — include the country code, e.g. +1…"@,
            ),
        },
    }
}

/// A text or a refusal as a model.
pub open spec fn result_text(r: Result<String, String>) -> Result<Seq<char>, Seq<char>> {
    match r {
        Ok(s) => Ok(s@),
        Err(e) => Err(e@),
    }
}

/// A reading as a model.
pub open spec fn facts_of(f: Option<NumberFacts>) -> Option<(bool, u64, Seq<char>)> {
    match f {
        Some(f) => Some((f.valid, f.national, f.e164@)),
        None => None,
    }
}

/// Readings as a model.
pub open spec fn all_facts(v: Seq<Option<NumberFacts>>) -> Seq<Option<(bool, u64, Seq<char>)>> {
    Seq::new(v.len(), |i: int| facts_of(v[i]))
}

/// Settle on a number among the readings of the candidates.
pub fn decide(reads: &Vec<Option<NumberFacts>>, region: &str) -> (r: Result<String, String>)
    ensures
        result_text(r) == decided(all_facts(reads@), region@),
{
    let ghost all = all_facts(reads@);
    let mut i: usize = 0;
    assert(all.skip(0) =~= all);
    while i < reads.len()
        invariant
            i <= reads.len(),
            all == all_facts(reads@),
            first_valid(all) == first_valid(all.skip(i as int)),
        decreases reads.len() - i,
    {
        assert(all.skip(i as int)[0] == facts_of(reads@[i as int]));
        match &reads[i] {
            Some(f) => {
                if f.valid {
                    return Ok(f.e164.clone());
                }
            },
            None => {},
        }
        assert(all.skip(i as int).drop_first() =~= all.skip(i + 1));
        i += 1;
    }
    let mut j: usize = 0;
    while j < reads.len()
        invariant
            j <= reads.len(),
            all == all_facts(reads@),
            first_valid(all) is None,
            first_plausible(all) == first_plausible(all.skip(j as int)),
        decreases reads.len() - j,
    {
        assert(all.skip(j as int)[0] == facts_of(reads@[j as int]));
        match &reads[j] {
            Some(f) => {
                let n = chars_of(show_u64(f.national).as_str()).len();
                if 6 <= n && n <= 14 {
                    return Ok(f.e164.clone());
                }
            },
            None => {},
        }
        assert(all.skip(j as int).drop_first() =~= all.skip(j + 1));
        j += 1;
    }
    Err(
        "not a number I recognise for ".to_owned().concat(region).concat(
            " — include the country code, e.g. +1…",
        ),
    )
}

/// A letter occurs in the text.
pub open spec fn has_letter(s: Seq<char>) -> bool {
    exists|i: int| 0 <= i < s.len() && alphabetic(#[trigger] s[i])
}

/// The region to assume: the configured one, else the United States.
pub open spec fn assumed_region(code: Seq<char>) -> Seq<char> {
    match region_named(ascii_upper(code)) {
        Some(r) => r,
        None => "US"@,
    }
}

/// The readings of all candidates for a text.
pub open spec fn readings(raw: Seq<char>, region: Seq<char>) -> Seq<
    Option<(bool, u64, Seq<char>)>,
> {
    Seq::new(candidates(raw).len(), |i: int| number_read(region, candidates(raw)[i]))
}

/// What a typed text means as a phone number.
pub open spec fn phone_of(input: Seq<char>, default_region: Seq<char>) -> Result<
    Seq<char>,
    Seq<char>,
> {
    let raw = trim(input);
    let digits = only_digits(raw);
    if raw.len() == 0 {
        Err("no number given"@)
    } else if has_letter(raw) {
        Err("that has letters in it"@)
    } else if digits.len() < 7 {
        Err("too short"@)
    } else if digits.len() > 15 {
        Err("too long"@)
    } else {
        let region = assumed_region(default_region);
        decided(readings(raw, region), region)
    }
}

fn any_letter(s: &str) -> (r: bool)
    ensures
        r == has_letter(s@),
{
    let v = chars_of(s);
    let mut i: usize = 0;
    while i < v.len()
        invariant
            i <= v.len(),
            v@ == s@,
            forall|k: int| 0 <= k < i ==> !alphabetic(#[trigger] s@[k]),
        decreases v.len() - i,
    {
        if is_letter(v[i]) {
            assert(alphabetic(s@[i as int]));
            return true;
        }
        i += 1;
    }
    false
}

fn list_candidates(raw: &str, digits: &str) -> (r: Vec<String>)
    requires
        digits@ == only_digits(raw@),
        digits@.len() >= 7,
    ensures
        texts(r@) == candidates(raw@),
{
    let mut v: Vec<String> = Vec::new();
    if starts_with(raw, "00") {
        v.push("+".to_owned().concat(skip_chars(digits, 2).as_str()));
    }
    v.push(raw.to_owned());
    if starts_with(raw, "+") {
        v.push("+".to_owned().concat(digits));
    } else {
        v.push(digits.to_owned());
        let d = chars_of(digits);
        if d.len() == 11 && d[0] == '1' {
            v.push("+".to_owned().concat(digits));
        }
    }
    assert(texts(v@) =~= candidates(raw@));
    v
}

/// Parse `input` into international notation, assuming `default_region` where no country code is
/// given. A number that exists is taken, and so is one of a plausible length; only garbage is
/// refused, with a reason.
pub fn parse_phone(input: &str, default_region: &str) -> (r: Result<String, String>)
    ensures
        result_text(r) == phone_of(input@, default_region@),
{
    let raw = trimmed(input);
    if raw.as_str().is_empty() {
        return Err("no number given".to_owned());
    }
    if any_letter(raw.as_str()) {
        return Err("that has letters in it".to_owned());
    }
    let region = match find_region(to_ascii_upper(default_region).as_str()) {
        Some(s) => s,
        None => "US".to_owned(),
    };
    let digits = keep_digits(raw.as_str());
    let n = chars_of(digits.as_str()).len();
    if n < 7 {
        return Err("too short".to_owned());
    }
    if n > 15 {
        return Err("too long".to_owned());
    }
    let list = list_candidates(raw.as_str(), digits.as_str());
    let mut reads: Vec<Option<NumberFacts>> = Vec::new();
    let mut i: usize = 0;
    let ghost want = readings(raw@, region@);
    while i < list.len()
        invariant
            i <= list.len(),
            texts(list@) == candidates(raw@),
            want == readings(raw@, region@),
            reads@.len() == i,
            forall|k: int| 0 <= k < i ==> facts_of(#[trigger] reads@[k]) == want[k],
        decreases list.len() - i,
    {
        assert(texts(list@)[i as int] == list@[i as int]@);
        reads.push(read_number(region.as_str(), list[i].as_str()));
        i += 1;
    }
    assert(list@.len() == texts(list@).len());
    assert(all_facts(reads@) =~= want);
    decide(&reads, region.as_str())
}

/// The pieces of a text between white space.
pub open spec fn words(s: Seq<char>) -> Seq<Seq<char>>
    decreases s.len(),
{
    if s.len() == 0 {
        seq![]
    } else if is_white(s.last()) {
        words(s.drop_last())
    } else if s.len() == 1 || is_white(s[s.len() - 2]) {
        words(s.drop_last()).push(seq![s.last()])
    } else {
        let w = words(s.drop_last());
        w.update(w.len() - 1, w.last().push(s.last()))
    }
}

proof fn lemma_words(s: Seq<char>)
    ensures
        s.len() > 0 && !is_white(s.last()) ==> words(s).len() > 0,
        forall|i: int| 0 <= i < words(s).len() ==> (#[trigger] words(s)[i]).len() > 0,
    decreases s.len(),
{
    if s.len() > 0 {
        lemma_words(s.drop_last());
    }
}

/// The pieces of a text between white space.
pub fn split_words(s: &str) -> (r: Vec<String>)
    ensures
        texts(r@) == words(s@),
{
    let v = chars_of(s);
    let mut out: Vec<String> = Vec::new();
    let mut i: usize = 0;
    assert(v@.take(0) =~= Seq::empty());
    assert(texts(out@) =~= words(v@.take(0)));
    while i < v.len()
        invariant
            i <= v.len(),
            texts(out@) == words(v@.take(i as int)),
        decreases v.len() - i,
    {
        let ghost before = v@.take(i as int);
        let ghost now = v@.take(i + 1);
        assert(now.drop_last() =~= before);
        let c = v[i];
        if !is_white_char(c) {
            if i == 0 || is_white_char(v[i - 1]) {
                let mut w = String::new();
                w.push(c);
                let ghost had = texts(out@);
                out.push(w);
                assert(w@ =~= seq![c]);
                assert(texts(out@) =~= had.push(seq![c]));
                assert(i > 0 ==> now[now.len() - 2] == v@[i - 1]);
            } else {
                proof {
                    lemma_words(before);
                    assert(before.last() == v@[i - 1]);
                    assert(texts(out@).len() == out@.len());
                }
                let k = out.len() - 1;
                let mut w = out[k].clone();
                let ghost had = texts(out@);
                w.push(c);
                out.set(k, w);
                assert(had.last() == had[k as int]);
                assert(texts(out@) =~= had.update(k as int, had[k as int].push(c)));
                assert(now[now.len() - 2] == v@[i - 1]);
            }
        }
        i += 1;
    }
    assert(v@.take(i as int) =~= s@);
    out
}

/// A word that looks like a whole number: it begins with a plus or has at least ten digits.
pub open spec fn whole_number(w: Seq<char>) -> bool {
    begins_with(w, "+"@) || only_digits(w).len() >= 10
}

/// What is accepted and what is refused.
pub type Sifted = (Seq<Seq<char>>, Seq<Seq<char>>);

/// One typed number sorted into the accepted or the refused.
pub open spec fn sift_one(acc: Sifted, text: Seq<char>, region: Seq<char>) -> Sifted {
    match phone_of(text, region) {
        Ok(n) => (acc.0.push(n), acc.1),
        Err(_) => (acc.0, acc.1.push(text)),
    }
}

/// Several typed numbers sorted into the accepted and the refused, in order.
pub open spec fn sift_words(acc: Sifted, ws: Seq<Seq<char>>, region: Seq<char>) -> Sifted
    decreases ws.len(),
{
    if ws.len() == 0 {
        acc
    } else {
        sift_one(sift_words(acc, ws.drop_last(), region), ws.last(), region)
    }
}

/// Several numbers in one piece, separated by white space.
pub open spec fn several(ws: Seq<Seq<char>>) -> bool {
    ws.len() > 1 && forall|i: int| 0 <= i < ws.len() ==> whole_number(#[trigger] ws[i])
}

/// A piece of the list sorted: as one number, else as several.
pub open spec fn sift_piece(acc: Sifted, piece: Seq<char>, region: Seq<char>) -> Sifted {
    let p = trim(piece);
    if p.len() == 0 {
        acc
    } else if phone_of(p, region) is Ok {
        sift_one(acc, p, region)
    } else if several(words(p)) {
        sift_words(acc, words(p), region)
    } else {
        (acc.0, acc.1.push(p))
    }
}

/// All pieces sorted, in order.
pub open spec fn sift(ps: Seq<Seq<char>>, region: Seq<char>) -> Sifted
    decreases ps.len(),
{
    if ps.len() == 0 {
        (seq![], seq![])
    } else {
        sift_piece(sift(ps.drop_last(), region), ps.last(), region)
    }
}

fn all_whole(ws: &Vec<String>) -> (r: bool)
    ensures
        r == forall|i: int| 0 <= i < ws@.len() ==> whole_number(#[trigger] texts(ws@)[i]),
{
    let mut i: usize = 0;
    while i < ws.len()
        invariant
            i <= ws.len(),
            forall|k: int| 0 <= k < i ==> whole_number(#[trigger] texts(ws@)[k]),
        decreases ws.len() - i,
    {
        let w = ws[i].as_str();
        assert(texts(ws@)[i as int] == w@);
        if !starts_with(w, "+") && chars_of(keep_digits(w).as_str()).len() < 10 {
            return false;
        }
        i += 1;
    }
    true
}

/// Parse a list of numbers separated by commas, semicolons or new lines; a piece that is no number
/// may hold several, separated by white space. Yields the numbers and what was refused.
pub fn parse_phone_list(input: &str, default_region: &str) -> (r: (Vec<String>, Vec<String>))
    ensures
        (texts(r.0@), texts(r.1@)) == sift(split(input@, seq![',', ';', '\n']), default_region@),
{
    let seps: [char; 3] = [',', ';', '\n'];
    assert(seps@ =~= seq![',', ';', '\n']);
    let list = split_on(input, seps.as_slice());
    let ghost all = texts(list@);
    let mut good: Vec<String> = Vec::new();
    let mut bad: Vec<String> = Vec::new();
    let mut i: usize = 0;
    assert(all.take(0) =~= Seq::empty());
    assert(texts(good@) =~= Seq::empty() && texts(bad@) =~= Seq::empty());
    while i < list.len()
        invariant
            i <= list.len(),
            all == texts(list@),
            (texts(good@), texts(bad@)) == sift(all.take(i as int), default_region@),
        decreases list.len() - i,
    {
        let ghost acc = sift(all.take(i as int), default_region@);
        assert(all.take(i + 1).drop_last() =~= all.take(i as int));
        assert(all.take(i + 1).last() == list@[i as int]@);
        let piece = trimmed(list[i].as_str());
        if !piece.as_str().is_empty() {
            match parse_phone(piece.as_str(), default_region) {
                Ok(n) => {
                    good.push(n);
                    assert(texts(good@) =~= acc.0.push(n@));
                },
                Err(_) => {
                    let ws = split_words(piece.as_str());
                    assert(texts(ws@).len() == ws@.len());
                    if ws.len() > 1 && all_whole(&ws) {
                        assert(several(words(piece@)));
                        let ghost wt = texts(ws@);
                        let mut k: usize = 0;
                        assert(wt.take(0) =~= Seq::empty());
                        while k < ws.len()
                            invariant
                                k <= ws.len(),
                                wt == texts(ws@),
                                (texts(good@), texts(bad@)) == sift_words(
                                    acc,
                                    wt.take(k as int),
                                    default_region@,
                                ),
                            decreases ws.len() - k,
                        {
                            let ghost had = sift_words(acc, wt.take(k as int), default_region@);
                            assert(wt.take(k + 1).drop_last() =~= wt.take(k as int));
                            assert(wt.take(k + 1).last() == ws@[k as int]@);
                            match parse_phone(ws[k].as_str(), default_region) {
                                Ok(n) => {
                                    good.push(n);
                                    assert(texts(good@) =~= had.0.push(n@));
                                },
                                Err(_) => {
                                    bad.push(ws[k].clone());
                                    assert(texts(bad@) =~= had.1.push(ws@[k as int]@));
                                },
                            }
                            k += 1;
                        }
                        assert(wt.take(k as int) =~= wt);
                    } else {
                        assert(!several(words(piece@)));
                        bad.push(piece);
                        assert(texts(bad@) =~= acc.1.push(piece@));
                    }
                },
            }
        }
        i += 1;
    }
    assert(all.take(i as int) =~= all);
    (good, bad)
}

} // verus!
