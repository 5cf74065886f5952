//! Validation of names, messages, phone numbers and one-time codes.

use crate::constants::{
    CODE_LENGTH, DEFAULT_MAX_DISPLAY_NAME, DEFAULT_MAX_GROUP_NAME, DEFAULT_MAX_MESSAGE,
    MESSAGE_NEAR_LIMIT,
};
use crate::models::code_points;
use crate::numbers::{all_digits, is_digit};
use crate::text::{chars_of, string_from, trim, trimmed};
use vstd::prelude::*;

verus! {

/// Outcome of a text validation.
#[derive(Debug, Clone, PartialEq, Eq)]
pub enum TextValidation {
    /// Trimmed text.
    Valid { text: String },
    Empty,
    TooLong { count: usize, max: usize },
}

/// What validating `input` against `max` code points must yield.
pub open spec fn validated(input: Seq<char>, max: usize, r: TextValidation) -> bool {
    let t = trim(input);
    match r {
        TextValidation::Valid { text } => text@ == t && 0 < t.len() <= max,
        TextValidation::Empty => t.len() == 0,
        TextValidation::TooLong { count, max: m } => t.len() > max && count == t.len() && m == max,
    }
}

impl TextValidation {
    pub fn is_valid(&self) -> (r: bool)
        ensures
            r == (self is Valid),
    {
        matches!(self, TextValidation::Valid { .. })
    }

    pub fn into_valid(self) -> (r: Option<String>)
        ensures
            r == (match self {
                TextValidation::Valid { text } => Some(text),
                _ => None,
            }),
    {
        match self {
            TextValidation::Valid { text } => Some(text),
            _ => None,
        }
    }
}

fn validate_text(input: &str, max: usize) -> (r: TextValidation)
    ensures
        validated(input@, max, r),
{
    let text = trimmed(input);
    let count: usize = code_points(text.as_str());
    if count == 0 {
        return TextValidation::Empty;
    }
    if count > max {
        return TextValidation::TooLong { count, max };
    }
    TextValidation::Valid { text }
}

/// Trims, checks non-empty, max 64 code points.
pub fn validate_display_name(input: &str) -> (r: TextValidation)
    ensures
        validated(input@, DEFAULT_MAX_DISPLAY_NAME, r),
{
    validate_text(input, DEFAULT_MAX_DISPLAY_NAME)
}

/// Max 100 code points.
pub fn validate_group_name(input: &str) -> (r: TextValidation)
    ensures
        validated(input@, DEFAULT_MAX_GROUP_NAME, r),
{
    validate_text(input, DEFAULT_MAX_GROUP_NAME)
}

/// Max 2000 code points.
pub fn validate_message_body(input: &str) -> (r: TextValidation)
    ensures
        validated(input@, DEFAULT_MAX_MESSAGE, r),
{
    validate_text(input, DEFAULT_MAX_MESSAGE)
}

/// Composer state derived from a draft.
#[derive(Debug, Clone, Copy, PartialEq, Eq, Structural)]
pub struct ComposerInfo {
    pub is_valid: bool,
    pub code_points: usize,
    pub is_near_limit: bool,
    pub max_length: usize,
}

/// What the composer shows for a draft.
pub fn composer_info(draft: &str) -> (r: ComposerInfo)
    ensures
        r.is_valid == (0 < trim(draft@).len() <= DEFAULT_MAX_MESSAGE),
        r.code_points == trim(draft@).len(),
        r.is_near_limit == (trim(draft@).len() >= MESSAGE_NEAR_LIMIT),
        r.max_length == DEFAULT_MAX_MESSAGE,
{
    let cp: usize = code_points(trimmed(draft).as_str());
    ComposerInfo {
        is_valid: cp > 0 && cp <= DEFAULT_MAX_MESSAGE,
        code_points: cp,
        is_near_limit: cp >= MESSAGE_NEAR_LIMIT,
        max_length: DEFAULT_MAX_MESSAGE,
    }
}

/// The composer calls a draft valid exactly when sending it would pass validation.
pub proof fn law_composer_agrees_with_validation(draft: Seq<char>, r: TextValidation)
    requires
        validated(draft, DEFAULT_MAX_MESSAGE, r),
    ensures
        (r is Valid) == (0 < trim(draft).len() <= DEFAULT_MAX_MESSAGE),
{
}

/// A `+` and 8 to 15 digits.
pub open spec fn e164_shape(s: Seq<char>) -> bool {
    9 <= s.len() <= 16 && s[0] == '+' && all_digits(s.skip(1))
}

fn digits_from(v: &Vec<char>, from: usize) -> (r: bool)
    requires
        from <= v.len(),
    ensures
        r == all_digits(v@.skip(from as int)),
{
    let mut i: usize = from;
    while i < v.len()
        invariant
            from <= i <= v.len(),
            forall|j: int| from <= j < i ==> is_digit(#[trigger] v@[j]),
        decreases v.len() - i,
    {
        let c = v[i];
        if !('0' <= c && c <= '9') {
            assert(v@.skip(from as int)[i - from] == c);
            return false;
        }
        i += 1;
    }
    assert forall|j: int| 0 <= j < v@.skip(from as int).len() implies is_digit(
        #[trigger] v@.skip(from as int)[j],
    ) by {
        assert(v@.skip(from as int)[j] == v@[from + j]);
    }
    true
}

/// Whether the trimmed text looks like an E.164 phone number.
pub fn looks_like_e164(s: &str) -> (r: bool)
    ensures
        r == e164_shape(trim(s@)),
{
    let t = trimmed(s);
    let v = chars_of(t.as_str());
    if v.len() < 9 || v.len() > 16 || v[0] != '+' {
        return false;
    }
    digits_from(&v, 1)
}

/// The decimal digits of `s`, in order.
pub open spec fn only_digits(s: Seq<char>) -> Seq<char> {
    s.filter(|c: char| is_digit(c))
}

/// `only_digits` as a function on strings.
pub fn keep_digits(s: &str) -> (r: String)
    ensures
        r@ == only_digits(s@),
{
    let v = chars_of(s);
    let mut out = String::new();
    let mut i: usize = 0;
    assert(s@.take(0).filter(|c: char| is_digit(c)) =~= Seq::<char>::empty()) by {
        reveal(Seq::filter);
    }
    while i < v.len()
        invariant
            i <= v.len(),
            v@ == s@,
            out@ == only_digits(s@.take(i as int)),
        decreases v.len() - i,
    {
        let c = v[i];
        proof {
            assert(s@.take(i + 1) =~= s@.take(i as int).push(c));
            lemma_filter_push(s@.take(i as int), c);
        }
        if '0' <= c && c <= '9' {
            out.push(c);
        }
        i += 1;
    }
    assert(s@.take(v.len() as int) =~= s@);
    out
}

proof fn lemma_filter_push(s: Seq<char>, c: char)
    ensures
        only_digits(s.push(c)) == (if is_digit(c) {
            only_digits(s).push(c)
        } else {
            only_digits(s)
        }),
{
    reveal(Seq::filter);
    assert(s.push(c).drop_last() =~= s);
}

/// E.164-ish form of a typed number: `+` and the digits, without a leading international `00`.
pub open spec fn normalized_phone(s: Seq<char>) -> Seq<char> {
    let d = only_digits(s);
    if d.len() >= 2 && d[0] == '0' && d[1] == '0' {
        seq!['+'] + d.skip(2)
    } else {
        seq!['+'] + d
    }
}

/// Normalize user input (spaces, dashes, parentheses, leading `00`) to E.164-ish.
pub fn normalize_phone(s: &str) -> (r: String)
    ensures
        r@ == normalized_phone(s@),
{
    let d = keep_digits(s);
    let v = chars_of(d.as_str());
    let from: usize = if v.len() >= 2 && v[0] == '0' && v[1] == '0' {
        2
    } else {
        0
    };
    let mut out = String::new();
    out.push('+');
    out.append(string_from(&v, from, v.len()).as_str());
    assert(Seq::<char>::empty().push('+') =~= seq!['+']);
    assert(v@.subrange(2 * (from / 2) as int, v.len() as int) =~= v@.skip(from as int));
    assert(d@.skip(0) =~= d@);
    out
}

/// Six decimal digits.
pub open spec fn otp_shape(s: Seq<char>) -> bool {
    s.len() == CODE_LENGTH && all_digits(s)
}

/// Whether `code` is a well-formed 6-digit code.
pub fn is_valid_otp(code: &str) -> (r: bool)
    ensures
        r == otp_shape(code@),
{
    let v = chars_of(code);
    assert(v@.skip(0) =~= v@);
    v.len() == CODE_LENGTH && digits_from(&v, 0)
}

/// `s[i..j]` is a run of digits that cannot be extended on either side.
pub open spec fn maximal_run(s: Seq<char>, i: int, j: int) -> bool {
    &&& 0 <= i < j <= s.len()
    &&& forall|k: int| i <= k < j ==> is_digit(#[trigger] s[k])
    &&& i > 0 ==> !is_digit(s[i - 1])
    &&& j < s.len() ==> !is_digit(s[j])
}

/// `r` is the first run of just six digits, if there is one.
pub open spec fn first_code(sms: Seq<char>, r: Option<String>) -> bool {
    match r {
        Some(code) => exists|i: int|
            {
                &&& #[trigger] maximal_run(sms, i, i + CODE_LENGTH)
                &&& code@ == sms.subrange(i, i + CODE_LENGTH)
                &&& forall|k: int| k < i ==> !#[trigger] maximal_run(sms, k, k + CODE_LENGTH)
            },
        None => forall|k: int| !#[trigger] maximal_run(sms, k, k + CODE_LENGTH),
    }
}

/// Extract the first digit run of exactly six digits from a text message.
pub fn extract_otp(sms: &str) -> (r: Option<String>)
    ensures
        first_code(sms@, r),
{
    let v = chars_of(sms);
    let mut i: usize = 0;
    while i < v.len()
        invariant
            i <= v.len(),
            v@ == sms@,
            i > 0 ==> (i == v.len() || !is_digit(v@[i as int]) || !is_digit(v@[i - 1])),
            forall|k: int|
                k < i ==> !#[trigger] maximal_run(sms@, k, k + CODE_LENGTH),
        decreases v.len() - i,
    {
        let c = v[i];
        if '0' <= c && c <= '9' {
            let start: usize = i;
            while i < v.len() && '0' <= v[i] && v[i] <= '9'
                invariant
                    start <= i <= v.len(),
                    v@ == sms@,
                    forall|k: int| start <= k < i ==> is_digit(#[trigger] v@[k]),
                decreases v.len() - i,
            {
                i += 1;
            }
            assert(is_digit(v@[start as int]));
            assert(i > start);
            if i - start == CODE_LENGTH {
                let code = string_from(&v, start, i);
                assert(maximal_run(sms@, start as int, start + CODE_LENGTH));
                return Some(code);
            }
            assert forall|k: int| k < i implies !#[trigger] maximal_run(
                sms@,
                k,
                k + CODE_LENGTH,
            ) by {
                if start < k {
                    assert(is_digit(v@[k - 1]));
                } else if k == start && maximal_run(sms@, k, k + CODE_LENGTH) {
                    if i < start + CODE_LENGTH {
                        assert(is_digit(sms@[i as int]));
                    } else {
                        assert(is_digit(v@[start + CODE_LENGTH]));
                    }
                }
            }
            assert(is_digit(v@[i - 1]));
        } else {
            assert(!maximal_run(sms@, i as int, i + CODE_LENGTH)) by {
                if maximal_run(sms@, i as int, i + CODE_LENGTH) {
                    assert(is_digit(sms@[i as int]));
                }
            }
            i += 1;
        }
    }
    assert forall|k: int| !#[trigger] maximal_run(sms@, k, k + CODE_LENGTH) by {
        if k >= v.len() {
        }
    }
    None
}

} // verus!
