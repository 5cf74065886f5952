//! The steps of a conversation with the bot: signing in, creating a group, renaming one, adding
//! members.

use crate::bridge::format::{escape_html, escaped};
use crate::bridge::phone::{parse_phone, parse_phone_list, phone_of, result_text, sift};
use crate::bridge::reply::{
    add_key, add_row, button, face, no_keys, no_rows, plain, row_of, rows_of, say, say_text,
    Button, Face, Key, Reply,
};
use crate::bridge::reports::{failure, failure_text, list_after, listed, too_long, too_long_text};
use crate::constants::{
    DEFAULT_MAX_DISPLAY_NAME, DEFAULT_MAX_GROUP_NAME, SUGGEST_RESEND_AFTER_FAILURES,
};
use crate::error::AppError;
use crate::models::{
    opt_text, EnrollmentChallenge, Session, StartAuthRequest, VerifyAuthRequest,
};
use crate::numbers::{decimal, show_u64, show_usize};
use crate::text::{same, same_ascii_folded, same_ignoring_case, split, texts, trim, trimmed};
use crate::validation::{
    is_valid_otp, keep_digits, only_digits, otp_shape, validate_display_name, validate_group_name,
    TextValidation,
};
use vstd::prelude::*;

verus! {

/// Where a conversation with the bot stands.
#[derive(Debug)]
pub enum State {
    Idle,
    /// Signing in: waiting for the phone number.
    AwaitPhone,
    /// Signing in: waiting for the display name.
    AwaitName { phone: String },
    /// Signing in: waiting for the code.
    AwaitCode { challenge_id: String, phone: String, display_name: Option<String>, failures: u32 },
    /// Creating a group: waiting for the name.
    AwaitGroupName,
    /// Creating a group: waiting for the category.
    AwaitGroupCategory { name: String },
    /// Creating a group: waiting for phone numbers.
    AwaitGroupPhones { name: String, category: String },
    /// Waiting for a group's new name.
    AwaitRename { conv_id: i64 },
    /// Waiting for the phone numbers of new members.
    AwaitAddPhones { conv_id: i64 },
}

impl Default for State {
    fn default() -> (r: Self)
        ensures
            r == State::Idle,
    {
        State::Idle
    }
}

/// What one message does to a conversation.
#[derive(Debug)]
pub enum Step {
    /// Answer, and wait for the same thing.
    Stay(Reply),
    /// Answer, and wait for something else.
    Move { state: State, reply: Reply },
    /// Answer, and end the conversation.
    Leave(Reply),
}

/// A contact shared in the chat.
#[derive(Debug)]
pub struct SharedContact {
    /// The Telegram user behind it, where there is one.
    pub user_id: Option<u64>,
    pub phone: String,
}

/// The prompt for the phone number.
pub const ASK_PHONE: &'static str = "Send your phone number, for example +1 555 010 0123.";

/// The answer to a contact of someone else.
pub const NOT_YOURS: &'static str = "That is someone else's contact. Send your own number.";

/// The answer to what is no phone number.
pub const BAD_PHONE: &'static str =
    "That is not a phone number. Send it like +1 555 010 0123, or /cancel.";

/// The prompt for the display name.
pub open spec fn ask_name(phone: Seq<char>) -> Seq<char> {
    "Number: <b>"@ + escaped(phone)
        + "</b>.\n\nWhat name should other members see? Send a name, or skip if you already have a Tzibbur account."@
}

/// Go on with a phone number, as it was read.
pub open spec fn phone_step(read: Result<Seq<char>, Seq<char>>, s: Step) -> bool {
    match read {
        Ok(p) => s matches Step::Move { state: State::AwaitName { phone }, reply } && phone@ == p
            && face(reply) == plain(ask_name(p)),
        Err(_) => s matches Step::Stay(reply) && face(reply) == plain(BAD_PHONE@),
    }
}

/// Go on with a phone number, as it was read.
pub fn phone_read(read: Result<String, String>) -> (s: Step)
    ensures
        phone_step(result_text(read), s),
{
    match read {
        Ok(phone) => {
            let text = "Number: <b>".to_owned().concat(escape_html(phone.as_str()).as_str()).concat(
                "</b>.\n\nWhat name should other members see? Send a name, or skip if you already have a Tzibbur account.",
            );
            Step::Move { state: State::AwaitName { phone }, reply: say(text) }
        },
        Err(_) => Step::Stay(say_text(BAD_PHONE)),
    }
}

/// The user sent a phone number: as a contact of their own, or typed.
pub fn on_phone(contact: &Option<SharedContact>, sender: u64, text: &str, region: &str) -> (s: Step)
    ensures
        match *contact {
            Some(c) => if c.user_id is Some && c.user_id != Some(sender) {
                s matches Step::Stay(reply) && face(reply) == plain(NOT_YOURS@)
            } else {
                phone_step(phone_of(c.phone@, region@), s)
            },
            None => phone_step(phone_of(text@, region@), s),
        },
{
    match contact {
        Some(c) => {
            match c.user_id {
                Some(u) => {
                    if u != sender {
                        return Step::Stay(say_text(NOT_YOURS));
                    }
                },
                None => {},
            }
            phone_read(parse_phone(c.phone.as_str(), region))
        },
        None => phone_read(parse_phone(text, region)),
    }
}

/// The user skips a question.
pub open spec fn skips(text: Seq<char>) -> bool {
    same_ascii_folded(trim(text), "skip"@)
}

/// The user sent a display name, or skipped it: the name to sign in with, or what to answer.
pub fn on_name(text: &str) -> (r: Result<Option<String>, Reply>)
    ensures
        ({
            let raw = trim(text@);
            let t = trim(raw);
            if skips(text@) || raw == "-"@ {
                r == Ok::<Option<String>, Reply>(None)
            } else if t.len() == 0 {
                r matches Err(reply) && face(reply) == plain("Send a name, or skip."@)
            } else if t.len() > DEFAULT_MAX_DISPLAY_NAME {
                r matches Err(reply) && face(reply) == plain(
                    too_long_text(t.len(), DEFAULT_MAX_DISPLAY_NAME as nat),
                )
            } else {
                r matches Ok(Some(name)) && name@ == t
            }
        }),
{
    let raw = trimmed(text);
    if same_ignoring_case(raw.as_str(), "skip") || same(raw.as_str(), "-") {
        return Ok(None);
    }
    match validate_display_name(raw.as_str()) {
        TextValidation::Valid { text } => Ok(Some(text)),
        TextValidation::Empty => Err(say_text("Send a name, or skip.")),
        TextValidation::TooLong { count, max } => Err(say(too_long(count, max))),
    }
}

/// The request for a code.
pub fn start_request(phone: &str, display_name: Option<String>) -> (r: StartAuthRequest)
    ensures
        r.phone@ == phone@,
        r.display_name == display_name,
        r.region is None,
        r.platform is None,
        r.device_model is None,
{
    StartAuthRequest {
        phone: phone.to_owned(),
        display_name,
        region: None,
        platform: None,
        device_model: None,
    }
}

/// The answer when a code is on its way.
pub open spec fn code_sent(resend_after: Option<u64>) -> Seq<char> {
    "Code sent by SMS. Send the 6 digits here."@ + (match resend_after {
        Some(s) => " A new code can be requested after "@ + decimal(s as nat) + " seconds."@,
        None => Seq::empty(),
    })
}

/// A code was requested: wait for it, or give up.
pub fn code_requested(
    reply: Result<EnrollmentChallenge, AppError>,
    phone: String,
    display_name: Option<String>,
) -> (s: Step)
    ensures
        match reply {
            Ok(ch) => {
                &&& s matches Step::Move { state, reply }
                &&& state == (State::AwaitCode {
                    challenge_id: ch.challenge_id,
                    phone,
                    display_name,
                    failures: 0,
                })
                &&& face(reply) == plain(code_sent(ch.resend_after_seconds))
            },
            Err(e) => s matches Step::Leave(reply) && face(reply) == plain(
                failure_text("Could not start sign-in: "@, e) + " Send /connect to try again."@,
            ),
        },
{
    match reply {
        Ok(ch) => {
            let more = match ch.resend_after_seconds {
                Some(s) => " A new code can be requested after ".to_owned().concat(
                    show_u64(s).as_str(),
                ).concat(" seconds."),
                None => String::new(),
            };
            let text = "Code sent by SMS. Send the 6 digits here.".to_owned().concat(
                more.as_str(),
            );
            Step::Move {
                state: State::AwaitCode {
                    challenge_id: ch.challenge_id,
                    phone,
                    display_name,
                    failures: 0,
                },
                reply: say(text),
            }
        },
        Err(e) => Step::Leave(
            say(failure("Could not start sign-in: ", &e).concat(" Send /connect to try again.")),
        ),
    }
}

/// The user sent a code: its digits, or what to answer.
pub fn on_code(text: &str) -> (r: Result<String, Reply>)
    ensures
        r is Ok == otp_shape(only_digits(text@)),
        match r {
            Ok(code) => code@ == only_digits(text@),
            Err(reply) => face(reply) == plain("Send the 6-digit code, or /cancel."@),
        },
{
    let code = keep_digits(text);
    if is_valid_otp(code.as_str()) {
        Ok(code)
    } else {
        Err(say_text("Send the 6-digit code, or /cancel."))
    }
}

/// The check of a code.
pub fn verify_request(
    challenge_id: &str,
    code: String,
    phone: &str,
    display_name: Option<String>,
) -> (r: VerifyAuthRequest)
    ensures
        r.challenge_id@ == challenge_id@,
        r.code == code,
        r.phone@ == phone@,
        r.display_name == display_name,
        r.region is None,
        r.platform is None,
        r.device_model is None,
{
    VerifyAuthRequest {
        challenge_id: challenge_id.to_owned(),
        code,
        phone: phone.to_owned(),
        display_name,
        region: None,
        platform: None,
        device_model: None,
    }
}

/// What a checked code leads to.
#[derive(Debug)]
pub enum Checked {
    /// Signed in: the conversation is over.
    SignedIn(Session),
    Answer(Step),
}

/// What a checked code leads to: signing in, another try, or the end after the third wrong one.
pub open spec fn code_outcome(
    reply: Result<Session, AppError>,
    challenge_id: String,
    phone: String,
    display_name: Option<String>,
    failures: u32,
    r: Checked,
) -> bool {
    match reply {
        Ok(session) => r == Checked::SignedIn(session),
        Err(e) => if e is InvalidCode && failures + 1 < SUGGEST_RESEND_AFTER_FAILURES {
            &&& r matches Checked::Answer(Step::Move { state, reply })
            &&& state == (State::AwaitCode {
                challenge_id,
                phone,
                display_name,
                failures: (failures + 1) as u32,
            })
            &&& face(reply) == plain("Wrong code. Try again, or /cancel."@)
        } else {
            r matches Checked::Answer(Step::Leave(reply)) && face(reply) == plain(
                if e is InvalidCode {
                    "Wrong code three times. Send /connect for a new one."@
                } else {
                    failure_text("Sign-in failed: "@, e) + " Send /connect to start over."@
                },
            )
        },
    }
}

/// A code was checked: sign in, let the user try again up to three times, or give up.
pub fn code_checked(
    reply: Result<Session, AppError>,
    challenge_id: String,
    phone: String,
    display_name: Option<String>,
    failures: u32,
) -> (r: Checked)
    ensures
        code_outcome(reply, challenge_id, phone, display_name, failures, r),
{
    match reply {
        Ok(session) => Checked::SignedIn(session),
        Err(e) => {
            if matches!(e, AppError::InvalidCode { .. }) {
                if failures < SUGGEST_RESEND_AFTER_FAILURES - 1 {
                    return Checked::Answer(
                        Step::Move {
                            state: State::AwaitCode {
                                challenge_id,
                                phone,
                                display_name,
                                failures: failures + 1,
                            },
                            reply: say_text("Wrong code. Try again, or /cancel."),
                        },
                    );
                }
                return Checked::Answer(
                    Step::Leave(say_text("Wrong code three times. Send /connect for a new one.")),
                );
            }
            Checked::Answer(
                Step::Leave(
                    say(failure("Sign-in failed: ", &e).concat(" Send /connect to start over.")),
                ),
            )
        },
    }
}

/// A conversation that waits for a code has seen fewer than three wrong ones.
pub open spec fn patient(s: State) -> bool {
    s matches State::AwaitCode { failures, .. } ==> failures < SUGGEST_RESEND_AFTER_FAILURES
}

/// The third wrong code ends a sign-in, and no sooner: until then the conversation waits on, and
/// has seen one wrong code more.
pub proof fn law_three_wrong_codes(
    e: AppError,
    challenge_id: String,
    phone: String,
    display_name: Option<String>,
    failures: u32,
    r: Checked,
)
    requires
        e is InvalidCode,
        patient(State::AwaitCode { challenge_id, phone, display_name, failures }),
        code_outcome(Err(e), challenge_id, phone, display_name, failures, r),
    ensures
        (r matches Checked::Answer(Step::Leave(_))) == (failures == 2),
        failures < 2 ==> {
            &&& r matches Checked::Answer(Step::Move { state, .. })
            &&& patient(state)
            &&& state matches State::AwaitCode { failures: n, .. }
            &&& n == failures + 1
        },
{
}

/// The news of a finished sign-in.
pub fn connected_text(name: &str) -> (r: String)
    ensures
        r@ == "Connected as <b>"@ + escaped(name@)
            + "</b>. Your groups are being added as topics."@,
{
    "Connected as <b>".to_owned().concat(escape_html(name).as_str()).concat(
        "</b>. Your groups are being added as topics.",
    )
}

/// The news of a sign-in whose setup failed.
pub fn setup_failed_text(why: &str) -> (r: String)
    ensures
        r@ == "Signed in, but setup failed: "@ + escaped(why@),
{
    "Signed in, but setup failed: ".to_owned().concat(escape_html(why).as_str())
}

/// A group name: the trimmed name, or what to answer.
pub open spec fn group_name_answer(
    text: Seq<char>,
    r: Result<String, Reply>,
    ask: Seq<char>,
    long: Seq<char>,
) -> bool {
    let t = trim(text);
    if t.len() == 0 {
        r matches Err(reply) && face(reply) == plain(ask)
    } else if t.len() > DEFAULT_MAX_GROUP_NAME {
        r matches Err(reply) && face(reply) == plain(long)
    } else {
        r matches Ok(name) && name@ == t
    }
}

/// The user sent the name of a new group.
pub fn on_group_name(text: &str) -> (r: Result<String, Reply>)
    ensures
        group_name_answer(
            text@,
            r,
            "Group name?"@,
            too_long_text(trim(text@).len(), DEFAULT_MAX_GROUP_NAME as nat),
        ),
{
    match validate_group_name(text) {
        TextValidation::Valid { text } => Ok(text),
        TextValidation::Empty => Err(say_text("Group name?")),
        TextValidation::TooLong { count, max } => Err(say(too_long(count, max))),
    }
}

/// The user sent a group's new name.
pub fn on_rename(text: &str) -> (r: Result<String, Reply>)
    ensures
        group_name_answer(
            text@,
            r,
            "Send the new name, or /cancel."@,
            "Too long ("@ + decimal(trim(text@).len()) + " characters, max "@ + decimal(
                DEFAULT_MAX_GROUP_NAME as nat,
            ) + ")."@,
        ),
{
    match validate_group_name(text) {
        TextValidation::Valid { text } => Ok(text),
        TextValidation::Empty => Err(say_text("Send the new name, or /cancel.")),
        TextValidation::TooLong { count, max } => Err(
            say(
                "Too long (".to_owned().concat(show_usize(count).as_str()).concat(
                    " characters, max ",
                ).concat(show_usize(max).as_str()).concat(")."),
            ),
        ),
    }
}

/// The news of a renamed group.
pub fn renamed_text(name: &str) -> (r: String)
    ensures
        r@ == "Renamed to <b>"@ + escaped(name@) + "</b>."@,
{
    "Renamed to <b>".to_owned().concat(escape_html(name).as_str()).concat("</b>.")
}

/// The news of a group that could not be renamed.
pub fn not_renamed_text(why: &str) -> (r: String)
    ensures
        r@ == "Could not rename: "@ + escaped(why@),
{
    "Could not rename: ".to_owned().concat(escape_html(why).as_str())
}

/// The categories to offer when the server's list cannot be had.
pub fn default_categories() -> (r: Vec<String>)
    ensures
        texts(r@) == seq!["family"@, "neighborhood"@, "shul"@, "school"@, "other"@],
{
    let mut v: Vec<String> = Vec::new();
    v.push("family".to_owned());
    v.push("neighborhood".to_owned());
    v.push("shul".to_owned());
    v.push("school".to_owned());
    v.push("other".to_owned());
    assert(texts(v@) =~= seq!["family"@, "neighborhood"@, "shul"@, "school"@, "other"@]);
    v
}

/// The button of a category.
pub open spec fn category_key(c: Seq<char>) -> Key {
    (c, "cat:"@ + c)
}

/// The buttons of several categories.
pub open spec fn category_keys(cats: Seq<Seq<char>>) -> Seq<Key> {
    Seq::new(cats.len(), |i: int| category_key(cats[i]))
}

/// The categories in rows of three.
pub open spec fn category_rows(cats: Seq<Seq<char>>) -> Seq<Seq<Key>>
    decreases cats.len(),
{
    if cats.len() == 0 {
        seq![]
    } else if cats.len() <= 3 {
        seq![category_keys(cats)]
    } else {
        seq![category_keys(cats.take(3))] + category_rows(cats.skip(3))
    }
}

fn rows_of_categories(cats: &Vec<String>) -> (rows: Vec<Vec<Button>>)
    ensures
        rows_of(rows@) == category_rows(texts(cats@)),
{
    let mut rows = no_rows();
    let ghost all = texts(cats@);
    let mut at: usize = 0;
    assert(all.skip(0) =~= all);
    assert(rows_of(rows@) + category_rows(all) =~= category_rows(all));
    while at < cats.len()
        invariant
            at <= cats.len(),
            all == texts(cats@),
            rows_of(rows@) + category_rows(all.skip(at as int)) == category_rows(all),
        decreases cats.len() - at,
    {
        let ghost rest = all.skip(at as int);
        let ghost before = rows_of(rows@);
        let end: usize = if cats.len() - at <= 3 {
            cats.len()
        } else {
            at + 3
        };
        let mut row = no_keys();
        let mut k: usize = at;
        while k < end
            invariant
                at <= k <= end <= cats.len(),
                all == texts(cats@),
                row_of(row@) =~= category_keys(all.subrange(at as int, k as int)),
            decreases end - k,
        {
            let data = "cat:".to_owned().concat(cats[k].as_str());
            add_key(&mut row, button(cats[k].as_str(), data));
            k += 1;
        }
        assert(rest.take(end - at) =~= all.subrange(at as int, end as int));
        add_row(&mut rows, row);
        proof {
            if rest.len() <= 3 {
                assert(rest.take(end - at) =~= rest);
                assert(all.skip(end as int) =~= Seq::empty());
            } else {
                assert(rest.skip(3) =~= all.skip(end as int));
            }
            assert(rows_of(rows@) + category_rows(all.skip(end as int)) =~= before + category_rows(
                rest,
            ));
        }
        at = end;
    }
    assert(all.skip(at as int) =~= Seq::empty());
    assert(rows_of(rows@) + category_rows(all.skip(at as int)) =~= rows_of(rows@));
    rows
}

/// Ask for the category of a new group.
pub fn ask_category(name: String, cats: &Vec<String>) -> (s: Step)
    ensures
        s matches Step::Move { state, reply } && state == (State::AwaitGroupCategory { name })
            && face(reply) == (Face {
            text: "Category for <b>"@ + escaped(name@) + "</b>?"@,
            keyboard: category_rows(texts(cats@)),
        }),
{
    let text = "Category for <b>".to_owned().concat(escape_html(name.as_str()).as_str()).concat(
        "</b>?",
    );
    Step::Move {
        state: State::AwaitGroupCategory { name },
        reply: Reply { text, keyboard: rows_of_categories(cats) },
    }
}

/// A category was chosen; it counts only while a group waits for one.
pub fn category_chosen(state: State, category: &str) -> (r: Option<Step>)
    ensures
        match state {
            State::AwaitGroupCategory { name } => {
                &&& r matches Some(
                    Step::Move { state: State::AwaitGroupPhones { name: n, category: c }, reply },
                )
                &&& n == name
                &&& c@ == category@
                &&& face(reply) == plain(
                    "Category: <b>"@ + escaped(category@)
                        + "</b>. Send the members' phone numbers, or skip."@,
                )
            },
            _ => r is None,
        },
{
    match state {
        State::AwaitGroupCategory { name } => {
            let text = "Category: <b>".to_owned().concat(escape_html(category).as_str()).concat(
                "</b>. Send the members' phone numbers, or skip.",
            );
            Some(
                Step::Move {
                    state: State::AwaitGroupPhones { name, category: category.to_owned() },
                    reply: say(text),
                },
            )
        },
        _ => None,
    }
}

/// Phone numbers out of a text: those that were read, and the words that are none.
pub open spec fn numbers_in(
    text: Seq<char>,
    region: Seq<char>,
) -> (Seq<Seq<char>>, Seq<Seq<char>>) {
    sift(split(text, seq![',', ';', '\n']), region)
}

/// Phone numbers for a group.
#[derive(Debug)]
pub enum Numbers {
    /// None were read: ask again.
    Missing(Reply),
    /// Those that were read, and a note about the rest.
    Given { phones: Vec<String>, note: Option<String> },
}

/// What follows from the numbers that were read.
pub open spec fn numbers_answer(
    phones: Seq<Seq<char>>,
    bad: Seq<Seq<char>>,
    ask: Seq<char>,
    lead: Seq<char>,
    end: Seq<char>,
    r: Numbers,
) -> bool {
    if phones.len() == 0 {
        r matches Numbers::Missing(reply) && face(reply) == plain(ask)
    } else {
        r matches Numbers::Given { phones: p, note } && texts(p@) == phones && opt_text(note) == (
        if bad.len() == 0 {
            None
        } else {
            Some(listed(lead, bad, end))
        })
    }
}

/// What follows from the numbers that were read.
pub fn numbers_read(
    phones: Vec<String>,
    bad: &Vec<String>,
    ask: &str,
    lead: &str,
    end: &str,
) -> (r: Numbers)
    ensures
        numbers_answer(texts(phones@), texts(bad@), ask@, lead@, end@, r),
{
    if phones.len() == 0 {
        return Numbers::Missing(say_text(ask));
    }
    let note = if bad.len() == 0 {
        None
    } else {
        Some(list_after(lead, bad, end))
    };
    Numbers::Given { phones, note }
}

/// The user sent the phone numbers of a new group, or skipped them.
pub fn on_group_phones(text: &str, region: &str) -> (r: Numbers)
    ensures
        if skips(text@) {
            r matches Numbers::Given { phones, note } && phones@.len() == 0 && note is None
        } else {
            numbers_answer(
                numbers_in(text@, region@).0,
                numbers_in(text@, region@).1,
                "Send the members' phone numbers, or skip."@,
                "Not phone numbers: "@,
                ""@,
                r,
            )
        },
{
    if same_ignoring_case(trimmed(text).as_str(), "skip") {
        return Numbers::Given { phones: Vec::new(), note: None };
    }
    let (phones, bad) = parse_phone_list(text, region);
    numbers_read(
        phones,
        &bad,
        "Send the members' phone numbers, or skip.",
        "Not phone numbers: ",
        "",
    )
}

/// The user sent the phone numbers of new members, asked for by the group card.
pub fn on_add_phones(text: &str, region: &str) -> (r: Numbers)
    ensures
        numbers_answer(
            numbers_in(text@, region@).0,
            numbers_in(text@, region@).1,
            "Send phone numbers like <code>212-736-5000, +972 50 123 4567</code>, or /cancel."@,
            "Skipping (not valid numbers): "@,
            "\n"@,
            r,
        ),
{
    let (phones, bad) = parse_phone_list(text, region);
    numbers_read(
        phones,
        &bad,
        "Send phone numbers like <code>212-736-5000, +972 50 123 4567</code>, or /cancel.",
        "Skipping (not valid numbers): ",
        "\n",
    )
}

} // verus!
