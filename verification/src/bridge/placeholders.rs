//! How many placeholders the texts of each key hold: as many in every language.

use crate::bridge::i18n::{
    entry, Lang,
    EN_WELCOME, HE_WELCOME, YI_WELCOME, EN_WELCOME_BACK, HE_WELCOME_BACK, YI_WELCOME_BACK,
    EN_SESSION_EXPIRED, HE_SESSION_EXPIRED, YI_SESSION_EXPIRED, EN_BTN_CONNECT, HE_BTN_CONNECT,
    YI_BTN_CONNECT, EN_ASK_PHONE, HE_ASK_PHONE, YI_ASK_PHONE, EN_BAD_PHONE, HE_BAD_PHONE,
    YI_BAD_PHONE, EN_ASK_NAME, HE_ASK_NAME, YI_ASK_NAME, EN_CODE_SENT, HE_CODE_SENT,
    YI_CODE_SENT, EN_ASK_CODE, HE_ASK_CODE, YI_ASK_CODE, EN_WRONG_CODE, HE_WRONG_CODE,
    YI_WRONG_CODE, EN_CONNECTED, HE_CONNECTED, YI_CONNECTED, EN_NOT_CONNECTED, HE_NOT_CONNECTED,
    YI_NOT_CONNECTED, EN_ADMINS_ONLY, HE_ADMINS_ONLY, YI_ADMINS_ONLY, EN_CANCELLED,
    HE_CANCELLED, YI_CANCELLED, EN_JOINED, HE_JOINED, YI_JOINED, EN_LEFT, HE_LEFT, YI_LEFT,
    EN_RENAMED, HE_RENAMED, YI_RENAMED, EN_GROUP_GONE, HE_GROUP_GONE, YI_GROUP_GONE, EN_RECENT,
    HE_RECENT, YI_RECENT, EN_NOT_SENT, HE_NOT_SENT, YI_NOT_SENT, EN_TOO_LONG_ASK,
    HE_TOO_LONG_ASK, YI_TOO_LONG_ASK, EN_BTN_SEND_PARTS, HE_BTN_SEND_PARTS, YI_BTN_SEND_PARTS,
    EN_BTN_CANCEL, HE_BTN_CANCEL, YI_BTN_CANCEL, EN_FIND_USAGE, HE_FIND_USAGE, YI_FIND_USAGE,
    EN_FIND_NONE, HE_FIND_NONE, YI_FIND_NONE, EN_FIND_HEADER, HE_FIND_HEADER, YI_FIND_HEADER,
    EN_CONTACT_ADDED, HE_CONTACT_ADDED, YI_CONTACT_ADDED, EN_LANGUAGE_SET, HE_LANGUAGE_SET,
    YI_LANGUAGE_SET, EN_CHOOSE_LANGUAGE, HE_CHOOSE_LANGUAGE, YI_CHOOSE_LANGUAGE,
    EN_ACCOUNTS_HEADER, HE_ACCOUNTS_HEADER, YI_ACCOUNTS_HEADER, EN_BTN_ADD_ACCOUNT,
    HE_BTN_ADD_ACCOUNT, YI_BTN_ADD_ACCOUNT, EN_BTN_REPLACE_ACCOUNT, HE_BTN_REPLACE_ACCOUNT,
    YI_BTN_REPLACE_ACCOUNT, EN_CONNECT_CHOICE, HE_CONNECT_CHOICE, YI_CONNECT_CHOICE,
    EN_ACTIVE_SET, HE_ACTIVE_SET, YI_ACTIVE_SET,
};
use vstd::prelude::*;

verus! {

/// How many placeholders `{}` a template holds from a position on.
pub open spec fn holes(s: Seq<char>, from: int) -> nat
    decreases s.len() - from,
{
    if from < 0 || from + 1 >= s.len() {
        0
    } else {
        holes(s, from + 1) + (if s[from] == '{' && s[from + 1] == '}' {
            1nat
        } else {
            0nat
        })
    }
}

#[verifier::rlimit(50)]
proof fn lemma_welcome()
    ensures
        holes(EN_WELCOME@, 0) == 0,
        holes(HE_WELCOME@, 0) == 0,
        holes(YI_WELCOME@, 0) == 0,
{
    assert(holes(EN_WELCOME@, 0) == 0) by {
        reveal_strlit("<b>Tzibbur for Telegram</b>\n\nRead and reply to your Tzibbur groups from Telegram. Each group becomes a topic in this chat.\n\nTap Connect to sign in with your phone number.");
        reveal_with_fuel(holes, 13);
        assert(holes(EN_WELCOME@, 168) == 0);
        assert(holes(EN_WELCOME@, 156) == 0);
        assert(holes(EN_WELCOME@, 144) == 0);
        assert(holes(EN_WELCOME@, 132) == 0);
        assert(holes(EN_WELCOME@, 120) == 0);
        assert(holes(EN_WELCOME@, 108) == 0);
        assert(holes(EN_WELCOME@, 96) == 0);
        assert(holes(EN_WELCOME@, 84) == 0);
        assert(holes(EN_WELCOME@, 72) == 0);
        assert(holes(EN_WELCOME@, 60) == 0);
        assert(holes(EN_WELCOME@, 48) == 0);
        assert(holes(EN_WELCOME@, 36) == 0);
        assert(holes(EN_WELCOME@, 24) == 0);
        assert(holes(EN_WELCOME@, 12) == 0);
    }
    assert(holes(HE_WELCOME@, 0) == 0) by {
        reveal_strlit("<b>ציבור בטלגרם</b>\n\nקראו וענו לקבוצות הציבור שלכם מתוך טלגרם. כל קבוצה הופכת לנושא בצ'אט הזה.\n\nלחצו על התחברות כדי להיכנס עם מספר הטלפון.");
        reveal_with_fuel(holes, 13);
        assert(holes(HE_WELCOME@, 132) == 0);
        assert(holes(HE_WELCOME@, 120) == 0);
        assert(holes(HE_WELCOME@, 108) == 0);
        assert(holes(HE_WELCOME@, 96) == 0);
        assert(holes(HE_WELCOME@, 84) == 0);
        assert(holes(HE_WELCOME@, 72) == 0);
        assert(holes(HE_WELCOME@, 60) == 0);
        assert(holes(HE_WELCOME@, 48) == 0);
        assert(holes(HE_WELCOME@, 36) == 0);
        assert(holes(HE_WELCOME@, 24) == 0);
        assert(holes(HE_WELCOME@, 12) == 0);
    }
    assert(holes(YI_WELCOME@, 0) == 0) by {
        reveal_strlit("<b>ציבור אויף טעלעגראַם</b>\n\nלייענט און ענטפערט אויף אײַערע ציבור־גרופעס פון טעלעגראַם. יעדע גרופע ווערט אַ טעמע אין דעם שמועס.\n\nדריקט „פאַרבינדן“ צו זיך אײַנלאָגירן מיט אײַער טעלעפאָן־נומער.");
        reveal_with_fuel(holes, 13);
        assert(holes(YI_WELCOME@, 180) == 0);
        assert(holes(YI_WELCOME@, 168) == 0);
        assert(holes(YI_WELCOME@, 156) == 0);
        assert(holes(YI_WELCOME@, 144) == 0);
        assert(holes(YI_WELCOME@, 132) == 0);
        assert(holes(YI_WELCOME@, 120) == 0);
        assert(holes(YI_WELCOME@, 108) == 0);
        assert(holes(YI_WELCOME@, 96) == 0);
        assert(holes(YI_WELCOME@, 84) == 0);
        assert(holes(YI_WELCOME@, 72) == 0);
        assert(holes(YI_WELCOME@, 60) == 0);
        assert(holes(YI_WELCOME@, 48) == 0);
        assert(holes(YI_WELCOME@, 36) == 0);
        assert(holes(YI_WELCOME@, 24) == 0);
        assert(holes(YI_WELCOME@, 12) == 0);
    }
}

#[verifier::rlimit(50)]
proof fn lemma_welcome_back()
    ensures
        holes(EN_WELCOME_BACK@, 0) == 1,
        holes(HE_WELCOME_BACK@, 0) == 1,
        holes(YI_WELCOME_BACK@, 0) == 1,
{
    assert(holes(EN_WELCOME_BACK@, 0) == 1) by {
        reveal_strlit("Signed in as <b>{}</b>. Your groups are the topics in this chat. Reply in a topic to post there.\n\n/chats, /newgroup, /settings, /help");
        reveal_with_fuel(holes, 13);
        assert(holes(EN_WELCOME_BACK@, 132) == 0);
        assert(holes(EN_WELCOME_BACK@, 120) == 0);
        assert(holes(EN_WELCOME_BACK@, 108) == 0);
        assert(holes(EN_WELCOME_BACK@, 96) == 0);
        assert(holes(EN_WELCOME_BACK@, 84) == 0);
        assert(holes(EN_WELCOME_BACK@, 72) == 0);
        assert(holes(EN_WELCOME_BACK@, 60) == 0);
        assert(holes(EN_WELCOME_BACK@, 48) == 0);
        assert(holes(EN_WELCOME_BACK@, 36) == 0);
        assert(holes(EN_WELCOME_BACK@, 24) == 0);
        assert(holes(EN_WELCOME_BACK@, 12) == 1);
    }
    assert(holes(HE_WELCOME_BACK@, 0) == 1) by {
        reveal_strlit("מחוברים בתור <b>{}</b>. הקבוצות שלכם הן הנושאים בצ'אט הזה. כתבו בנושא כדי לפרסם בקבוצה.\n\n/chats, /newgroup, /settings, /help");
        reveal_with_fuel(holes, 13);
        assert(holes(HE_WELCOME_BACK@, 120) == 0);
        assert(holes(HE_WELCOME_BACK@, 108) == 0);
        assert(holes(HE_WELCOME_BACK@, 96) == 0);
        assert(holes(HE_WELCOME_BACK@, 84) == 0);
        assert(holes(HE_WELCOME_BACK@, 72) == 0);
        assert(holes(HE_WELCOME_BACK@, 60) == 0);
        assert(holes(HE_WELCOME_BACK@, 48) == 0);
        assert(holes(HE_WELCOME_BACK@, 36) == 0);
        assert(holes(HE_WELCOME_BACK@, 24) == 0);
        assert(holes(HE_WELCOME_BACK@, 12) == 1);
    }
    assert(holes(YI_WELCOME_BACK@, 0) == 1) by {
        reveal_strlit("אײַנגעלאָגט ווי <b>{}</b>. אײַערע גרופעס זענען די טעמעס אין דעם שמועס. שרײַבט אין אַ טעמע צו שיקן צו דער גרופע.\n\n/chats, /newgroup, /settings, /help");
        reveal_with_fuel(holes, 13);
        assert(holes(YI_WELCOME_BACK@, 144) == 0);
        assert(holes(YI_WELCOME_BACK@, 132) == 0);
        assert(holes(YI_WELCOME_BACK@, 120) == 0);
        assert(holes(YI_WELCOME_BACK@, 108) == 0);
        assert(holes(YI_WELCOME_BACK@, 96) == 0);
        assert(holes(YI_WELCOME_BACK@, 84) == 0);
        assert(holes(YI_WELCOME_BACK@, 72) == 0);
        assert(holes(YI_WELCOME_BACK@, 60) == 0);
        assert(holes(YI_WELCOME_BACK@, 48) == 0);
        assert(holes(YI_WELCOME_BACK@, 36) == 0);
        assert(holes(YI_WELCOME_BACK@, 24) == 0);
        assert(holes(YI_WELCOME_BACK@, 12) == 1);
    }
}

proof fn lemma_session_expired()
    ensures
        holes(EN_SESSION_EXPIRED@, 0) == 0,
        holes(HE_SESSION_EXPIRED@, 0) == 0,
        holes(YI_SESSION_EXPIRED@, 0) == 0,
{
    assert(holes(EN_SESSION_EXPIRED@, 0) == 0) by {
        reveal_strlit("Your session expired. Send /reconnect to sign in again.");
        reveal_with_fuel(holes, 13);
        assert(holes(EN_SESSION_EXPIRED@, 48) == 0);
        assert(holes(EN_SESSION_EXPIRED@, 36) == 0);
        assert(holes(EN_SESSION_EXPIRED@, 24) == 0);
        assert(holes(EN_SESSION_EXPIRED@, 12) == 0);
    }
    assert(holes(HE_SESSION_EXPIRED@, 0) == 0) by {
        reveal_strlit("החיבור פג. שלחו /reconnect כדי להתחבר שוב.");
        reveal_with_fuel(holes, 13);
        assert(holes(HE_SESSION_EXPIRED@, 36) == 0);
        assert(holes(HE_SESSION_EXPIRED@, 24) == 0);
        assert(holes(HE_SESSION_EXPIRED@, 12) == 0);
    }
    assert(holes(YI_SESSION_EXPIRED@, 0) == 0) by {
        reveal_strlit("די סעסיע איז אויסגעגאַנגען. שיקט /reconnect זיך ווידער אײַנצולאָגירן.");
        reveal_with_fuel(holes, 13);
        assert(holes(YI_SESSION_EXPIRED@, 60) == 0);
        assert(holes(YI_SESSION_EXPIRED@, 48) == 0);
        assert(holes(YI_SESSION_EXPIRED@, 36) == 0);
        assert(holes(YI_SESSION_EXPIRED@, 24) == 0);
        assert(holes(YI_SESSION_EXPIRED@, 12) == 0);
    }
}

proof fn lemma_btn_connect()
    ensures
        holes(EN_BTN_CONNECT@, 0) == 0,
        holes(HE_BTN_CONNECT@, 0) == 0,
        holes(YI_BTN_CONNECT@, 0) == 0,
{
    assert(holes(EN_BTN_CONNECT@, 0) == 0) by {
        reveal_strlit("Connect");
        reveal_with_fuel(holes, 7);
    }
    assert(holes(HE_BTN_CONNECT@, 0) == 0) by {
        reveal_strlit("התחברות");
        reveal_with_fuel(holes, 7);
    }
    assert(holes(YI_BTN_CONNECT@, 0) == 0) by {
        reveal_strlit("פאַרבינדן");
        reveal_with_fuel(holes, 9);
    }
}

proof fn lemma_ask_phone()
    ensures
        holes(EN_ASK_PHONE@, 0) == 0,
        holes(HE_ASK_PHONE@, 0) == 0,
        holes(YI_ASK_PHONE@, 0) == 0,
{
    assert(holes(EN_ASK_PHONE@, 0) == 0) by {
        reveal_strlit("Send your phone number, for example +1 555 010 0123.");
        reveal_with_fuel(holes, 13);
        assert(holes(EN_ASK_PHONE@, 48) == 0);
        assert(holes(EN_ASK_PHONE@, 36) == 0);
        assert(holes(EN_ASK_PHONE@, 24) == 0);
        assert(holes(EN_ASK_PHONE@, 12) == 0);
    }
    assert(holes(HE_ASK_PHONE@, 0) == 0) by {
        reveal_strlit("שלחו את מספר הטלפון, לדוגמה +972 50 123 4567.");
        reveal_with_fuel(holes, 13);
        assert(holes(HE_ASK_PHONE@, 36) == 0);
        assert(holes(HE_ASK_PHONE@, 24) == 0);
        assert(holes(HE_ASK_PHONE@, 12) == 0);
    }
    assert(holes(YI_ASK_PHONE@, 0) == 0) by {
        reveal_strlit("שיקט אײַער טעלעפאָן־נומער, למשל +1 555 010 0123.");
        reveal_with_fuel(holes, 13);
        assert(holes(YI_ASK_PHONE@, 36) == 0);
        assert(holes(YI_ASK_PHONE@, 24) == 0);
        assert(holes(YI_ASK_PHONE@, 12) == 0);
    }
}

#[verifier::rlimit(50)]
proof fn lemma_bad_phone()
    ensures
        holes(EN_BAD_PHONE@, 0) == 0,
        holes(HE_BAD_PHONE@, 0) == 0,
        holes(YI_BAD_PHONE@, 0) == 0,
{
    assert(holes(EN_BAD_PHONE@, 0) == 0) by {
        reveal_strlit("That is not a phone number. Send it like +1 555 010 0123, or /cancel.");
        reveal_with_fuel(holes, 13);
        assert(holes(EN_BAD_PHONE@, 60) == 0);
        assert(holes(EN_BAD_PHONE@, 48) == 0);
        assert(holes(EN_BAD_PHONE@, 36) == 0);
        assert(holes(EN_BAD_PHONE@, 24) == 0);
        assert(holes(EN_BAD_PHONE@, 12) == 0);
    }
    assert(holes(HE_BAD_PHONE@, 0) == 0) by {
        reveal_strlit("זה לא מספר טלפון. שלחו אותו כך: +972 50 123 4567, או /cancel.");
        reveal_with_fuel(holes, 13);
        assert(holes(HE_BAD_PHONE@, 60) == 0);
        assert(holes(HE_BAD_PHONE@, 48) == 0);
        assert(holes(HE_BAD_PHONE@, 36) == 0);
        assert(holes(HE_BAD_PHONE@, 24) == 0);
        assert(holes(HE_BAD_PHONE@, 12) == 0);
    }
    assert(holes(YI_BAD_PHONE@, 0) == 0) by {
        reveal_strlit("דאָס איז נישט קיין טעלעפאָן־נומער. שיקט עס אַזוי: +1 555 010 0123, אָדער /cancel.");
        reveal_with_fuel(holes, 13);
        assert(holes(YI_BAD_PHONE@, 72) == 0);
        assert(holes(YI_BAD_PHONE@, 60) == 0);
        assert(holes(YI_BAD_PHONE@, 48) == 0);
        assert(holes(YI_BAD_PHONE@, 36) == 0);
        assert(holes(YI_BAD_PHONE@, 24) == 0);
        assert(holes(YI_BAD_PHONE@, 12) == 0);
    }
}

#[verifier::rlimit(50)]
proof fn lemma_ask_name()
    ensures
        holes(EN_ASK_NAME@, 0) == 1,
        holes(HE_ASK_NAME@, 0) == 1,
        holes(YI_ASK_NAME@, 0) == 1,
{
    assert(holes(EN_ASK_NAME@, 0) == 1) by {
        reveal_strlit("Number: <b>{}</b>.\n\nWhat name should other members see? Send a name, or skip if you already have a Tzibbur account.");
        reveal_with_fuel(holes, 13);
        assert(holes(EN_ASK_NAME@, 108) == 0);
        assert(holes(EN_ASK_NAME@, 96) == 0);
        assert(holes(EN_ASK_NAME@, 84) == 0);
        assert(holes(EN_ASK_NAME@, 72) == 0);
        assert(holes(EN_ASK_NAME@, 60) == 0);
        assert(holes(EN_ASK_NAME@, 48) == 0);
        assert(holes(EN_ASK_NAME@, 36) == 0);
        assert(holes(EN_ASK_NAME@, 24) == 0);
        assert(holes(EN_ASK_NAME@, 12) == 0);
    }
    assert(holes(HE_ASK_NAME@, 0) == 1) by {
        reveal_strlit("מספר: <b>{}</b>.\n\nאיזה שם יראו שאר החברים? שלחו שם, או skip אם כבר יש לכם חשבון ציבור.");
        reveal_with_fuel(holes, 13);
        assert(holes(HE_ASK_NAME@, 84) == 0);
        assert(holes(HE_ASK_NAME@, 72) == 0);
        assert(holes(HE_ASK_NAME@, 60) == 0);
        assert(holes(HE_ASK_NAME@, 48) == 0);
        assert(holes(HE_ASK_NAME@, 36) == 0);
        assert(holes(HE_ASK_NAME@, 24) == 0);
        assert(holes(HE_ASK_NAME@, 12) == 0);
    }
    assert(holes(YI_ASK_NAME@, 0) == 1) by {
        reveal_strlit("נומער: <b>{}</b>.\n\nוואָסער נאָמען זאָלן די אַנדערע מיטגלידער זען? שיקט אַ נאָמען, אָדער skip אויב איר האָט שוין אַ ציבור־קאָנטע.");
        reveal_with_fuel(holes, 13);
        assert(holes(YI_ASK_NAME@, 120) == 0);
        assert(holes(YI_ASK_NAME@, 108) == 0);
        assert(holes(YI_ASK_NAME@, 96) == 0);
        assert(holes(YI_ASK_NAME@, 84) == 0);
        assert(holes(YI_ASK_NAME@, 72) == 0);
        assert(holes(YI_ASK_NAME@, 60) == 0);
        assert(holes(YI_ASK_NAME@, 48) == 0);
        assert(holes(YI_ASK_NAME@, 36) == 0);
        assert(holes(YI_ASK_NAME@, 24) == 0);
        assert(holes(YI_ASK_NAME@, 12) == 0);
    }
}

proof fn lemma_code_sent()
    ensures
        holes(EN_CODE_SENT@, 0) == 0,
        holes(HE_CODE_SENT@, 0) == 0,
        holes(YI_CODE_SENT@, 0) == 0,
{
    assert(holes(EN_CODE_SENT@, 0) == 0) by {
        reveal_strlit("Code sent by SMS. Send the 6 digits here.");
        reveal_with_fuel(holes, 13);
        assert(holes(EN_CODE_SENT@, 36) == 0);
        assert(holes(EN_CODE_SENT@, 24) == 0);
        assert(holes(EN_CODE_SENT@, 12) == 0);
    }
    assert(holes(HE_CODE_SENT@, 0) == 0) by {
        reveal_strlit("הקוד נשלח ב־SMS. שלחו כאן את 6 הספרות.");
        reveal_with_fuel(holes, 13);
        assert(holes(HE_CODE_SENT@, 36) == 0);
        assert(holes(HE_CODE_SENT@, 24) == 0);
        assert(holes(HE_CODE_SENT@, 12) == 0);
    }
    assert(holes(YI_CODE_SENT@, 0) == 0) by {
        reveal_strlit("דער קאָד איז געשיקט געוואָרן דורך SMS. שיקט די 6 ציפערן דאָ.");
        reveal_with_fuel(holes, 13);
        assert(holes(YI_CODE_SENT@, 48) == 0);
        assert(holes(YI_CODE_SENT@, 36) == 0);
        assert(holes(YI_CODE_SENT@, 24) == 0);
        assert(holes(YI_CODE_SENT@, 12) == 0);
    }
}

proof fn lemma_ask_code()
    ensures
        holes(EN_ASK_CODE@, 0) == 0,
        holes(HE_ASK_CODE@, 0) == 0,
        holes(YI_ASK_CODE@, 0) == 0,
{
    assert(holes(EN_ASK_CODE@, 0) == 0) by {
        reveal_strlit("Send the 6-digit code, or /cancel.");
        reveal_with_fuel(holes, 13);
        assert(holes(EN_ASK_CODE@, 24) == 0);
        assert(holes(EN_ASK_CODE@, 12) == 0);
    }
    assert(holes(HE_ASK_CODE@, 0) == 0) by {
        reveal_strlit("שלחו את הקוד בן 6 הספרות, או /cancel.");
        reveal_with_fuel(holes, 13);
        assert(holes(HE_ASK_CODE@, 36) == 0);
        assert(holes(HE_ASK_CODE@, 24) == 0);
        assert(holes(HE_ASK_CODE@, 12) == 0);
    }
    assert(holes(YI_ASK_CODE@, 0) == 0) by {
        reveal_strlit("שיקט דעם 6־ציפעריקן קאָד, אָדער /cancel.");
        reveal_with_fuel(holes, 13);
        assert(holes(YI_ASK_CODE@, 36) == 0);
        assert(holes(YI_ASK_CODE@, 24) == 0);
        assert(holes(YI_ASK_CODE@, 12) == 0);
    }
}

proof fn lemma_wrong_code()
    ensures
        holes(EN_WRONG_CODE@, 0) == 0,
        holes(HE_WRONG_CODE@, 0) == 0,
        holes(YI_WRONG_CODE@, 0) == 0,
{
    assert(holes(EN_WRONG_CODE@, 0) == 0) by {
        reveal_strlit("Wrong code. Try again, or /cancel.");
        reveal_with_fuel(holes, 13);
        assert(holes(EN_WRONG_CODE@, 24) == 0);
        assert(holes(EN_WRONG_CODE@, 12) == 0);
    }
    assert(holes(HE_WRONG_CODE@, 0) == 0) by {
        reveal_strlit("קוד שגוי. נסו שוב, או /cancel.");
        reveal_with_fuel(holes, 13);
        assert(holes(HE_WRONG_CODE@, 24) == 0);
        assert(holes(HE_WRONG_CODE@, 12) == 0);
    }
    assert(holes(YI_WRONG_CODE@, 0) == 0) by {
        reveal_strlit("פאַלשער קאָד. פרובירט נאָך אַ מאָל, אָדער /cancel.");
        reveal_with_fuel(holes, 13);
        assert(holes(YI_WRONG_CODE@, 48) == 0);
        assert(holes(YI_WRONG_CODE@, 36) == 0);
        assert(holes(YI_WRONG_CODE@, 24) == 0);
        assert(holes(YI_WRONG_CODE@, 12) == 0);
    }
}

proof fn lemma_connected()
    ensures
        holes(EN_CONNECTED@, 0) == 1,
        holes(HE_CONNECTED@, 0) == 1,
        holes(YI_CONNECTED@, 0) == 1,
{
    assert(holes(EN_CONNECTED@, 0) == 1) by {
        reveal_strlit("Connected as <b>{}</b>. Your groups are being added as topics.");
        reveal_with_fuel(holes, 13);
        assert(holes(EN_CONNECTED@, 60) == 0);
        assert(holes(EN_CONNECTED@, 48) == 0);
        assert(holes(EN_CONNECTED@, 36) == 0);
        assert(holes(EN_CONNECTED@, 24) == 0);
        assert(holes(EN_CONNECTED@, 12) == 1);
    }
    assert(holes(HE_CONNECTED@, 0) == 1) by {
        reveal_strlit("מחוברים בתור <b>{}</b>. הקבוצות שלכם נוספות כנושאים.");
        reveal_with_fuel(holes, 13);
        assert(holes(HE_CONNECTED@, 48) == 0);
        assert(holes(HE_CONNECTED@, 36) == 0);
        assert(holes(HE_CONNECTED@, 24) == 0);
        assert(holes(HE_CONNECTED@, 12) == 1);
    }
    assert(holes(YI_CONNECTED@, 0) == 1) by {
        reveal_strlit("פאַרבונדן ווי <b>{}</b>. אײַערע גרופעס ווערן צוגעלייגט ווי טעמעס.");
        reveal_with_fuel(holes, 13);
        assert(holes(YI_CONNECTED@, 60) == 0);
        assert(holes(YI_CONNECTED@, 48) == 0);
        assert(holes(YI_CONNECTED@, 36) == 0);
        assert(holes(YI_CONNECTED@, 24) == 0);
        assert(holes(YI_CONNECTED@, 12) == 1);
    }
}

proof fn lemma_not_connected()
    ensures
        holes(EN_NOT_CONNECTED@, 0) == 0,
        holes(HE_NOT_CONNECTED@, 0) == 0,
        holes(YI_NOT_CONNECTED@, 0) == 0,
{
    assert(holes(EN_NOT_CONNECTED@, 0) == 0) by {
        reveal_strlit("Not connected. Send /connect.");
        reveal_with_fuel(holes, 13);
        assert(holes(EN_NOT_CONNECTED@, 24) == 0);
        assert(holes(EN_NOT_CONNECTED@, 12) == 0);
    }
    assert(holes(HE_NOT_CONNECTED@, 0) == 0) by {
        reveal_strlit("לא מחוברים. שלחו /connect.");
        reveal_with_fuel(holes, 13);
        assert(holes(HE_NOT_CONNECTED@, 24) == 0);
        assert(holes(HE_NOT_CONNECTED@, 12) == 0);
    }
    assert(holes(YI_NOT_CONNECTED@, 0) == 0) by {
        reveal_strlit("נישט פאַרבונדן. שיקט /connect.");
        reveal_with_fuel(holes, 13);
        assert(holes(YI_NOT_CONNECTED@, 24) == 0);
        assert(holes(YI_NOT_CONNECTED@, 12) == 0);
    }
}

proof fn lemma_admins_only()
    ensures
        holes(EN_ADMINS_ONLY@, 0) == 0,
        holes(HE_ADMINS_ONLY@, 0) == 0,
        holes(YI_ADMINS_ONLY@, 0) == 0,
{
    assert(holes(EN_ADMINS_ONLY@, 0) == 0) by {
        reveal_strlit("Only group admins can do that.");
        reveal_with_fuel(holes, 13);
        assert(holes(EN_ADMINS_ONLY@, 24) == 0);
        assert(holes(EN_ADMINS_ONLY@, 12) == 0);
    }
    assert(holes(HE_ADMINS_ONLY@, 0) == 0) by {
        reveal_strlit("רק מנהלי הקבוצה יכולים לעשות זאת.");
        reveal_with_fuel(holes, 13);
        assert(holes(HE_ADMINS_ONLY@, 24) == 0);
        assert(holes(HE_ADMINS_ONLY@, 12) == 0);
    }
    assert(holes(YI_ADMINS_ONLY@, 0) == 0) by {
        reveal_strlit("נאָר גרופע־אַדמינס קענען דאָס טאָן.");
        reveal_with_fuel(holes, 13);
        assert(holes(YI_ADMINS_ONLY@, 24) == 0);
        assert(holes(YI_ADMINS_ONLY@, 12) == 0);
    }
}

proof fn lemma_cancelled()
    ensures
        holes(EN_CANCELLED@, 0) == 0,
        holes(HE_CANCELLED@, 0) == 0,
        holes(YI_CANCELLED@, 0) == 0,
{
    assert(holes(EN_CANCELLED@, 0) == 0) by {
        reveal_strlit("Cancelled.");
        reveal_with_fuel(holes, 10);
    }
    assert(holes(HE_CANCELLED@, 0) == 0) by {
        reveal_strlit("בוטל.");
        reveal_with_fuel(holes, 5);
    }
    assert(holes(YI_CANCELLED@, 0) == 0) by {
        reveal_strlit("אָפּגעשטעלט.");
        reveal_with_fuel(holes, 12);
    }
}

proof fn lemma_joined()
    ensures
        holes(EN_JOINED@, 0) == 1,
        holes(HE_JOINED@, 0) == 1,
        holes(YI_JOINED@, 0) == 1,
{
    assert(holes(EN_JOINED@, 0) == 1) by {
        reveal_strlit("{} joined");
        reveal_with_fuel(holes, 9);
    }
    assert(holes(HE_JOINED@, 0) == 1) by {
        reveal_strlit("{} הצטרף/ה");
        reveal_with_fuel(holes, 10);
    }
    assert(holes(YI_JOINED@, 0) == 1) by {
        reveal_strlit("{} האָט זיך אָנגעשלאָסן");
        reveal_with_fuel(holes, 13);
        assert(holes(YI_JOINED@, 12) == 0);
    }
}

proof fn lemma_left()
    ensures
        holes(EN_LEFT@, 0) == 1,
        holes(HE_LEFT@, 0) == 1,
        holes(YI_LEFT@, 0) == 1,
{
    assert(holes(EN_LEFT@, 0) == 1) by {
        reveal_strlit("{} left");
        reveal_with_fuel(holes, 7);
    }
    assert(holes(HE_LEFT@, 0) == 1) by {
        reveal_strlit("{} עזב/ה");
        reveal_with_fuel(holes, 8);
    }
    assert(holes(YI_LEFT@, 0) == 1) by {
        reveal_strlit("{} האָט פאַרלאָזט");
        reveal_with_fuel(holes, 13);
        assert(holes(YI_LEFT@, 12) == 0);
    }
}

proof fn lemma_renamed()
    ensures
        holes(EN_RENAMED@, 0) == 1,
        holes(HE_RENAMED@, 0) == 1,
        holes(YI_RENAMED@, 0) == 1,
{
    assert(holes(EN_RENAMED@, 0) == 1) by {
        reveal_strlit("Group renamed to “{}”");
        reveal_with_fuel(holes, 13);
        assert(holes(EN_RENAMED@, 12) == 1);
    }
    assert(holes(HE_RENAMED@, 0) == 1) by {
        reveal_strlit("שם הקבוצה שונה ל־“{}”");
        reveal_with_fuel(holes, 13);
        assert(holes(HE_RENAMED@, 12) == 1);
    }
    assert(holes(YI_RENAMED@, 0) == 1) by {
        reveal_strlit("די גרופע הייסט איצט „{}“");
        reveal_with_fuel(holes, 13);
        assert(holes(YI_RENAMED@, 12) == 1);
    }
}

proof fn lemma_group_gone()
    ensures
        holes(EN_GROUP_GONE@, 0) == 0,
        holes(HE_GROUP_GONE@, 0) == 0,
        holes(YI_GROUP_GONE@, 0) == 0,
{
    assert(holes(EN_GROUP_GONE@, 0) == 0) by {
        reveal_strlit("This group is gone or you were removed. Topic closed.");
        reveal_with_fuel(holes, 13);
        assert(holes(EN_GROUP_GONE@, 48) == 0);
        assert(holes(EN_GROUP_GONE@, 36) == 0);
        assert(holes(EN_GROUP_GONE@, 24) == 0);
        assert(holes(EN_GROUP_GONE@, 12) == 0);
    }
    assert(holes(HE_GROUP_GONE@, 0) == 0) by {
        reveal_strlit("הקבוצה נמחקה או שהוסרתם ממנה. הנושא נסגר.");
        reveal_with_fuel(holes, 13);
        assert(holes(HE_GROUP_GONE@, 36) == 0);
        assert(holes(HE_GROUP_GONE@, 24) == 0);
        assert(holes(HE_GROUP_GONE@, 12) == 0);
    }
    assert(holes(YI_GROUP_GONE@, 0) == 0) by {
        reveal_strlit("די גרופע איז נישטאָ מער אָדער איר זענט אַרויסגענומען געוואָרן. די טעמע איז פאַרמאַכט.");
        reveal_with_fuel(holes, 13);
        assert(holes(YI_GROUP_GONE@, 84) == 0);
        assert(holes(YI_GROUP_GONE@, 72) == 0);
        assert(holes(YI_GROUP_GONE@, 60) == 0);
        assert(holes(YI_GROUP_GONE@, 48) == 0);
        assert(holes(YI_GROUP_GONE@, 36) == 0);
        assert(holes(YI_GROUP_GONE@, 24) == 0);
        assert(holes(YI_GROUP_GONE@, 12) == 0);
    }
}

proof fn lemma_recent()
    ensures
        holes(EN_RECENT@, 0) == 0,
        holes(HE_RECENT@, 0) == 0,
        holes(YI_RECENT@, 0) == 0,
{
    assert(holes(EN_RECENT@, 0) == 0) by {
        reveal_strlit("Recent messages:");
        reveal_with_fuel(holes, 16);
    }
    assert(holes(HE_RECENT@, 0) == 0) by {
        reveal_strlit("הודעות אחרונות:");
        reveal_with_fuel(holes, 15);
    }
    assert(holes(YI_RECENT@, 0) == 0) by {
        reveal_strlit("לעצטע מעלדונגען:");
        reveal_with_fuel(holes, 16);
    }
}

proof fn lemma_not_sent()
    ensures
        holes(EN_NOT_SENT@, 0) == 1,
        holes(HE_NOT_SENT@, 0) == 1,
        holes(YI_NOT_SENT@, 0) == 1,
{
    assert(holes(EN_NOT_SENT@, 0) == 1) by {
        reveal_strlit("Not sent: {}.");
        reveal_with_fuel(holes, 13);
    }
    assert(holes(HE_NOT_SENT@, 0) == 1) by {
        reveal_strlit("לא נשלח: {}.");
        reveal_with_fuel(holes, 12);
    }
    assert(holes(YI_NOT_SENT@, 0) == 1) by {
        reveal_strlit("נישט געשיקט: {}.");
        reveal_with_fuel(holes, 16);
    }
}

proof fn lemma_too_long_ask()
    ensures
        holes(EN_TOO_LONG_ASK@, 0) == 3,
        holes(HE_TOO_LONG_ASK@, 0) == 3,
        holes(YI_TOO_LONG_ASK@, 0) == 3,
{
    assert(holes(EN_TOO_LONG_ASK@, 0) == 3) by {
        reveal_strlit("This message is {} characters; Tzibbur allows {}. Send it as {} parts?");
        reveal_with_fuel(holes, 13);
        assert(holes(EN_TOO_LONG_ASK@, 60) == 1);
        assert(holes(EN_TOO_LONG_ASK@, 48) == 1);
        assert(holes(EN_TOO_LONG_ASK@, 36) == 2);
        assert(holes(EN_TOO_LONG_ASK@, 24) == 2);
        assert(holes(EN_TOO_LONG_ASK@, 12) == 3);
    }
    assert(holes(HE_TOO_LONG_ASK@, 0) == 3) by {
        reveal_strlit("ההודעה באורך {} תווים; ציבור מאפשר {}. לשלוח ב־{} חלקים?");
        reveal_with_fuel(holes, 13);
        assert(holes(HE_TOO_LONG_ASK@, 48) == 0);
        assert(holes(HE_TOO_LONG_ASK@, 36) == 1);
        assert(holes(HE_TOO_LONG_ASK@, 24) == 2);
        assert(holes(HE_TOO_LONG_ASK@, 12) == 3);
    }
    assert(holes(YI_TOO_LONG_ASK@, 0) == 3) by {
        reveal_strlit("די מעלדונג האָט {} אותיות; ציבור לאָזט {}. שיקן אין {} טיילן?");
        reveal_with_fuel(holes, 13);
        assert(holes(YI_TOO_LONG_ASK@, 60) == 0);
        assert(holes(YI_TOO_LONG_ASK@, 48) == 1);
        assert(holes(YI_TOO_LONG_ASK@, 36) == 2);
        assert(holes(YI_TOO_LONG_ASK@, 24) == 2);
        assert(holes(YI_TOO_LONG_ASK@, 12) == 3);
    }
}

proof fn lemma_btn_send_parts()
    ensures
        holes(EN_BTN_SEND_PARTS@, 0) == 1,
        holes(HE_BTN_SEND_PARTS@, 0) == 1,
        holes(YI_BTN_SEND_PARTS@, 0) == 1,
{
    assert(holes(EN_BTN_SEND_PARTS@, 0) == 1) by {
        reveal_strlit("Send as {} parts");
        reveal_with_fuel(holes, 16);
    }
    assert(holes(HE_BTN_SEND_PARTS@, 0) == 1) by {
        reveal_strlit("שליחה ב־{} חלקים");
        reveal_with_fuel(holes, 16);
    }
    assert(holes(YI_BTN_SEND_PARTS@, 0) == 1) by {
        reveal_strlit("שיקן אין {} טיילן");
        reveal_with_fuel(holes, 13);
        assert(holes(YI_BTN_SEND_PARTS@, 12) == 0);
    }
}

proof fn lemma_btn_cancel()
    ensures
        holes(EN_BTN_CANCEL@, 0) == 0,
        holes(HE_BTN_CANCEL@, 0) == 0,
        holes(YI_BTN_CANCEL@, 0) == 0,
{
    assert(holes(EN_BTN_CANCEL@, 0) == 0) by {
        reveal_strlit("Cancel");
        reveal_with_fuel(holes, 6);
    }
    assert(holes(HE_BTN_CANCEL@, 0) == 0) by {
        reveal_strlit("ביטול");
        reveal_with_fuel(holes, 5);
    }
    assert(holes(YI_BTN_CANCEL@, 0) == 0) by {
        reveal_strlit("אָפּשטעלן");
        reveal_with_fuel(holes, 9);
    }
}

proof fn lemma_find_usage()
    ensures
        holes(EN_FIND_USAGE@, 0) == 0,
        holes(HE_FIND_USAGE@, 0) == 0,
        holes(YI_FIND_USAGE@, 0) == 0,
{
    assert(holes(EN_FIND_USAGE@, 0) == 0) by {
        reveal_strlit("Send /find followed by a word to search this group's recent messages.");
        reveal_with_fuel(holes, 13);
        assert(holes(EN_FIND_USAGE@, 60) == 0);
        assert(holes(EN_FIND_USAGE@, 48) == 0);
        assert(holes(EN_FIND_USAGE@, 36) == 0);
        assert(holes(EN_FIND_USAGE@, 24) == 0);
        assert(holes(EN_FIND_USAGE@, 12) == 0);
    }
    assert(holes(HE_FIND_USAGE@, 0) == 0) by {
        reveal_strlit("שלחו /find ואחריו מילה כדי לחפש בהודעות האחרונות של הקבוצה.");
        reveal_with_fuel(holes, 13);
        assert(holes(HE_FIND_USAGE@, 48) == 0);
        assert(holes(HE_FIND_USAGE@, 36) == 0);
        assert(holes(HE_FIND_USAGE@, 24) == 0);
        assert(holes(HE_FIND_USAGE@, 12) == 0);
    }
    assert(holes(YI_FIND_USAGE@, 0) == 0) by {
        reveal_strlit("שיקט /find און אַ וואָרט צו זוכן אין די לעצטע מעלדונגען פון דער גרופע.");
        reveal_with_fuel(holes, 13);
        assert(holes(YI_FIND_USAGE@, 60) == 0);
        assert(holes(YI_FIND_USAGE@, 48) == 0);
        assert(holes(YI_FIND_USAGE@, 36) == 0);
        assert(holes(YI_FIND_USAGE@, 24) == 0);
        assert(holes(YI_FIND_USAGE@, 12) == 0);
    }
}

proof fn lemma_find_none()
    ensures
        holes(EN_FIND_NONE@, 0) == 1,
        holes(HE_FIND_NONE@, 0) == 1,
        holes(YI_FIND_NONE@, 0) == 1,
{
    assert(holes(EN_FIND_NONE@, 0) == 1) by {
        reveal_strlit("Nothing found in the last {} messages.");
        reveal_with_fuel(holes, 13);
        assert(holes(EN_FIND_NONE@, 36) == 0);
        assert(holes(EN_FIND_NONE@, 24) == 1);
        assert(holes(EN_FIND_NONE@, 12) == 1);
    }
    assert(holes(HE_FIND_NONE@, 0) == 1) by {
        reveal_strlit("לא נמצא דבר ב־{} ההודעות האחרונות.");
        reveal_with_fuel(holes, 13);
        assert(holes(HE_FIND_NONE@, 24) == 0);
        assert(holes(HE_FIND_NONE@, 12) == 1);
    }
    assert(holes(YI_FIND_NONE@, 0) == 1) by {
        reveal_strlit("גאָרנישט געפונען אין די לעצטע {} מעלדונגען.");
        reveal_with_fuel(holes, 13);
        assert(holes(YI_FIND_NONE@, 36) == 0);
        assert(holes(YI_FIND_NONE@, 24) == 1);
        assert(holes(YI_FIND_NONE@, 12) == 1);
    }
}

proof fn lemma_find_header()
    ensures
        holes(EN_FIND_HEADER@, 0) == 1,
        holes(HE_FIND_HEADER@, 0) == 1,
        holes(YI_FIND_HEADER@, 0) == 1,
{
    assert(holes(EN_FIND_HEADER@, 0) == 1) by {
        reveal_strlit("Matches in the last {} messages:");
        reveal_with_fuel(holes, 13);
        assert(holes(EN_FIND_HEADER@, 24) == 0);
        assert(holes(EN_FIND_HEADER@, 12) == 1);
    }
    assert(holes(HE_FIND_HEADER@, 0) == 1) by {
        reveal_strlit("תוצאות ב־{} ההודעות האחרונות:");
        reveal_with_fuel(holes, 13);
        assert(holes(HE_FIND_HEADER@, 24) == 0);
        assert(holes(HE_FIND_HEADER@, 12) == 0);
    }
    assert(holes(YI_FIND_HEADER@, 0) == 1) by {
        reveal_strlit("געפונען אין די לעצטע {} מעלדונגען:");
        reveal_with_fuel(holes, 13);
        assert(holes(YI_FIND_HEADER@, 24) == 0);
        assert(holes(YI_FIND_HEADER@, 12) == 1);
    }
}

proof fn lemma_contact_added()
    ensures
        holes(EN_CONTACT_ADDED@, 0) == 1,
        holes(HE_CONTACT_ADDED@, 0) == 1,
        holes(YI_CONTACT_ADDED@, 0) == 1,
{
    assert(holes(EN_CONTACT_ADDED@, 0) == 1) by {
        reveal_strlit("Added {} to this group.");
        reveal_with_fuel(holes, 13);
        assert(holes(EN_CONTACT_ADDED@, 12) == 0);
    }
    assert(holes(HE_CONTACT_ADDED@, 0) == 1) by {
        reveal_strlit("{} נוסף/ה לקבוצה.");
        reveal_with_fuel(holes, 13);
        assert(holes(HE_CONTACT_ADDED@, 12) == 0);
    }
    assert(holes(YI_CONTACT_ADDED@, 0) == 1) by {
        reveal_strlit("{} איז צוגעלייגט געוואָרן צו דער גרופע.");
        reveal_with_fuel(holes, 13);
        assert(holes(YI_CONTACT_ADDED@, 36) == 0);
        assert(holes(YI_CONTACT_ADDED@, 24) == 0);
        assert(holes(YI_CONTACT_ADDED@, 12) == 0);
    }
}

proof fn lemma_language_set()
    ensures
        holes(EN_LANGUAGE_SET@, 0) == 1,
        holes(HE_LANGUAGE_SET@, 0) == 1,
        holes(YI_LANGUAGE_SET@, 0) == 1,
{
    assert(holes(EN_LANGUAGE_SET@, 0) == 1) by {
        reveal_strlit("Language: {}.");
        reveal_with_fuel(holes, 13);
    }
    assert(holes(HE_LANGUAGE_SET@, 0) == 1) by {
        reveal_strlit("שפה: {}.");
        reveal_with_fuel(holes, 8);
    }
    assert(holes(YI_LANGUAGE_SET@, 0) == 1) by {
        reveal_strlit("שפּראַך: {}.");
        reveal_with_fuel(holes, 12);
    }
}

proof fn lemma_choose_language()
    ensures
        holes(EN_CHOOSE_LANGUAGE@, 0) == 0,
        holes(HE_CHOOSE_LANGUAGE@, 0) == 0,
        holes(YI_CHOOSE_LANGUAGE@, 0) == 0,
{
    assert(holes(EN_CHOOSE_LANGUAGE@, 0) == 0) by {
        reveal_strlit("Choose a language.");
        reveal_with_fuel(holes, 13);
        assert(holes(EN_CHOOSE_LANGUAGE@, 12) == 0);
    }
    assert(holes(HE_CHOOSE_LANGUAGE@, 0) == 0) by {
        reveal_strlit("בחרו שפה.");
        reveal_with_fuel(holes, 9);
    }
    assert(holes(YI_CHOOSE_LANGUAGE@, 0) == 0) by {
        reveal_strlit("קלײַבט אַ שפּראַך.");
        reveal_with_fuel(holes, 13);
        assert(holes(YI_CHOOSE_LANGUAGE@, 12) == 0);
    }
}

#[verifier::rlimit(50)]
proof fn lemma_accounts_header()
    ensures
        holes(EN_ACCOUNTS_HEADER@, 0) == 0,
        holes(HE_ACCOUNTS_HEADER@, 0) == 0,
        holes(YI_ACCOUNTS_HEADER@, 0) == 0,
{
    assert(holes(EN_ACCOUNTS_HEADER@, 0) == 0) by {
        reveal_strlit("Your Tzibbur accounts. The active one is used by commands in this main thread.");
        reveal_with_fuel(holes, 13);
        assert(holes(EN_ACCOUNTS_HEADER@, 72) == 0);
        assert(holes(EN_ACCOUNTS_HEADER@, 60) == 0);
        assert(holes(EN_ACCOUNTS_HEADER@, 48) == 0);
        assert(holes(EN_ACCOUNTS_HEADER@, 36) == 0);
        assert(holes(EN_ACCOUNTS_HEADER@, 24) == 0);
        assert(holes(EN_ACCOUNTS_HEADER@, 12) == 0);
    }
    assert(holes(HE_ACCOUNTS_HEADER@, 0) == 0) by {
        reveal_strlit("חשבונות הציבור שלכם. הפעיל משמש את הפקודות בשיחה הראשית.");
        reveal_with_fuel(holes, 13);
        assert(holes(HE_ACCOUNTS_HEADER@, 48) == 0);
        assert(holes(HE_ACCOUNTS_HEADER@, 36) == 0);
        assert(holes(HE_ACCOUNTS_HEADER@, 24) == 0);
        assert(holes(HE_ACCOUNTS_HEADER@, 12) == 0);
    }
    assert(holes(YI_ACCOUNTS_HEADER@, 0) == 0) by {
        reveal_strlit("אײַערע ציבור־קאָנטעס. די אַקטיווע ווערט גענוצט פון די באַפעלן אין דעם הויפּט־שמועס.");
        reveal_with_fuel(holes, 13);
        assert(holes(YI_ACCOUNTS_HEADER@, 72) == 0);
        assert(holes(YI_ACCOUNTS_HEADER@, 60) == 0);
        assert(holes(YI_ACCOUNTS_HEADER@, 48) == 0);
        assert(holes(YI_ACCOUNTS_HEADER@, 36) == 0);
        assert(holes(YI_ACCOUNTS_HEADER@, 24) == 0);
        assert(holes(YI_ACCOUNTS_HEADER@, 12) == 0);
    }
}

proof fn lemma_btn_add_account()
    ensures
        holes(EN_BTN_ADD_ACCOUNT@, 0) == 0,
        holes(HE_BTN_ADD_ACCOUNT@, 0) == 0,
        holes(YI_BTN_ADD_ACCOUNT@, 0) == 0,
{
    assert(holes(EN_BTN_ADD_ACCOUNT@, 0) == 0) by {
        reveal_strlit("Add another account");
        reveal_with_fuel(holes, 13);
        assert(holes(EN_BTN_ADD_ACCOUNT@, 12) == 0);
    }
    assert(holes(HE_BTN_ADD_ACCOUNT@, 0) == 0) by {
        reveal_strlit("הוספת חשבון נוסף");
        reveal_with_fuel(holes, 16);
    }
    assert(holes(YI_BTN_ADD_ACCOUNT@, 0) == 0) by {
        reveal_strlit("צולייגן נאָך אַ קאָנטע");
        reveal_with_fuel(holes, 13);
        assert(holes(YI_BTN_ADD_ACCOUNT@, 12) == 0);
    }
}

proof fn lemma_btn_replace_account()
    ensures
        holes(EN_BTN_REPLACE_ACCOUNT@, 0) == 0,
        holes(HE_BTN_REPLACE_ACCOUNT@, 0) == 0,
        holes(YI_BTN_REPLACE_ACCOUNT@, 0) == 0,
{
    assert(holes(EN_BTN_REPLACE_ACCOUNT@, 0) == 0) by {
        reveal_strlit("Replace the current account");
        reveal_with_fuel(holes, 13);
        assert(holes(EN_BTN_REPLACE_ACCOUNT@, 24) == 0);
        assert(holes(EN_BTN_REPLACE_ACCOUNT@, 12) == 0);
    }
    assert(holes(HE_BTN_REPLACE_ACCOUNT@, 0) == 0) by {
        reveal_strlit("החלפת החשבון הנוכחי");
        reveal_with_fuel(holes, 13);
        assert(holes(HE_BTN_REPLACE_ACCOUNT@, 12) == 0);
    }
    assert(holes(YI_BTN_REPLACE_ACCOUNT@, 0) == 0) by {
        reveal_strlit("פאַרבײַטן די איצטיקע קאָנטע");
        reveal_with_fuel(holes, 13);
        assert(holes(YI_BTN_REPLACE_ACCOUNT@, 24) == 0);
        assert(holes(YI_BTN_REPLACE_ACCOUNT@, 12) == 0);
    }
}

proof fn lemma_connect_choice()
    ensures
        holes(EN_CONNECT_CHOICE@, 0) == 1,
        holes(HE_CONNECT_CHOICE@, 0) == 1,
        holes(YI_CONNECT_CHOICE@, 0) == 1,
{
    assert(holes(EN_CONNECT_CHOICE@, 0) == 1) by {
        reveal_strlit("You are connected as <b>{}</b>. Add another account, or replace it?");
        reveal_with_fuel(holes, 13);
        assert(holes(EN_CONNECT_CHOICE@, 60) == 0);
        assert(holes(EN_CONNECT_CHOICE@, 48) == 0);
        assert(holes(EN_CONNECT_CHOICE@, 36) == 0);
        assert(holes(EN_CONNECT_CHOICE@, 24) == 1);
        assert(holes(EN_CONNECT_CHOICE@, 12) == 1);
    }
    assert(holes(HE_CONNECT_CHOICE@, 0) == 1) by {
        reveal_strlit("אתם מחוברים בתור <b>{}</b>. להוסיף חשבון נוסף, או להחליף?");
        reveal_with_fuel(holes, 13);
        assert(holes(HE_CONNECT_CHOICE@, 48) == 0);
        assert(holes(HE_CONNECT_CHOICE@, 36) == 0);
        assert(holes(HE_CONNECT_CHOICE@, 24) == 0);
        assert(holes(HE_CONNECT_CHOICE@, 12) == 1);
    }
    assert(holes(YI_CONNECT_CHOICE@, 0) == 1) by {
        reveal_strlit("איר זענט פאַרבונדן ווי <b>{}</b>. צולייגן נאָך אַ קאָנטע, אָדער פאַרבײַטן?");
        reveal_with_fuel(holes, 13);
        assert(holes(YI_CONNECT_CHOICE@, 72) == 0);
        assert(holes(YI_CONNECT_CHOICE@, 60) == 0);
        assert(holes(YI_CONNECT_CHOICE@, 48) == 0);
        assert(holes(YI_CONNECT_CHOICE@, 36) == 0);
        assert(holes(YI_CONNECT_CHOICE@, 24) == 1);
        assert(holes(YI_CONNECT_CHOICE@, 12) == 1);
    }
}

proof fn lemma_active_set()
    ensures
        holes(EN_ACTIVE_SET@, 0) == 1,
        holes(HE_ACTIVE_SET@, 0) == 1,
        holes(YI_ACTIVE_SET@, 0) == 1,
{
    assert(holes(EN_ACTIVE_SET@, 0) == 1) by {
        reveal_strlit("Active account: <b>{}</b>.");
        reveal_with_fuel(holes, 13);
        assert(holes(EN_ACTIVE_SET@, 24) == 0);
        assert(holes(EN_ACTIVE_SET@, 12) == 1);
    }
    assert(holes(HE_ACTIVE_SET@, 0) == 1) by {
        reveal_strlit("חשבון פעיל: <b>{}</b>.");
        reveal_with_fuel(holes, 13);
        assert(holes(HE_ACTIVE_SET@, 12) == 1);
    }
    assert(holes(YI_ACTIVE_SET@, 0) == 1) by {
        reveal_strlit("אַקטיווע קאָנטע: <b>{}</b>.");
        reveal_with_fuel(holes, 13);
        assert(holes(YI_ACTIVE_SET@, 24) == 0);
        assert(holes(YI_ACTIVE_SET@, 12) == 1);
    }
}

/// The texts of a key hold equally many placeholders in every language.
pub proof fn law_placeholders_match(key: Seq<char>, a: Lang, b: Lang)
    ensures
        entry(a, key) matches Some(t) ==> (entry(b, key) matches Some(u) && holes(t@, 0) == holes(
            u@,
            0,
        )),
{
    lemma_welcome();
    lemma_welcome_back();
    lemma_session_expired();
    lemma_btn_connect();
    lemma_ask_phone();
    lemma_bad_phone();
    lemma_ask_name();
    lemma_code_sent();
    lemma_ask_code();
    lemma_wrong_code();
    lemma_connected();
    lemma_not_connected();
    lemma_admins_only();
    lemma_cancelled();
    lemma_joined();
    lemma_left();
    lemma_renamed();
    lemma_group_gone();
    lemma_recent();
    lemma_not_sent();
    lemma_too_long_ask();
    lemma_btn_send_parts();
    lemma_btn_cancel();
    lemma_find_usage();
    lemma_find_none();
    lemma_find_header();
    lemma_contact_added();
    lemma_language_set();
    lemma_choose_language();
    lemma_accounts_header();
    lemma_btn_add_account();
    lemma_btn_replace_account();
    lemma_connect_choice();
    lemma_active_set();
}

} // verus!
