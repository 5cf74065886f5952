//! Texts in English, Hebrew and Yiddish. English is the fallback for a text that a language lacks.

use crate::text::{
    begins_with, chars_of, find_from, occurs_at, same, starts_with, string_from, to_ascii_lower, ascii_lower,
};
use vstd::prelude::*;

verus! {

/// A language of the bot.
#[derive(Debug, Clone, Copy, PartialEq, Eq, Structural)]
pub enum Lang {
    En,
    He,
    Yi,
}

/// The language for a code such as `he-IL`.
pub open spec fn lang_of(code: Option<Seq<char>>) -> Lang {
    match code {
        Some(c) => {
            let c = ascii_lower(c);
            if begins_with(c, "he"@) || begins_with(c, "iw"@) {
                Lang::He
            } else if begins_with(c, "yi"@) || begins_with(c, "ji"@) {
                Lang::Yi
            } else {
                Lang::En
            }
        },
        None => Lang::En,
    }
}

impl Lang {
    /// The language for a code such as `he-IL`; English for all others.
    pub fn from_code(code: Option<&str>) -> (r: Lang)
        ensures
            r == lang_of(
                match code {
                    Some(c) => Some(c@),
                    None => None,
                },
            ),
    {
        match code {
            Some(c) => {
                let c = to_ascii_lower(c);
                if starts_with(c.as_str(), "he") || starts_with(c.as_str(), "iw") {
                    Lang::He
                } else if starts_with(c.as_str(), "yi") || starts_with(c.as_str(), "ji") {
                    Lang::Yi
                } else {
                    Lang::En
                }
            },
            None => Lang::En,
        }
    }

    /// The code of the language.
    pub fn code(self) -> (r: &'static str)
        ensures
            r@ == (match self {
                Lang::En => "en"@,
                Lang::He => "he"@,
                Lang::Yi => "yi"@,
            }),
    {
        match self {
            Lang::En => "en",
            Lang::He => "he",
            Lang::Yi => "yi",
        }
    }

    /// The name of the language in that language.
    pub fn name(self) -> (r: &'static str)
        ensures
            r@ == (match self {
                Lang::En => "English"@,
                Lang::He => "עברית"@,
                Lang::Yi => "ייִדיש"@,
            }),
    {
        match self {
            Lang::En => "English",
            Lang::He => "עברית",
            Lang::Yi => "ייִדיש",
        }
    }
}

/// English text for `welcome`.
pub const EN_WELCOME: &'static str = "<b>Tzibbur for Telegram</b>\n\nRead and reply to your Tzibbur groups from Telegram. Each group becomes a topic in this chat.\n\nTap Connect to sign in with your phone number.";

/// English text for `welcome_back`.
pub const EN_WELCOME_BACK: &'static str = "Signed in as <b>{}</b>. Your groups are the topics in this chat. Reply in a topic to post there.\n\n/chats, /newgroup, /settings, /help";

/// English text for `session_expired`.
pub const EN_SESSION_EXPIRED: &'static str = "Your session expired. Send /reconnect to sign in again.";

/// English text for `btn_connect`.
pub const EN_BTN_CONNECT: &'static str = "Connect";

/// English text for `ask_phone`.
pub const EN_ASK_PHONE: &'static str = "Send your phone number, for example +1 555 010 0123.";

/// English text for `bad_phone`.
pub const EN_BAD_PHONE: &'static str = "That is not a phone number. Send it like +1 555 010 0123, or /cancel.";

/// English text for `ask_name`.
pub const EN_ASK_NAME: &'static str = "Number: <b>{}</b>.\n\nWhat name should other members see? Send a name, or skip if you already have a Tzibbur account.";

/// English text for `code_sent`.
pub const EN_CODE_SENT: &'static str = "Code sent by SMS. Send the 6 digits here.";

/// English text for `ask_code`.
pub const EN_ASK_CODE: &'static str = "Send the 6-digit code, or /cancel.";

/// English text for `wrong_code`.
pub const EN_WRONG_CODE: &'static str = "Wrong code. Try again, or /cancel.";

/// English text for `connected`.
pub const EN_CONNECTED: &'static str = "Connected as <b>{}</b>. Your groups are being added as topics.";

/// English text for `not_connected`.
pub const EN_NOT_CONNECTED: &'static str = "Not connected. Send /connect.";

/// English text for `admins_only`.
pub const EN_ADMINS_ONLY: &'static str = "Only group admins can do that.";

/// English text for `cancelled`.
pub const EN_CANCELLED: &'static str = "Cancelled.";

/// English text for `joined`.
pub const EN_JOINED: &'static str = "{} joined";

/// English text for `left`.
pub const EN_LEFT: &'static str = "{} left";

/// English text for `renamed`.
pub const EN_RENAMED: &'static str = "Group renamed to “{}”";

/// English text for `group_gone`.
pub const EN_GROUP_GONE: &'static str = "This group is gone or you were removed. Topic closed.";

/// English text for `recent`.
pub const EN_RECENT: &'static str = "Recent messages:";

/// English text for `not_sent`.
pub const EN_NOT_SENT: &'static str = "Not sent: {}.";

/// English text for `too_long_ask`.
pub const EN_TOO_LONG_ASK: &'static str = "This message is {} characters; Tzibbur allows {}. Send it as {} parts?";

/// English text for `btn_send_parts`.
pub const EN_BTN_SEND_PARTS: &'static str = "Send as {} parts";

/// English text for `btn_cancel`.
pub const EN_BTN_CANCEL: &'static str = "Cancel";

/// English text for `find_usage`.
pub const EN_FIND_USAGE: &'static str = "Send /find followed by a word to search this group's recent messages.";

/// English text for `find_none`.
pub const EN_FIND_NONE: &'static str = "Nothing found in the last {} messages.";

/// English text for `find_header`.
pub const EN_FIND_HEADER: &'static str = "Matches in the last {} messages:";

/// English text for `contact_added`.
pub const EN_CONTACT_ADDED: &'static str = "Added {} to this group.";

/// English text for `language_set`.
pub const EN_LANGUAGE_SET: &'static str = "Language: {}.";

/// English text for `choose_language`.
pub const EN_CHOOSE_LANGUAGE: &'static str = "Choose a language.";

/// English text for `accounts_header`.
pub const EN_ACCOUNTS_HEADER: &'static str = "Your Tzibbur accounts. The active one is used by commands in this main thread.";

/// English text for `btn_add_account`.
pub const EN_BTN_ADD_ACCOUNT: &'static str = "Add another account";

/// English text for `btn_replace_account`.
pub const EN_BTN_REPLACE_ACCOUNT: &'static str = "Replace the current account";

/// English text for `connect_choice`.
pub const EN_CONNECT_CHOICE: &'static str = "You are connected as <b>{}</b>. Add another account, or replace it?";

/// English text for `active_set`.
pub const EN_ACTIVE_SET: &'static str = "Active account: <b>{}</b>.";

/// Hebrew text for `welcome`.
pub const HE_WELCOME: &'static str = "<b>ציבור בטלגרם</b>\n\nקראו וענו לקבוצות הציבור שלכם מתוך טלגרם. כל קבוצה הופכת לנושא בצ'אט הזה.\n\nלחצו על התחברות כדי להיכנס עם מספר הטלפון.";

/// Hebrew text for `welcome_back`.
pub const HE_WELCOME_BACK: &'static str = "מחוברים בתור <b>{}</b>. הקבוצות שלכם הן הנושאים בצ'אט הזה. כתבו בנושא כדי לפרסם בקבוצה.\n\n/chats, /newgroup, /settings, /help";

/// Hebrew text for `session_expired`.
pub const HE_SESSION_EXPIRED: &'static str = "החיבור פג. שלחו /reconnect כדי להתחבר שוב.";

/// Hebrew text for `btn_connect`.
pub const HE_BTN_CONNECT: &'static str = "התחברות";

/// Hebrew text for `ask_phone`.
pub const HE_ASK_PHONE: &'static str = "שלחו את מספר הטלפון, לדוגמה +972 50 123 4567.";

/// Hebrew text for `bad_phone`.
pub const HE_BAD_PHONE: &'static str = "זה לא מספר טלפון. שלחו אותו כך: +972 50 123 4567, או /cancel.";

/// Hebrew text for `ask_name`.
pub const HE_ASK_NAME: &'static str = "מספר: <b>{}</b>.\n\nאיזה שם יראו שאר החברים? שלחו שם, או skip אם כבר יש לכם חשבון ציבור.";

/// Hebrew text for `code_sent`.
pub const HE_CODE_SENT: &'static str = "הקוד נשלח ב־SMS. שלחו כאן את 6 הספרות.";

/// Hebrew text for `ask_code`.
pub const HE_ASK_CODE: &'static str = "שלחו את הקוד בן 6 הספרות, או /cancel.";

/// Hebrew text for `wrong_code`.
pub const HE_WRONG_CODE: &'static str = "קוד שגוי. נסו שוב, או /cancel.";

/// Hebrew text for `connected`.
pub const HE_CONNECTED: &'static str = "מחוברים בתור <b>{}</b>. הקבוצות שלכם נוספות כנושאים.";

/// Hebrew text for `not_connected`.
pub const HE_NOT_CONNECTED: &'static str = "לא מחוברים. שלחו /connect.";

/// Hebrew text for `admins_only`.
pub const HE_ADMINS_ONLY: &'static str = "רק מנהלי הקבוצה יכולים לעשות זאת.";

/// Hebrew text for `cancelled`.
pub const HE_CANCELLED: &'static str = "בוטל.";

/// Hebrew text for `joined`.
pub const HE_JOINED: &'static str = "{} הצטרף/ה";

/// Hebrew text for `left`.
pub const HE_LEFT: &'static str = "{} עזב/ה";

/// Hebrew text for `renamed`.
pub const HE_RENAMED: &'static str = "שם הקבוצה שונה ל־“{}”";

/// Hebrew text for `group_gone`.
pub const HE_GROUP_GONE: &'static str = "הקבוצה נמחקה או שהוסרתם ממנה. הנושא נסגר.";

/// Hebrew text for `recent`.
pub const HE_RECENT: &'static str = "הודעות אחרונות:";

/// Hebrew text for `not_sent`.
pub const HE_NOT_SENT: &'static str = "לא נשלח: {}.";

/// Hebrew text for `too_long_ask`.
pub const HE_TOO_LONG_ASK: &'static str = "ההודעה באורך {} תווים; ציבור מאפשר {}. לשלוח ב־{} חלקים?";

/// Hebrew text for `btn_send_parts`.
pub const HE_BTN_SEND_PARTS: &'static str = "שליחה ב־{} חלקים";

/// Hebrew text for `btn_cancel`.
pub const HE_BTN_CANCEL: &'static str = "ביטול";

/// Hebrew text for `find_usage`.
pub const HE_FIND_USAGE: &'static str = "שלחו /find ואחריו מילה כדי לחפש בהודעות האחרונות של הקבוצה.";

/// Hebrew text for `find_none`.
pub const HE_FIND_NONE: &'static str = "לא נמצא דבר ב־{} ההודעות האחרונות.";

/// Hebrew text for `find_header`.
pub const HE_FIND_HEADER: &'static str = "תוצאות ב־{} ההודעות האחרונות:";

/// Hebrew text for `contact_added`.
pub const HE_CONTACT_ADDED: &'static str = "{} נוסף/ה לקבוצה.";

/// Hebrew text for `language_set`.
pub const HE_LANGUAGE_SET: &'static str = "שפה: {}.";

/// Hebrew text for `choose_language`.
pub const HE_CHOOSE_LANGUAGE: &'static str = "בחרו שפה.";

/// Hebrew text for `accounts_header`.
pub const HE_ACCOUNTS_HEADER: &'static str = "חשבונות הציבור שלכם. הפעיל משמש את הפקודות בשיחה הראשית.";

/// Hebrew text for `btn_add_account`.
pub const HE_BTN_ADD_ACCOUNT: &'static str = "הוספת חשבון נוסף";

/// Hebrew text for `btn_replace_account`.
pub const HE_BTN_REPLACE_ACCOUNT: &'static str = "החלפת החשבון הנוכחי";

/// Hebrew text for `connect_choice`.
pub const HE_CONNECT_CHOICE: &'static str = "אתם מחוברים בתור <b>{}</b>. להוסיף חשבון נוסף, או להחליף?";

/// Hebrew text for `active_set`.
pub const HE_ACTIVE_SET: &'static str = "חשבון פעיל: <b>{}</b>.";

/// Yiddish text for `welcome`.
pub const YI_WELCOME: &'static str = "<b>ציבור אויף טעלעגראַם</b>\n\nלייענט און ענטפערט אויף אײַערע ציבור־גרופעס פון טעלעגראַם. יעדע גרופע ווערט אַ טעמע אין דעם שמועס.\n\nדריקט „פאַרבינדן“ צו זיך אײַנלאָגירן מיט אײַער טעלעפאָן־נומער.";

/// Yiddish text for `welcome_back`.
pub const YI_WELCOME_BACK: &'static str = "אײַנגעלאָגט ווי <b>{}</b>. אײַערע גרופעס זענען די טעמעס אין דעם שמועס. שרײַבט אין אַ טעמע צו שיקן צו דער גרופע.\n\n/chats, /newgroup, /settings, /help";

/// Yiddish text for `session_expired`.
pub const YI_SESSION_EXPIRED: &'static str = "די סעסיע איז אויסגעגאַנגען. שיקט /reconnect זיך ווידער אײַנצולאָגירן.";

/// Yiddish text for `btn_connect`.
pub const YI_BTN_CONNECT: &'static str = "פאַרבינדן";

/// Yiddish text for `ask_phone`.
pub const YI_ASK_PHONE: &'static str = "שיקט אײַער טעלעפאָן־נומער, למשל +1 555 010 0123.";

/// Yiddish text for `bad_phone`.
pub const YI_BAD_PHONE: &'static str = "דאָס איז נישט קיין טעלעפאָן־נומער. שיקט עס אַזוי: +1 555 010 0123, אָדער /cancel.";

/// Yiddish text for `ask_name`.
pub const YI_ASK_NAME: &'static str = "נומער: <b>{}</b>.\n\nוואָסער נאָמען זאָלן די אַנדערע מיטגלידער זען? שיקט אַ נאָמען, אָדער skip אויב איר האָט שוין אַ ציבור־קאָנטע.";

/// Yiddish text for `code_sent`.
pub const YI_CODE_SENT: &'static str = "דער קאָד איז געשיקט געוואָרן דורך SMS. שיקט די 6 ציפערן דאָ.";

/// Yiddish text for `ask_code`.
pub const YI_ASK_CODE: &'static str = "שיקט דעם 6־ציפעריקן קאָד, אָדער /cancel.";

/// Yiddish text for `wrong_code`.
pub const YI_WRONG_CODE: &'static str = "פאַלשער קאָד. פרובירט נאָך אַ מאָל, אָדער /cancel.";

/// Yiddish text for `connected`.
pub const YI_CONNECTED: &'static str = "פאַרבונדן ווי <b>{}</b>. אײַערע גרופעס ווערן צוגעלייגט ווי טעמעס.";

/// Yiddish text for `not_connected`.
pub const YI_NOT_CONNECTED: &'static str = "נישט פאַרבונדן. שיקט /connect.";

/// Yiddish text for `admins_only`.
pub const YI_ADMINS_ONLY: &'static str = "נאָר גרופע־אַדמינס קענען דאָס טאָן.";

/// Yiddish text for `cancelled`.
pub const YI_CANCELLED: &'static str = "אָפּגעשטעלט.";

/// Yiddish text for `joined`.
pub const YI_JOINED: &'static str = "{} האָט זיך אָנגעשלאָסן";

/// Yiddish text for `left`.
pub const YI_LEFT: &'static str = "{} האָט פאַרלאָזט";

/// Yiddish text for `renamed`.
pub const YI_RENAMED: &'static str = "די גרופע הייסט איצט „{}“";

/// Yiddish text for `group_gone`.
pub const YI_GROUP_GONE: &'static str = "די גרופע איז נישטאָ מער אָדער איר זענט אַרויסגענומען געוואָרן. די טעמע איז פאַרמאַכט.";

/// Yiddish text for `recent`.
pub const YI_RECENT: &'static str = "לעצטע מעלדונגען:";

/// Yiddish text for `not_sent`.
pub const YI_NOT_SENT: &'static str = "נישט געשיקט: {}.";

/// Yiddish text for `too_long_ask`.
pub const YI_TOO_LONG_ASK: &'static str = "די מעלדונג האָט {} אותיות; ציבור לאָזט {}. שיקן אין {} טיילן?";

/// Yiddish text for `btn_send_parts`.
pub const YI_BTN_SEND_PARTS: &'static str = "שיקן אין {} טיילן";

/// Yiddish text for `btn_cancel`.
pub const YI_BTN_CANCEL: &'static str = "אָפּשטעלן";

/// Yiddish text for `find_usage`.
pub const YI_FIND_USAGE: &'static str = "שיקט /find און אַ וואָרט צו זוכן אין די לעצטע מעלדונגען פון דער גרופע.";

/// Yiddish text for `find_none`.
pub const YI_FIND_NONE: &'static str = "גאָרנישט געפונען אין די לעצטע {} מעלדונגען.";

/// Yiddish text for `find_header`.
pub const YI_FIND_HEADER: &'static str = "געפונען אין די לעצטע {} מעלדונגען:";

/// Yiddish text for `contact_added`.
pub const YI_CONTACT_ADDED: &'static str = "{} איז צוגעלייגט געוואָרן צו דער גרופע.";

/// Yiddish text for `language_set`.
pub const YI_LANGUAGE_SET: &'static str = "שפּראַך: {}.";

/// Yiddish text for `choose_language`.
pub const YI_CHOOSE_LANGUAGE: &'static str = "קלײַבט אַ שפּראַך.";

/// Yiddish text for `accounts_header`.
pub const YI_ACCOUNTS_HEADER: &'static str = "אײַערע ציבור־קאָנטעס. די אַקטיווע ווערט גענוצט פון די באַפעלן אין דעם הויפּט־שמועס.";

/// Yiddish text for `btn_add_account`.
pub const YI_BTN_ADD_ACCOUNT: &'static str = "צולייגן נאָך אַ קאָנטע";

/// Yiddish text for `btn_replace_account`.
pub const YI_BTN_REPLACE_ACCOUNT: &'static str = "פאַרבײַטן די איצטיקע קאָנטע";

/// Yiddish text for `connect_choice`.
pub const YI_CONNECT_CHOICE: &'static str = "איר זענט פאַרבונדן ווי <b>{}</b>. צולייגן נאָך אַ קאָנטע, אָדער פאַרבײַטן?";

/// Yiddish text for `active_set`.
pub const YI_ACTIVE_SET: &'static str = "אַקטיווע קאָנטע: <b>{}</b>.";

/// The English text for a key.
pub open spec fn english_text(key: Seq<char>) -> Option<&'static str> {
    if key == "welcome"@ {
        Some(EN_WELCOME)
    } else if key == "welcome_back"@ {
        Some(EN_WELCOME_BACK)
    } else if key == "session_expired"@ {
        Some(EN_SESSION_EXPIRED)
    } else if key == "btn_connect"@ {
        Some(EN_BTN_CONNECT)
    } else if key == "ask_phone"@ {
        Some(EN_ASK_PHONE)
    } else if key == "bad_phone"@ {
        Some(EN_BAD_PHONE)
    } else if key == "ask_name"@ {
        Some(EN_ASK_NAME)
    } else if key == "code_sent"@ {
        Some(EN_CODE_SENT)
    } else if key == "ask_code"@ {
        Some(EN_ASK_CODE)
    } else if key == "wrong_code"@ {
        Some(EN_WRONG_CODE)
    } else if key == "connected"@ {
        Some(EN_CONNECTED)
    } else if key == "not_connected"@ {
        Some(EN_NOT_CONNECTED)
    } else if key == "admins_only"@ {
        Some(EN_ADMINS_ONLY)
    } else if key == "cancelled"@ {
        Some(EN_CANCELLED)
    } else if key == "joined"@ {
        Some(EN_JOINED)
    } else if key == "left"@ {
        Some(EN_LEFT)
    } else if key == "renamed"@ {
        Some(EN_RENAMED)
    } else if key == "group_gone"@ {
        Some(EN_GROUP_GONE)
    } else if key == "recent"@ {
        Some(EN_RECENT)
    } else if key == "not_sent"@ {
        Some(EN_NOT_SENT)
    } else if key == "too_long_ask"@ {
        Some(EN_TOO_LONG_ASK)
    } else if key == "btn_send_parts"@ {
        Some(EN_BTN_SEND_PARTS)
    } else if key == "btn_cancel"@ {
        Some(EN_BTN_CANCEL)
    } else if key == "find_usage"@ {
        Some(EN_FIND_USAGE)
    } else if key == "find_none"@ {
        Some(EN_FIND_NONE)
    } else if key == "find_header"@ {
        Some(EN_FIND_HEADER)
    } else if key == "contact_added"@ {
        Some(EN_CONTACT_ADDED)
    } else if key == "language_set"@ {
        Some(EN_LANGUAGE_SET)
    } else if key == "choose_language"@ {
        Some(EN_CHOOSE_LANGUAGE)
    } else if key == "accounts_header"@ {
        Some(EN_ACCOUNTS_HEADER)
    } else if key == "btn_add_account"@ {
        Some(EN_BTN_ADD_ACCOUNT)
    } else if key == "btn_replace_account"@ {
        Some(EN_BTN_REPLACE_ACCOUNT)
    } else if key == "connect_choice"@ {
        Some(EN_CONNECT_CHOICE)
    } else if key == "active_set"@ {
        Some(EN_ACTIVE_SET)
    } else {
        None
    }
}

/// The Hebrew text for a key.
pub open spec fn hebrew_text(key: Seq<char>) -> Option<&'static str> {
    if key == "welcome"@ {
        Some(HE_WELCOME)
    } else if key == "welcome_back"@ {
        Some(HE_WELCOME_BACK)
    } else if key == "session_expired"@ {
        Some(HE_SESSION_EXPIRED)
    } else if key == "btn_connect"@ {
        Some(HE_BTN_CONNECT)
    } else if key == "ask_phone"@ {
        Some(HE_ASK_PHONE)
    } else if key == "bad_phone"@ {
        Some(HE_BAD_PHONE)
    } else if key == "ask_name"@ {
        Some(HE_ASK_NAME)
    } else if key == "code_sent"@ {
        Some(HE_CODE_SENT)
    } else if key == "ask_code"@ {
        Some(HE_ASK_CODE)
    } else if key == "wrong_code"@ {
        Some(HE_WRONG_CODE)
    } else if key == "connected"@ {
        Some(HE_CONNECTED)
    } else if key == "not_connected"@ {
        Some(HE_NOT_CONNECTED)
    } else if key == "admins_only"@ {
        Some(HE_ADMINS_ONLY)
    } else if key == "cancelled"@ {
        Some(HE_CANCELLED)
    } else if key == "joined"@ {
        Some(HE_JOINED)
    } else if key == "left"@ {
        Some(HE_LEFT)
    } else if key == "renamed"@ {
        Some(HE_RENAMED)
    } else if key == "group_gone"@ {
        Some(HE_GROUP_GONE)
    } else if key == "recent"@ {
        Some(HE_RECENT)
    } else if key == "not_sent"@ {
        Some(HE_NOT_SENT)
    } else if key == "too_long_ask"@ {
        Some(HE_TOO_LONG_ASK)
    } else if key == "btn_send_parts"@ {
        Some(HE_BTN_SEND_PARTS)
    } else if key == "btn_cancel"@ {
        Some(HE_BTN_CANCEL)
    } else if key == "find_usage"@ {
        Some(HE_FIND_USAGE)
    } else if key == "find_none"@ {
        Some(HE_FIND_NONE)
    } else if key == "find_header"@ {
        Some(HE_FIND_HEADER)
    } else if key == "contact_added"@ {
        Some(HE_CONTACT_ADDED)
    } else if key == "language_set"@ {
        Some(HE_LANGUAGE_SET)
    } else if key == "choose_language"@ {
        Some(HE_CHOOSE_LANGUAGE)
    } else if key == "accounts_header"@ {
        Some(HE_ACCOUNTS_HEADER)
    } else if key == "btn_add_account"@ {
        Some(HE_BTN_ADD_ACCOUNT)
    } else if key == "btn_replace_account"@ {
        Some(HE_BTN_REPLACE_ACCOUNT)
    } else if key == "connect_choice"@ {
        Some(HE_CONNECT_CHOICE)
    } else if key == "active_set"@ {
        Some(HE_ACTIVE_SET)
    } else {
        None
    }
}

/// The Yiddish text for a key.
pub open spec fn yiddish_text(key: Seq<char>) -> Option<&'static str> {
    if key == "welcome"@ {
        Some(YI_WELCOME)
    } else if key == "welcome_back"@ {
        Some(YI_WELCOME_BACK)
    } else if key == "session_expired"@ {
        Some(YI_SESSION_EXPIRED)
    } else if key == "btn_connect"@ {
        Some(YI_BTN_CONNECT)
    } else if key == "ask_phone"@ {
        Some(YI_ASK_PHONE)
    } else if key == "bad_phone"@ {
        Some(YI_BAD_PHONE)
    } else if key == "ask_name"@ {
        Some(YI_ASK_NAME)
    } else if key == "code_sent"@ {
        Some(YI_CODE_SENT)
    } else if key == "ask_code"@ {
        Some(YI_ASK_CODE)
    } else if key == "wrong_code"@ {
        Some(YI_WRONG_CODE)
    } else if key == "connected"@ {
        Some(YI_CONNECTED)
    } else if key == "not_connected"@ {
        Some(YI_NOT_CONNECTED)
    } else if key == "admins_only"@ {
        Some(YI_ADMINS_ONLY)
    } else if key == "cancelled"@ {
        Some(YI_CANCELLED)
    } else if key == "joined"@ {
        Some(YI_JOINED)
    } else if key == "left"@ {
        Some(YI_LEFT)
    } else if key == "renamed"@ {
        Some(YI_RENAMED)
    } else if key == "group_gone"@ {
        Some(YI_GROUP_GONE)
    } else if key == "recent"@ {
        Some(YI_RECENT)
    } else if key == "not_sent"@ {
        Some(YI_NOT_SENT)
    } else if key == "too_long_ask"@ {
        Some(YI_TOO_LONG_ASK)
    } else if key == "btn_send_parts"@ {
        Some(YI_BTN_SEND_PARTS)
    } else if key == "btn_cancel"@ {
        Some(YI_BTN_CANCEL)
    } else if key == "find_usage"@ {
        Some(YI_FIND_USAGE)
    } else if key == "find_none"@ {
        Some(YI_FIND_NONE)
    } else if key == "find_header"@ {
        Some(YI_FIND_HEADER)
    } else if key == "contact_added"@ {
        Some(YI_CONTACT_ADDED)
    } else if key == "language_set"@ {
        Some(YI_LANGUAGE_SET)
    } else if key == "choose_language"@ {
        Some(YI_CHOOSE_LANGUAGE)
    } else if key == "accounts_header"@ {
        Some(YI_ACCOUNTS_HEADER)
    } else if key == "btn_add_account"@ {
        Some(YI_BTN_ADD_ACCOUNT)
    } else if key == "btn_replace_account"@ {
        Some(YI_BTN_REPLACE_ACCOUNT)
    } else if key == "connect_choice"@ {
        Some(YI_CONNECT_CHOICE)
    } else if key == "active_set"@ {
        Some(YI_ACTIVE_SET)
    } else {
        None
    }
}

/// The text for a key in a language.
pub open spec fn entry(lang: Lang, key: Seq<char>) -> Option<&'static str> {
    match lang {
        Lang::En => english_text(key),
        Lang::He => hebrew_text(key),
        Lang::Yi => yiddish_text(key),
    }
}

fn lookup_english(key: &str) -> (r: Option<&'static str>)
    ensures
        r == english_text(key@),
{
    if same(key, "welcome") {
        Some(EN_WELCOME)
    } else if same(key, "welcome_back") {
        Some(EN_WELCOME_BACK)
    } else if same(key, "session_expired") {
        Some(EN_SESSION_EXPIRED)
    } else if same(key, "btn_connect") {
        Some(EN_BTN_CONNECT)
    } else if same(key, "ask_phone") {
        Some(EN_ASK_PHONE)
    } else if same(key, "bad_phone") {
        Some(EN_BAD_PHONE)
    } else if same(key, "ask_name") {
        Some(EN_ASK_NAME)
    } else if same(key, "code_sent") {
        Some(EN_CODE_SENT)
    } else if same(key, "ask_code") {
        Some(EN_ASK_CODE)
    } else if same(key, "wrong_code") {
        Some(EN_WRONG_CODE)
    } else if same(key, "connected") {
        Some(EN_CONNECTED)
    } else if same(key, "not_connected") {
        Some(EN_NOT_CONNECTED)
    } else if same(key, "admins_only") {
        Some(EN_ADMINS_ONLY)
    } else if same(key, "cancelled") {
        Some(EN_CANCELLED)
    } else if same(key, "joined") {
        Some(EN_JOINED)
    } else if same(key, "left") {
        Some(EN_LEFT)
    } else if same(key, "renamed") {
        Some(EN_RENAMED)
    } else if same(key, "group_gone") {
        Some(EN_GROUP_GONE)
    } else if same(key, "recent") {
        Some(EN_RECENT)
    } else if same(key, "not_sent") {
        Some(EN_NOT_SENT)
    } else if same(key, "too_long_ask") {
        Some(EN_TOO_LONG_ASK)
    } else if same(key, "btn_send_parts") {
        Some(EN_BTN_SEND_PARTS)
    } else if same(key, "btn_cancel") {
        Some(EN_BTN_CANCEL)
    } else if same(key, "find_usage") {
        Some(EN_FIND_USAGE)
    } else if same(key, "find_none") {
        Some(EN_FIND_NONE)
    } else if same(key, "find_header") {
        Some(EN_FIND_HEADER)
    } else if same(key, "contact_added") {
        Some(EN_CONTACT_ADDED)
    } else if same(key, "language_set") {
        Some(EN_LANGUAGE_SET)
    } else if same(key, "choose_language") {
        Some(EN_CHOOSE_LANGUAGE)
    } else if same(key, "accounts_header") {
        Some(EN_ACCOUNTS_HEADER)
    } else if same(key, "btn_add_account") {
        Some(EN_BTN_ADD_ACCOUNT)
    } else if same(key, "btn_replace_account") {
        Some(EN_BTN_REPLACE_ACCOUNT)
    } else if same(key, "connect_choice") {
        Some(EN_CONNECT_CHOICE)
    } else if same(key, "active_set") {
        Some(EN_ACTIVE_SET)
    } else {
        None
    }
}

fn lookup_hebrew(key: &str) -> (r: Option<&'static str>)
    ensures
        r == hebrew_text(key@),
{
    if same(key, "welcome") {
        Some(HE_WELCOME)
    } else if same(key, "welcome_back") {
        Some(HE_WELCOME_BACK)
    } else if same(key, "session_expired") {
        Some(HE_SESSION_EXPIRED)
    } else if same(key, "btn_connect") {
        Some(HE_BTN_CONNECT)
    } else if same(key, "ask_phone") {
        Some(HE_ASK_PHONE)
    } else if same(key, "bad_phone") {
        Some(HE_BAD_PHONE)
    } else if same(key, "ask_name") {
        Some(HE_ASK_NAME)
    } else if same(key, "code_sent") {
        Some(HE_CODE_SENT)
    } else if same(key, "ask_code") {
        Some(HE_ASK_CODE)
    } else if same(key, "wrong_code") {
        Some(HE_WRONG_CODE)
    } else if same(key, "connected") {
        Some(HE_CONNECTED)
    } else if same(key, "not_connected") {
        Some(HE_NOT_CONNECTED)
    } else if same(key, "admins_only") {
        Some(HE_ADMINS_ONLY)
    } else if same(key, "cancelled") {
        Some(HE_CANCELLED)
    } else if same(key, "joined") {
        Some(HE_JOINED)
    } else if same(key, "left") {
        Some(HE_LEFT)
    } else if same(key, "renamed") {
        Some(HE_RENAMED)
    } else if same(key, "group_gone") {
        Some(HE_GROUP_GONE)
    } else if same(key, "recent") {
        Some(HE_RECENT)
    } else if same(key, "not_sent") {
        Some(HE_NOT_SENT)
    } else if same(key, "too_long_ask") {
        Some(HE_TOO_LONG_ASK)
    } else if same(key, "btn_send_parts") {
        Some(HE_BTN_SEND_PARTS)
    } else if same(key, "btn_cancel") {
        Some(HE_BTN_CANCEL)
    } else if same(key, "find_usage") {
        Some(HE_FIND_USAGE)
    } else if same(key, "find_none") {
        Some(HE_FIND_NONE)
    } else if same(key, "find_header") {
        Some(HE_FIND_HEADER)
    } else if same(key, "contact_added") {
        Some(HE_CONTACT_ADDED)
    } else if same(key, "language_set") {
        Some(HE_LANGUAGE_SET)
    } else if same(key, "choose_language") {
        Some(HE_CHOOSE_LANGUAGE)
    } else if same(key, "accounts_header") {
        Some(HE_ACCOUNTS_HEADER)
    } else if same(key, "btn_add_account") {
        Some(HE_BTN_ADD_ACCOUNT)
    } else if same(key, "btn_replace_account") {
        Some(HE_BTN_REPLACE_ACCOUNT)
    } else if same(key, "connect_choice") {
        Some(HE_CONNECT_CHOICE)
    } else if same(key, "active_set") {
        Some(HE_ACTIVE_SET)
    } else {
        None
    }
}

fn lookup_yiddish(key: &str) -> (r: Option<&'static str>)
    ensures
        r == yiddish_text(key@),
{
    if same(key, "welcome") {
        Some(YI_WELCOME)
    } else if same(key, "welcome_back") {
        Some(YI_WELCOME_BACK)
    } else if same(key, "session_expired") {
        Some(YI_SESSION_EXPIRED)
    } else if same(key, "btn_connect") {
        Some(YI_BTN_CONNECT)
    } else if same(key, "ask_phone") {
        Some(YI_ASK_PHONE)
    } else if same(key, "bad_phone") {
        Some(YI_BAD_PHONE)
    } else if same(key, "ask_name") {
        Some(YI_ASK_NAME)
    } else if same(key, "code_sent") {
        Some(YI_CODE_SENT)
    } else if same(key, "ask_code") {
        Some(YI_ASK_CODE)
    } else if same(key, "wrong_code") {
        Some(YI_WRONG_CODE)
    } else if same(key, "connected") {
        Some(YI_CONNECTED)
    } else if same(key, "not_connected") {
        Some(YI_NOT_CONNECTED)
    } else if same(key, "admins_only") {
        Some(YI_ADMINS_ONLY)
    } else if same(key, "cancelled") {
        Some(YI_CANCELLED)
    } else if same(key, "joined") {
        Some(YI_JOINED)
    } else if same(key, "left") {
        Some(YI_LEFT)
    } else if same(key, "renamed") {
        Some(YI_RENAMED)
    } else if same(key, "group_gone") {
        Some(YI_GROUP_GONE)
    } else if same(key, "recent") {
        Some(YI_RECENT)
    } else if same(key, "not_sent") {
        Some(YI_NOT_SENT)
    } else if same(key, "too_long_ask") {
        Some(YI_TOO_LONG_ASK)
    } else if same(key, "btn_send_parts") {
        Some(YI_BTN_SEND_PARTS)
    } else if same(key, "btn_cancel") {
        Some(YI_BTN_CANCEL)
    } else if same(key, "find_usage") {
        Some(YI_FIND_USAGE)
    } else if same(key, "find_none") {
        Some(YI_FIND_NONE)
    } else if same(key, "find_header") {
        Some(YI_FIND_HEADER)
    } else if same(key, "contact_added") {
        Some(YI_CONTACT_ADDED)
    } else if same(key, "language_set") {
        Some(YI_LANGUAGE_SET)
    } else if same(key, "choose_language") {
        Some(YI_CHOOSE_LANGUAGE)
    } else if same(key, "accounts_header") {
        Some(YI_ACCOUNTS_HEADER)
    } else if same(key, "btn_add_account") {
        Some(YI_BTN_ADD_ACCOUNT)
    } else if same(key, "btn_replace_account") {
        Some(YI_BTN_REPLACE_ACCOUNT)
    } else if same(key, "connect_choice") {
        Some(YI_CONNECT_CHOICE)
    } else if same(key, "active_set") {
        Some(YI_ACTIVE_SET)
    } else {
        None
    }
}

/// The text for a key in a language.
pub fn lookup(lang: Lang, key: &str) -> (r: Option<&'static str>)
    ensures
        r == entry(lang, key@),
{
    match lang {
        Lang::En => lookup_english(key),
        Lang::He => lookup_hebrew(key),
        Lang::Yi => lookup_yiddish(key),
    }
}

/// Where the first placeholder of a template stands; its length when there is none.
pub open spec fn hole(s: Seq<char>, from: int) -> int
    decreases s.len() - from,
{
    if from < 0 || from >= s.len() {
        s.len() as int
    } else if occurs_at(s, "{}"@, from) {
        from
    } else {
        hole(s, from + 1)
    }
}

/// The texts of a list of arguments.
pub open spec fn argument_texts(args: Seq<&str>) -> Seq<Seq<char>> {
    Seq::new(args.len(), |i: int| args[i]@)
}

/// A template with its placeholders filled in order; those without an argument vanish.
pub open spec fn filled(s: Seq<char>, args: Seq<Seq<char>>) -> Seq<char>
    decreases s.len(),
{
    let i = hole(s, 0);
    if 0 <= i && i + 2 <= s.len() {
        s.take(i) + (if args.len() > 0 {
            args[0]
        } else {
            Seq::empty()
        }) + filled(
            s.skip(i + 2),
            if args.len() > 0 {
                args.drop_first()
            } else {
                args
            },
        )
    } else {
        s
    }
}

/// The template for a key: in the language, else in English, else the key itself.
pub open spec fn template(lang: Lang, key: Seq<char>) -> Seq<char> {
    match entry(lang, key) {
        Some(t) => t@,
        None => match english_text(key) {
            Some(t) => t@,
            None => key,
        },
    }
}

proof fn lemma_hole(s: Seq<char>, from: int, at: int)
    requires
        0 <= from <= at <= s.len(),
        forall|j: int| from <= j < at ==> !occurs_at(s, "{}"@, j),
        at < s.len() ==> occurs_at(s, "{}"@, at),
    ensures
        hole(s, from) == at,
    decreases at - from,
{
    if from < at {
        lemma_hole(s, from + 1, at);
    }
}

fn fill(s: &str, args: &[&str]) -> (r: String)
    ensures
        r@ == filled(s@, argument_texts(args@)),
{
    let v = chars_of(s);
    let mark = chars_of("{}");
    proof {
        reveal_strlit("{}");
    }
    let mut out = String::new();
    let mut at: usize = 0;
    let mut n: usize = 0;
    assert(v@.skip(0) =~= s@);
    let ghost given = argument_texts(args@);
    assert(given.skip(0) =~= given);
    assert(out@ + filled(v@.skip(0), given.skip(0)) =~= filled(s@, given));
    loop
        invariant
            at <= v.len(),
            n <= args@.len(),
            given == argument_texts(args@),
            v@ == s@,
            mark@ == "{}"@,
            "{}"@.len() == 2,
            out@ + filled(v@.skip(at as int), given.skip(n as int)) == filled(s@, given),
        decreases v.len() - at,
    {
        let ghost rest = v@.skip(at as int);
        match find_from(&v, &mark, at) {
            Some(i) => {
                let piece = string_from(&v, at, i);
                proof {
                    assert forall|j: int| 0 <= j < i - at implies !occurs_at(rest, "{}"@, j) by {
                        assert(!occurs_at(v@, "{}"@, at + j));
                        lemma_shifted(v@, at as int, j);
                    }
                    lemma_shifted(v@, at as int, i - at);
                    lemma_hole(rest, 0, i - at);
                    assert(rest.take(i - at) =~= piece@);
                    assert(rest.skip(i - at + 2) =~= v@.skip(i + 2));
                }
                let ghost before = out@;
                let ghost left = given.skip(n as int);
                out = out.concat(piece.as_str());
                if n < args.len() {
                    out = out.concat(args[n]);
                    assert(left.drop_first() =~= given.skip(n + 1));
                    n += 1;
                }
                at = i + 2;
                assert(filled(rest, left) == piece@ + (if left.len() > 0 {
                    left[0]
                } else {
                    Seq::empty()
                }) + filled(v@.skip(at as int), given.skip(n as int)));
                assert(out@ + filled(v@.skip(at as int), given.skip(n as int)) =~= before + filled(
                    rest,
                    left,
                ));
            },
            None => {
                let piece = string_from(&v, at, v.len());
                proof {
                    assert forall|j: int| 0 <= j < rest.len() implies !occurs_at(rest, "{}"@, j) by {
                        assert(!occurs_at(v@, "{}"@, at + j));
                        lemma_shifted(v@, at as int, j);
                    }
                    lemma_hole(rest, 0, rest.len() as int);
                    assert(piece@ =~= rest);
                }
                return out.concat(piece.as_str());
            },
        }
    }
}

proof fn lemma_shifted(s: Seq<char>, at: int, j: int)
    requires
        0 <= at <= s.len(),
        0 <= j,
    ensures
        occurs_at(s.skip(at), "{}"@, j) == occurs_at(s, "{}"@, at + j),
{
    let p = "{}"@;
    if j + p.len() <= s.len() - at {
        assert(s.skip(at).subrange(j, j + p.len()) =~= s.subrange(at + j, at + j + p.len()));
    }
}

/// The text for a key, with its placeholders filled in order.
pub open spec fn said(lang: Lang, key: Seq<char>, args: Seq<Seq<char>>) -> Seq<char> {
    filled(template(lang, key), args)
}

/// The text for a key without placeholders.
pub fn phrase(lang: Lang, key: &str) -> (r: String)
    ensures
        r@ == said(lang, key@, seq![]),
{
    let none: [&str; 0] = [];
    assert(argument_texts(none@) =~= seq![]);
    t(lang, key, none.as_slice())
}

/// The text for a key with one placeholder.
pub fn phrase_of(lang: Lang, key: &str, arg: &str) -> (r: String)
    ensures
        r@ == said(lang, key@, seq![arg@]),
{
    let one: [&str; 1] = [arg];
    assert(argument_texts(one@) =~= seq![arg@]);
    t(lang, key, one.as_slice())
}

/// The text for `key`, with its `{}` placeholders filled in order.
pub fn t(lang: Lang, key: &str, args: &[&str]) -> (r: String)
    ensures
        r@ == said(lang, key@, argument_texts(args@)),
{
    match lookup(lang, key) {
        Some(s) => fill(s, args),
        None => match lookup_english(key) {
            Some(s) => fill(s, args),
            None => fill(key, args),
        },
    }
}

/// Every text exists in every language.
pub proof fn law_languages_complete(key: Seq<char>, a: Lang, b: Lang)
    ensures
        entry(a, key) is Some == entry(b, key) is Some,
{
}

} // verus!
