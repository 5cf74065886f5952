//! Sessions under lock, refusals that are explained, and answers that commands give.

use crate::bridge::outbound::{
    explain_rejection, rejection_reason, unlock, Explanation, Unlocked,
};
use crate::bridge::records::{Account, Conversation, MessageMap};
use crate::bridge::i18n::Lang;
use crate::crypto::{
    law_session_roundtrip, sealed_for, KeyRing, Opened, SessionCipher,
};
use crate::error::AppError;
use crate::http::{command_reply, CommandReply};
use crate::json::{member_of, Json};
use crate::models::{CategoriesEnvelope, GroupDto, ThemeOverride};
use crate::numbers::{decimal, decimal_int, parsed_i32};
use crate::session::{
    law_token_roundtrip, persist, restore, AesGcmCipher, AppPrefs, SecretCipher, SessionFile,
    StoredSession,
};
use vstd::prelude::*;

verus! {

/// A session that is written is read back: the same user, the same device and the same token.
pub proof fn law_session_kept<C: SecretCipher>(
    s: StoredSession,
    cipher: &C,
    f: SessionFile,
    r: Result<Option<StoredSession>, AppError>,
)
    requires
        call_ensures(persist::<C>, (s, cipher), Ok::<SessionFile, AppError>(f)),
        call_ensures(restore::<C>, (f, cipher), r),
    ensures
        r matches Ok(Some(t)) && t.user == s.user && t.device == s.device && t.token@ == s.token@,
{
    if let Ok(Some(t)) = r {
        law_token_roundtrip(*cipher, s.token@, t.token@, f.token_ciphertext->0@);
    }
}

/// A file that lacks the user, the device or the token holds no session.
pub proof fn law_no_session<C: SecretCipher>(
    f: SessionFile,
    cipher: &C,
    r: Result<Option<StoredSession>, AppError>,
)
    requires
        call_ensures(restore::<C>, (f, cipher), r),
        f.user is None || f.device is None || f.token_ciphertext is None,
    ensures
        r matches Ok(None),
{
}

/// A preference is set alone.
pub proof fn law_preferences_set(env: CategoriesEnvelope, t: ThemeOverride)
    ensures
        forall|p: &mut AppPrefs| #[trigger]
            call_ensures(AppPrefs::set_categories, (p, env), ()) ==> final(p).categories == Some(env)
                && final(p).theme_override == p.theme_override,
        forall|p: &mut AppPrefs| #[trigger]
            call_ensures(AppPrefs::set_theme_override, (p, t), ()) ==> final(p).theme_override == t
                && final(p).categories == p.categories,
{
}

/// An account without a stored session is not unlocked. One whose session was stored under the
/// current key gives its token, and nothing is stored anew.
pub proof fn law_unlock(
    c: &SessionCipher,
    account: &Account,
    token: &str,
    context: &str,
    sealed: String,
    r: Result<Unlocked, String>,
)
    requires
        call_ensures(unlock, (c, account), r),
        call_ensures(SessionCipher::encrypt, (c, token, context), Ok::<String, String>(sealed)),
        context@ == account.tzibbur_user_id@,
    ensures
        account.encrypted_session is None ==> (r matches Err(m) && m@ == "account "@ + decimal_int(
            account.id as int,
        ) + " has no session"@),
        account.encrypted_session is Some && account.encrypted_session->0@ == sealed@ ==> (
        r matches Ok(u) && u.token@ == token@ && u.fresh is None),
{
    if account.encrypted_session is Some && account.encrypted_session->0@ == sealed@ {
        let o = choose|o: Result<Opened, String>| #[trigger]
            crate::crypto::decrypts_to(c.keys(), sealed@, context@, o) && (match o {
                Err(m) => r matches Err(e) && e@ == m@,
                Ok(op) => if op.rewrap && vstd::utf8::encode_utf8(op.token@).len()
                    > crate::seal::GCM_MAX_PLAIN {
                    r matches Err(e) && e@ == "encrypt session"@
                } else {
                    r matches Ok(u) && u.token@ == op.token@ && (match u.fresh {
                        Some(f) => op.rewrap && sealed_for(c.keys(), op.token@, context@, f@),
                        None => !op.rewrap,
                    })
                },
            });
        law_session_roundtrip(c.keys(), token@, context@, sealed@, o);
    }
}

/// There is a key of the cache under the previous master key where there is such a key.
pub proof fn law_previous_keys(ring: &KeyRing, context: &str, r: Vec<[u8; 32]>)
    requires
        call_ensures(KeyRing::previous_cache_keys, (ring, context), r),
    ensures
        ring.before() is Some <==> r@.len() == 1,
        ring.before() is None <==> r@.len() == 0,
{
}

/// After a rotation the key that the cache had is among the previous ones.
pub proof fn law_cache_key_rotated(
    old: &KeyRing,
    new: &KeyRing,
    context: &str,
    a: [u8; 32],
    r: Vec<[u8; 32]>,
)
    requires
        new.before() == Some(old.now()),
        call_ensures(KeyRing::cache_key, (old, context), a),
        call_ensures(KeyRing::previous_cache_keys, (new, context), r),
    ensures
        r@.len() == 1 && r@[0]@ == a@,
{
}

/// A rejection is explained where the message and its conversation are known: under that message,
/// in the topic of that conversation.
pub proof fn law_explanation(
    code: &str,
    map: &Option<MessageMap>,
    conv: &Option<Conversation>,
    group: &Option<GroupDto>,
    lang: Lang,
    r: Option<Explanation>,
)
    requires
        call_ensures(explain_rejection, (code, map, conv, group, lang), r),
    ensures
        *map is None || *conv is None ==> r is None,
        *map is Some && (*map)->0.telegram_message_id is None ==> r is None,
        *map is Some && *conv is Some && (*map)->0.telegram_message_id is Some ==> (r is Some
            <==> parsed_i32((*map)->0.telegram_message_id->0@) is Some),
        r matches Some(e) ==> Some(e.reply_to) == parsed_i32((*map)->0.telegram_message_id->0@),
        r matches Some(e) ==> ((*conv)->0.telegram_topic_id is None ==> e.topic is None),
        r matches Some(e) ==> ((*conv)->0.telegram_topic_id matches Some(t) ==> e.topic
            == parsed_i32(t@)),
{
}

/// A group that is too small is told with the number that it needs; a code that is not known is
/// shown.
pub proof fn law_reason_numbers(code: &str, group: &Option<GroupDto>, n: u32, r: String)
    requires
        call_ensures(rejection_reason, (code, group), r),
        *group is Some && (*group)->0.limits is Some && (*group)->0.limits->0.min_members_to_post
            == Some(n),
    ensures
        code@ == "group-too-small"@ ==> r@ == "Tzibbur needs "@ + decimal(n as nat)
            + " members before anyone can post; the group has "@ + decimal_int(
            (*group)->0.member_count as int,
        ) + ". Add members with /add and this message will be sent automatically"@,
        code@ == "forbidden"@ && 0 <= (*group)->0.member_count < n ==> r@
            == "this group needs at least "@ + decimal(n as nat)
            + " members before anyone can post (it has "@ + decimal_int(
            (*group)->0.member_count as int,
        ) + "). Add members with /add"@,
        code@ == "forbidden"@ && (*group)->0.member_count >= n ==> r@
            == "you are not allowed to post in this group"@,
        code@ == "invalid-message"@ ==> r@ == "the message was rejected (max "@ + decimal(1000)
            + " characters)"@,
        code@ != "group-too-small"@ && code@ != "forbidden"@ && code@ != "posting-not-allowed"@
            && code@ != "adding-members-not-allowed"@ && code@ != "admin-required"@ && code@
            != "leave-not-allowed"@ && code@ != "not-found"@ && code@ != "invalid-message"@ && code@
            != "unauthorized"@ && code@ != "device-blocked"@ ==> r@ == "error `"@ + code@ + "`"@,
{
    reveal_strlit("group-too-small");
    reveal_strlit("forbidden");
    reveal_strlit("posting-not-allowed");
    reveal_strlit("adding-members-not-allowed");
    reveal_strlit("admin-required");
    reveal_strlit("leave-not-allowed");
    reveal_strlit("not-found");
    reveal_strlit("unauthorized");
    reveal_strlit("device-blocked");
    reveal_strlit("invalid-message");
    assert("forbidden"@.len() == 9 && "not-found"@.len() == 9);
    assert("invalid-message"@.len() == 15 && "group-too-small"@.len() == 15);
    assert("leave-not-allowed"@.len() == 17 && "posting-not-allowed"@.len() == 19);
    assert("adding-members-not-allowed"@.len() == 26 && "admin-required"@.len() == 14);
    assert("unauthorized"@.len() == 12 && "device-blocked"@.len() == 14);
    assert("group-too-small"@[0] == 'g');
    assert("invalid-message"@[0] == 'i');
    assert("forbidden"@[0] == 'f');
    assert("not-found"@[0] == 'n');
}

/// A reply holds a command's answer where an object under `command` has a text; the answer is what
/// its members say.
pub proof fn law_command_reply(
    raw: &Json,
    o: Vec<(String, Json)>,
    c: Vec<(String, Json)>,
    t: String,
    r: Option<CommandReply>,
)
    requires
        call_ensures(command_reply, (raw,), r),
        *raw == Json::Obj(o),
    ensures
        member_of(o@, "command"@) is None ==> r is None,
        member_of(o@, "command"@) == Some(Json::Obj(c)) && member_of(c@, "text"@) is None
            ==> r is None,
        member_of(o@, "command"@) == Some(Json::Obj(c)) && member_of(c@, "text"@) == Some(
            Json::Str(t),
        ) ==> r is Some && r->0.text@ == t@,
        member_of(o@, "command"@) == Some(Json::Obj(c)) && r is Some ==> (r->0.ok <==> member_of(
            c@,
            "ok"@,
        ) == Some(Json::Bool(true))),
        member_of(o@, "command"@) == Some(Json::Obj(c)) && r is Some && member_of(c@, "name"@)
            == Some(Json::Str(t)) ==> r->0.name@ == t@,
        member_of(o@, "command"@) == Some(Json::Obj(c)) && r is Some && member_of(c@, "code"@)
            == Some(Json::Str(t)) ==> r->0.code@ == t@,
{
}

/// A key folded from a secret has 32 bytes, and one more byte of the secret touches two of them.
pub proof fn law_folded_key(secret: &[u8], a: AesGcmCipher, longer: &[u8], b: AesGcmCipher, i: int)
    requires
        call_ensures(AesGcmCipher::from_secret, (secret,), a),
        call_ensures(AesGcmCipher::from_secret, (longer,), b),
        longer@.len() == secret@.len() + 1,
        longer@.take(secret@.len() as int) == secret@,
        0 <= i < 32,
    ensures
        secret@.len() == 0 ==> a.secret().len() == 32 && a.secret()[i] == 0,
        i != secret@.len() % 32 && i != (secret@.len() * 7 + 3) % 32 ==> b.secret()[i]
            == a.secret()[i],
{
    lemma_folded_prefix(secret@, longer@, secret@.len());
    lemma_folded_len(secret@, secret@.len());
}

proof fn lemma_folded_len(s: Seq<u8>, n: nat)
    requires
        n <= s.len(),
    ensures
        crate::session::folded_key(s, n).len() == 32,
    decreases n,
{
    if n > 0 {
        lemma_folded_len(s, (n - 1) as nat);
    }
}

proof fn lemma_folded_prefix(s: Seq<u8>, t: Seq<u8>, n: nat)
    requires
        n <= s.len() <= t.len(),
        t.take(s.len() as int) == s,
    ensures
        crate::session::folded_key(s, n) == crate::session::folded_key(t, n),
    decreases n,
{
    if n > 0 {
        lemma_folded_prefix(s, t, (n - 1) as nat);
        assert(t.take(s.len() as int)[n - 1] == t[n - 1]);
    }
}

} // verus!
