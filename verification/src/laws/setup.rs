//! The bridge's configuration.

use crate::bridge::config::{
    app_path, next_startup_pause, parse_key, setting, webhook_path, without_slashes_at_end, Config,
    Settings,
};
use crate::numbers::{parsed_i64, parsed_u32};
use crate::seal::base64_text;
use crate::text::trim;
use vstd::prelude::*;

verus! {

/// A value counts without the white space around it, and not at all where nothing else is there.
pub open spec fn given(v: Option<String>) -> bool {
    v matches Some(s) && trim(s@).len() > 0
}

/// `x` is the value that was given, or the default where none was.
pub open spec fn value_or_default(v: Option<String>, x: Seq<char>, d: Seq<char>) -> bool {
    if given(v) {
        x == trim(v->0@)
    } else {
        x == d
    }
}

/// How a value is read.
pub proof fn law_setting(v: &Option<String>, r: Option<String>)
    requires
        call_ensures(setting, (v,), r),
    ensures
        given(*v) ==> (r matches Some(s) && s@ == trim((*v)->0@)),
        !given(*v) ==> r is None,
{
}

/// What must be given is given, and every value that may be left out has its default.
pub proof fn law_configuration(s: &Settings, r: Result<Config, String>)
    requires
        call_ensures(Config::from_env, (s,), r),
    ensures
        !given(s.teloxide_token) && !given(s.telegram_bot_token) ==> r is Err,
        !given(s.directus_token) ==> r is Err,
        !given(s.master_key) ==> r is Err,
        r matches Ok(c) ==> {
            &&& given(s.teloxide_token) ==> c.telegram_token@ == trim(s.teloxide_token->0@)
            &&& !given(s.teloxide_token) ==> c.telegram_token@ == trim(s.telegram_bot_token->0@)
            &&& c.directus_token@ == trim(s.directus_token->0@)
            &&& base64_text(c.master_key@) == trim(s.master_key->0@)
            &&& given(s.master_key_previous) <==> c.master_key_previous is Some
            &&& given(s.master_key_previous) ==> base64_text(c.master_key_previous->0@) == trim(
                s.master_key_previous->0@,
            )
            &&& value_or_default(s.tzibbur_base_url, c.tzibbur_base_url@, "https://api.tzibbur.me"@)
            &&& value_or_default(s.data_dir, c.data_dir@, "./data"@)
            &&& value_or_default(s.listen, c.listen@, "0.0.0.0:8080"@)
            &&& value_or_default(s.collection_prefix, c.collection_prefix@, "bridge_"@)
            &&& value_or_default(s.default_region, c.default_region@, "US"@)
            &&& value_or_default(s.platform, c.device.platform@, "android"@)
            &&& value_or_default(s.device_model, c.device.model@, "Pixel 7"@)
            &&& value_or_default(s.app_version, c.device.app_version@, "0.1.0"@)
            &&& value_or_default(s.os_version, c.device.os_version@, "14"@)
            &&& given(s.public_url) <==> c.public_url is Some
            &&& !given(s.history_import) ==> c.history_import == 20
            &&& given(s.history_import) && parsed_u32(trim(s.history_import->0@)) is Some
                ==> c.history_import == parsed_u32(trim(s.history_import->0@))->0
            &&& !given(s.admin_telegram_id) ==> c.admin_telegram_id is None
            &&& given(s.admin_telegram_id) ==> c.admin_telegram_id == parsed_i64(
                trim(s.admin_telegram_id->0@),
            )
        },
{
}

/// A key is 32 bytes in base64, and is read as those bytes.
pub proof fn law_key(name: &str, text: &str, b: Seq<u8>, r: Result<[u8; 32], String>)
    requires
        call_ensures(parse_key, (name, text), r),
        text@ == base64_text(b),
    ensures
        b.len() == 32 ==> (r matches Ok(k) && k@ == b),
        b.len() != 32 ==> r is Err,
{
    if let Ok(k) = r {
        crate::seal::law_base64_injective(k@, b);
    } else if b.len() == 32 {
        let d = choose|d: Seq<u8>| #[trigger] base64_text(d) == text@ && d.len() != 32;
        crate::seal::law_base64_injective(b, d);
    }
}

/// The pause at the start doubles up to fifteen seconds.
pub proof fn law_startup_pause(ms: u64, r: u64)
    requires
        call_ensures(next_startup_pause, (ms,), r),
    ensures
        ms < 7_500 ==> r == 2 * ms,
        ms >= 7_500 ==> r == 15_000,
{
}

proof fn lemma_slashes(p: Seq<char>)
    ensures
        without_slashes_at_end(p).len() == 0 || without_slashes_at_end(p).last() != '/',
        without_slashes_at_end(p.push('/')) == without_slashes_at_end(p),
    decreases p.len(),
{
    assert(p.push('/').drop_last() =~= p);
    if p.len() > 0 && p.last() == '/' {
        lemma_slashes(p.drop_last());
    }
}

/// The paths that Telegram and the page are served under: slashes at the end of the public path do
/// not count.
pub proof fn law_served_paths(path: &str, more: &str, a: String, b: String, c: String, d: String)
    requires
        call_ensures(webhook_path, (path,), a),
        call_ensures(app_path, (path,), b),
        call_ensures(webhook_path, (more,), c),
        call_ensures(app_path, (more,), d),
        more@ == path@.push('/'),
    ensures
        path@.len() == 0 || path@.last() != '/' ==> a@ == path@ + "/telegram/webhook"@ && b@ == path@
            + "/app"@,
        a@ == c@ && b@ == d@,
{
    lemma_slashes(path@);
}

} // verus!
