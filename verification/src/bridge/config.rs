//! Configuration from environment values.

use crate::constants::DEFAULT_BASE_URL;
use crate::http::{read_url, url_read, DeviceInfo};
use crate::models::opt_text;
use crate::numbers::{decimal, parse_i64, parse_u32, parsed_i64, parsed_u32, show_usize};
use crate::seal::{base64_decode, base64_text};
use crate::text::{trim, trimmed};
use vstd::prelude::*;

verus! {

/// The environment values the bridge reads, as they are set.
#[derive(Debug)]
pub struct Settings {
    /// `TELOXIDE_TOKEN`
    pub teloxide_token: Option<String>,
    /// `TELEGRAM_BOT_TOKEN`
    pub telegram_bot_token: Option<String>,
    /// `DIRECTUS_URL`
    pub directus_url: Option<String>,
    /// `DIRECTUS_TOKEN`
    pub directus_token: Option<String>,
    /// `BRIDGE_MASTER_KEY`
    pub master_key: Option<String>,
    /// `BRIDGE_MASTER_KEY_PREVIOUS`
    pub master_key_previous: Option<String>,
    /// `TZIBBUR_BASE_URL`
    pub tzibbur_base_url: Option<String>,
    /// `BRIDGE_DATA_DIR`
    pub data_dir: Option<String>,
    /// `BRIDGE_PUBLIC_URL`
    pub public_url: Option<String>,
    /// `BRIDGE_LISTEN`
    pub listen: Option<String>,
    /// `BRIDGE_HISTORY_IMPORT`
    pub history_import: Option<String>,
    /// `BRIDGE_COLLECTION_PREFIX`
    pub collection_prefix: Option<String>,
    /// `BRIDGE_DEFAULT_REGION`
    pub default_region: Option<String>,
    /// `BRIDGE_ADMIN_TELEGRAM_ID`
    pub admin_telegram_id: Option<String>,
    /// `TZIBBUR_PLATFORM`
    pub platform: Option<String>,
    /// `TZIBBUR_DEVICE_MODEL`
    pub device_model: Option<String>,
    /// `TZIBBUR_APP_VERSION`
    pub app_version: Option<String>,
    /// `TZIBBUR_OS_VERSION`
    pub os_version: Option<String>,
}

/// The configuration of the bridge.
#[derive(Debug)]
pub struct Config {
    /// Bot token.
    pub telegram_token: String,
    /// Base URL of the database.
    pub directus_url: String,
    pub directus_token: String,
    /// Key that everything at rest is encrypted under.
    pub master_key: [u8; 32],
    /// The key before it, while keys rotate.
    pub master_key_previous: Option<[u8; 32]>,
    pub tzibbur_base_url: String,
    /// Directory of the per-account caches.
    pub data_dir: String,
    /// Public HTTPS URL of the bridge.
    pub public_url: Option<String>,
    /// Bind address of the HTTP server.
    pub listen: String,
    /// Recent messages per group to import when a topic is created.
    pub history_import: u32,
    /// Prefix of the database collections.
    pub collection_prefix: String,
    /// Country of phone numbers typed without a country code.
    pub default_region: String,
    /// Who is told when something is wrong.
    pub admin_telegram_id: Option<i64>,
    /// How the bridge presents itself to the server.
    pub device: DeviceInfo,
}

/// What a value counts as: trimmed, and nothing where nothing is left.
pub open spec fn set_to(v: Option<String>) -> Option<Seq<char>> {
    match v {
        Some(s) => if trim(s@).len() > 0 {
            Some(trim(s@))
        } else {
            None
        },
        None => None,
    }
}

/// What a value counts as: trimmed, and nothing where nothing is left.
pub fn setting(v: &Option<String>) -> (r: Option<String>)
    ensures
        opt_text(r) == set_to(*v),
{
    match v {
        Some(s) => {
            let t = trimmed(s.as_str());
            if t.as_str().is_empty() {
                None
            } else {
                Some(t)
            }
        },
        None => None,
    }
}

/// What a value counts as, with a default.
pub open spec fn set_or(v: Option<String>, d: Seq<char>) -> Seq<char> {
    match set_to(v) {
        Some(s) => s,
        None => d,
    }
}

fn setting_or(v: &Option<String>, d: &str) -> (r: String)
    ensures
        r@ == set_or(*v, d@),
{
    match setting(v) {
        Some(s) => s,
        None => d.to_owned(),
    }
}

/// The bytes of a key.
pub open spec fn key_is(name: Seq<char>, text: Seq<char>, r: Result<[u8; 32], String>) -> bool {
    match r {
        Ok(k) => base64_text(k@) == text,
        Err(m) => {
            ||| (forall|b: Seq<u8>| #[trigger] base64_text(b) != text) && m@ == name
                + " is not valid base64"@
            ||| exists|b: Seq<u8>| #[trigger]
                base64_text(b) == text && b.len() != 32 && m@ == name
                    + " must decode to exactly 32 bytes, got "@ + decimal(b.len())
        },
    }
}

/// Read a key of 32 bytes from base64; `name` says which in a refusal.
pub fn parse_key(name: &str, text: &str) -> (r: Result<[u8; 32], String>)
    ensures
        key_is(name@, text@, r),
{
    let bytes = match base64_decode(text) {
        Ok(b) => b,
        Err(_) => {
            return Err(name.to_owned().concat(" is not valid base64"));
        },
    };
    assert(base64_text(bytes@) == text@);
    if bytes.len() != 32 {
        return Err(
            name.to_owned().concat(" must decode to exactly 32 bytes, got ").concat(
                show_usize(bytes.len()).as_str(),
            ),
        );
    }
    let mut key: [u8; 32] = [0u8; 32];
    let mut i: usize = 0;
    while i < 32
        invariant
            i <= 32,
            bytes@.len() == 32,
            forall|k: int| 0 <= k < i ==> key@[k] == bytes@[k],
        decreases 32 - i,
    {
        key[i] = bytes[i];
        i += 1;
    }
    assert(key@ =~= bytes@);
    Ok(key)
}

/// The bot token, under either of its names.
pub open spec fn token_in(s: Settings) -> Option<Seq<char>> {
    if set_to(s.teloxide_token) is Some {
        set_to(s.teloxide_token)
    } else {
        set_to(s.telegram_bot_token)
    }
}

/// Message of a missing master key.
pub const KEY_REQUIRED: &'static str = "BRIDGE_MASTER_KEY is required (32 random bytes, base64). Generate with: openssl rand -base64 32";

/// The first thing that is wrong with the values, up to the master key.
pub open spec fn settings_fault(s: Settings) -> Option<Seq<char>> {
    if token_in(s) is None {
        Some("TELOXIDE_TOKEN is required"@)
    } else if url_read(set_or(s.directus_url, "http://localhost:8055"@)) is Err {
        Some("DIRECTUS_URL is not a valid URL"@)
    } else if set_to(s.directus_token) is None {
        Some("DIRECTUS_TOKEN is required"@)
    } else if set_to(s.master_key) is None {
        Some(KEY_REQUIRED@)
    } else {
        None
    }
}

/// A key can be read from the value.
pub open spec fn key_readable(text: Seq<char>) -> bool {
    exists|b: Seq<u8>| #[trigger] base64_text(b) == text && b.len() == 32
}

/// The public URL is absent or valid.
pub open spec fn public_ok(s: Settings) -> bool {
    set_to(s.public_url) matches Some(u) ==> url_read(u) is Ok
}

/// `c` is the configuration for the values.
pub open spec fn configured(s: Settings, c: Config) -> bool {
    &&& token_in(s) == Some(c.telegram_token@)
    &&& url_read(set_or(s.directus_url, "http://localhost:8055"@)) matches Ok(u) && u.0
        == c.directus_url@
    &&& set_to(s.directus_token) == Some(c.directus_token@)
    &&& set_to(s.master_key) == Some(base64_text(c.master_key@))
    &&& set_to(s.master_key_previous) == (match c.master_key_previous {
        Some(k) => Some(base64_text(k@)),
        None => None,
    })
    &&& c.tzibbur_base_url@ == set_or(s.tzibbur_base_url, DEFAULT_BASE_URL@)
    &&& c.data_dir@ == set_or(s.data_dir, "./data"@)
    &&& match set_to(s.public_url) {
        Some(u) => c.public_url is Some && url_read(u) is Ok && c.public_url->0@ == (url_read(
            u,
        )->Ok_0).0,
        None => c.public_url is None,
    }
    &&& c.listen@ == set_or(s.listen, "0.0.0.0:8080"@)
    &&& c.history_import == (match set_to(s.history_import) {
        Some(v) => match parsed_u32(v) {
            Some(n) => n,
            None => 20u32,
        },
        None => 20u32,
    })
    &&& c.collection_prefix@ == set_or(s.collection_prefix, "bridge_"@)
    &&& c.default_region@ == set_or(s.default_region, "US"@)
    &&& c.admin_telegram_id == (match set_to(s.admin_telegram_id) {
        Some(v) => parsed_i64(v),
        None => None,
    })
    &&& c.device.platform@ == set_or(s.platform, "android"@)
    &&& c.device.model@ == set_or(s.device_model, "Pixel 7"@)
    &&& c.device.app_version@ == set_or(s.app_version, "0.1.0"@)
    &&& c.device.os_version@ == set_or(s.os_version, "14"@)
}

/// What the values amount to: a configuration, or the first thing that is wrong.
pub open spec fn config_is(s: Settings, r: Result<Config, String>) -> bool {
    match settings_fault(s) {
        Some(m) => r matches Err(e) && e@ == m,
        None => {
            let key = set_to(s.master_key)->0;
            let prev = set_to(s.master_key_previous);
            if !key_readable(key) {
                r matches Err(e) && key_is("BRIDGE_MASTER_KEY"@, key, Err(e))
            } else if prev is Some && !key_readable(prev->0) {
                r matches Err(e) && key_is("BRIDGE_MASTER_KEY_PREVIOUS"@, prev->0, Err(e))
            } else if !public_ok(s) {
                r matches Err(e) && e@ == "BRIDGE_PUBLIC_URL is not a valid URL"@
            } else {
                r matches Ok(c) && configured(s, c)
            }
        },
    }
}

proof fn lemma_key(name: Seq<char>, text: Seq<char>, r: Result<[u8; 32], String>)
    requires
        key_is(name, text, r),
    ensures
        r is Ok == key_readable(text),
{
    if r is Ok {
        assert((r->Ok_0)@.len() == 32);
        assert(base64_text((r->Ok_0)@) == text);
    } else if key_readable(text) {
        let b = choose|b: Seq<u8>| #[trigger] base64_text(b) == text && b.len() == 32;
        let d = choose|d: Seq<u8>| #[trigger] base64_text(d) == text && d.len() != 32;
        crate::seal::law_base64_injective(b, d);
    }
}

impl Config {
    /// Read the configuration from the environment values.
    pub fn from_env(s: &Settings) -> (r: Result<Self, String>)
        ensures
            config_is(*s, r),
    {
        let telegram_token = match setting(&s.teloxide_token) {
            Some(t) => t,
            None => match setting(&s.telegram_bot_token) {
                Some(t) => t,
                None => {
                    return Err("TELOXIDE_TOKEN is required".to_owned());
                },
            },
        };
        let directus_url = match read_url(
            setting_or(&s.directus_url, "http://localhost:8055").as_str(),
        ) {
            Ok((full, _)) => full,
            Err(_) => {
                return Err("DIRECTUS_URL is not a valid URL".to_owned());
            },
        };
        let directus_token = match setting(&s.directus_token) {
            Some(t) => t,
            None => {
                return Err("DIRECTUS_TOKEN is required".to_owned());
            },
        };
        let key_text = match setting(&s.master_key) {
            Some(t) => t,
            None => {
                return Err(KEY_REQUIRED.to_owned());
            },
        };
        let parsed = parse_key("BRIDGE_MASTER_KEY", key_text.as_str());
        proof {
            lemma_key("BRIDGE_MASTER_KEY"@, key_text@, parsed);
        }
        let master_key = match parsed {
            Ok(k) => k,
            Err(e) => {
                return Err(e);
            },
        };
        let master_key_previous = match setting(&s.master_key_previous) {
            Some(t) => {
                let parsed = parse_key("BRIDGE_MASTER_KEY_PREVIOUS", t.as_str());
                proof {
                    lemma_key("BRIDGE_MASTER_KEY_PREVIOUS"@, t@, parsed);
                }
                match parsed {
                    Ok(k) => Some(k),
                    Err(e) => {
                        return Err(e);
                    },
                }
            },
            None => None,
        };
        let public_url = match setting(&s.public_url) {
            Some(u) => match read_url(u.as_str()) {
                Ok((full, _)) => Some(full),
                Err(_) => {
                    return Err("BRIDGE_PUBLIC_URL is not a valid URL".to_owned());
                },
            },
            None => None,
        };
        let history_import: u32 = match setting(&s.history_import) {
            Some(v) => match parse_u32(v.as_str()) {
                Some(n) => n,
                None => 20,
            },
            None => 20,
        };
        let admin_telegram_id: Option<i64> = match setting(&s.admin_telegram_id) {
            Some(v) => parse_i64(v.as_str()),
            None => None,
        };
        Ok(
            Config {
                telegram_token,
                directus_url,
                directus_token,
                master_key,
                master_key_previous,
                tzibbur_base_url: setting_or(&s.tzibbur_base_url, DEFAULT_BASE_URL),
                data_dir: setting_or(&s.data_dir, "./data"),
                public_url,
                listen: setting_or(&s.listen, "0.0.0.0:8080"),
                history_import,
                collection_prefix: setting_or(&s.collection_prefix, "bridge_"),
                default_region: setting_or(&s.default_region, "US"),
                admin_telegram_id,
                device: DeviceInfo {
                    platform: setting_or(&s.platform, "android"),
                    model: setting_or(&s.device_model, "Pixel 7"),
                    app_version: setting_or(&s.app_version, "0.1.0"),
                    os_version: setting_or(&s.os_version, "14"),
                },
            },
        )
    }
}

/// Longest pause between two tries to reach the database at the start, in milliseconds.
pub const LONGEST_STARTUP_PAUSE: u64 = 15_000;

/// Tries to reach the database at the start.
pub const STARTUP_TRIES: u32 = 30;

/// The pause after another failed try to reach the database: twice the last one, up to a limit.
pub fn next_startup_pause(ms: u64) -> (r: u64)
    ensures
        r == (if 2 * ms < LONGEST_STARTUP_PAUSE {
            (2 * ms) as u64
        } else {
            LONGEST_STARTUP_PAUSE
        }),
{
    if ms < LONGEST_STARTUP_PAUSE && 2 * ms < LONGEST_STARTUP_PAUSE {
        2 * ms
    } else {
        LONGEST_STARTUP_PAUSE
    }
}

/// A path without the slashes at its end.
pub open spec fn without_slashes_at_end(p: Seq<char>) -> Seq<char>
    decreases p.len(),
{
    if p.len() > 0 && p.last() == '/' {
        without_slashes_at_end(p.drop_last())
    } else {
        p
    }
}

/// A path without the slashes at its end.
fn trim_slashes(p: &str) -> (r: String)
    ensures
        r@ == without_slashes_at_end(p@),
{
    let v = crate::text::chars_of(p);
    let mut n: usize = v.len();
    assert(p@.take(n as int) =~= p@);
    while n > 0 && v[n - 1] == '/'
        invariant
            n <= v.len(),
            v@ == p@,
            without_slashes_at_end(p@) == without_slashes_at_end(p@.take(n as int)),
        decreases n,
    {
        assert(p@.take(n as int).drop_last() =~= p@.take(n - 1));
        n -= 1;
    }
    assert(v@.subrange(0, n as int) =~= p@.take(n as int));
    crate::text::string_from(&v, 0, n)
}

/// The path of the webhook under a public URL with the given path.
pub fn webhook_path(public_path: &str) -> (r: String)
    ensures
        r@ == without_slashes_at_end(public_path@) + "/telegram/webhook"@,
{
    trim_slashes(public_path).concat("/telegram/webhook")
}

/// The path of the login page under a public URL with the given path.
pub fn app_path(public_path: &str) -> (r: String)
    ensures
        r@ == without_slashes_at_end(public_path@) + "/app"@,
{
    trim_slashes(public_path).concat("/app")
}

} // verus!
