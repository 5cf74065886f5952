//! Keys for data at rest.
//!
//! The master key never encrypts anything itself. Every secret gets its own key, derived from the
//! master key, a purpose and the account it belongs to, so that a leaked text is useless without
//! both. With the previous master key at hand, old texts still open and ask to be wrapped anew.

use crate::seal::{
    base64_decode, base64_encode, base64_text, derive_key, hkdf_sha256, law_base64_injective,
    push_all, utf8_decode, GCM_MAX_PLAIN,
};
use crate::session::{wire_opens, AesGcmCipher, SecretCipher};
use crate::text::{begins_with, skip_chars, starts_with};
use vstd::prelude::*;
use vstd::utf8::{
    decode_utf8, encode_utf8, encode_utf8_decode_utf8, encode_utf8_valid_utf8,
    is_ascii_chars_encode_utf8, valid_utf8,
};

verus! {

/// Salt of every derivation.
pub const SALT: &'static str = "untzibburbot/v1";

/// Start of a text that is bound to an account.
pub const V2_PREFIX: &'static str = "v2:";

/// Purpose of the keys of local caches.
pub const CACHE: &'static str = "cache";

/// Purpose of the keys of session tokens.
pub const SESSION: &'static str = "session";

/// What a derivation is bound to: the purpose, a zero byte, the context.
pub open spec fn binding(purpose: Seq<char>, context: Seq<char>) -> Seq<u8> {
    encode_utf8(purpose) + seq![0u8] + encode_utf8(context)
}

/// The key for a purpose and a context.
pub open spec fn derived(master: Seq<u8>, purpose: Seq<char>, context: Seq<char>) -> Seq<u8> {
    hkdf_sha256(encode_utf8(SALT@), master, binding(purpose, context))
}

fn derive(master: &[u8; 32], purpose: &str, context: &str) -> (r: [u8; 32])
    ensures
        r@ == derived(master@, purpose@, context@),
{
    let mut info: Vec<u8> = Vec::new();
    push_all(&mut info, purpose.as_bytes());
    info.push(0);
    push_all(&mut info, context.as_bytes());
    assert(info@ =~= binding(purpose@, context@));
    derive_key(SALT.as_bytes(), master, info.as_slice())
}

/// The master key and, while keys rotate, the one before it.
#[derive(Clone)]
pub struct KeyRing {
    current: [u8; 32],
    previous: Option<[u8; 32]>,
}

impl KeyRing {
    /// The master key.
    pub closed spec fn now(&self) -> Seq<u8> {
        self.current@
    }

    /// The master key before it.
    pub closed spec fn before(&self) -> Option<Seq<u8>> {
        match self.previous {
            Some(k) => Some(k@),
            None => None,
        }
    }

    pub fn new(current: [u8; 32], previous: Option<[u8; 32]>) -> (r: Self)
        ensures
            r.now() == current@,
            r.before() == (match previous {
                Some(k) => Some(k@),
                None => None,
            }),
    {
        KeyRing { current, previous }
    }

    /// Key of an account's local cache.
    pub fn cache_key(&self, account_context: &str) -> (r: [u8; 32])
        ensures
            r@ == derived(self.now(), CACHE@, account_context@),
    {
        derive(&self.current, CACHE, account_context)
    }

    /// Key of the cache under the previous master key, if there is one.
    pub fn previous_cache_keys(&self, account_context: &str) -> (r: Vec<[u8; 32]>)
        ensures
            match self.before() {
                Some(k) => r@.len() == 1 && r@[0]@ == derived(k, CACHE@, account_context@),
                None => r@.len() == 0,
            },
    {
        let mut v: Vec<[u8; 32]> = Vec::new();
        match &self.previous {
            Some(k) => {
                v.push(derive(k, CACHE, account_context));
            },
            None => {},
        }
        v
    }

    /// What a wire text opens to for an account, and whether only the previous key opens it.
    pub open spec fn opens_for(&self, wire: Seq<u8>, context: Seq<char>) -> Option<(Seq<u8>, bool)> {
        match wire_opens(derived(self.now(), SESSION@, context), wire) {
            Some(p) => Some((p, false)),
            None => match self.before() {
                Some(k) => match wire_opens(derived(k, SESSION@, context), wire) {
                    Some(p) => Some((p, true)),
                    None => None,
                },
                None => None,
            },
        }
    }

    /// What a wire text without an account opens to.
    pub open spec fn opens_plainly(&self, wire: Seq<u8>) -> Option<Seq<u8>> {
        match wire_opens(self.now(), wire) {
            Some(p) => Some(p),
            None => match self.before() {
                Some(k) => wire_opens(k, wire),
                None => None,
            },
        }
    }

    fn open_for(&self, wire: &Vec<u8>, context: &str) -> (r: Option<(Vec<u8>, bool)>)
        ensures
            match r {
                Some(x) => self.opens_for(wire@, context@) == Some((x.0@, x.1)),
                None => self.opens_for(wire@, context@) is None,
            },
    {
        match AesGcmCipher::new(derive(&self.current, SESSION, context)).decrypt(wire.as_slice()) {
            Ok(p) => {
                return Some((p, false));
            },
            Err(_) => {},
        }
        match &self.previous {
            Some(k) => match AesGcmCipher::new(derive(k, SESSION, context)).decrypt(
                wire.as_slice(),
            ) {
                Ok(p) => Some((p, true)),
                Err(_) => None,
            },
            None => None,
        }
    }

    fn open_plainly(&self, wire: &Vec<u8>) -> (r: Option<Vec<u8>>)
        ensures
            match r {
                Some(p) => self.opens_plainly(wire@) == Some(p@),
                None => self.opens_plainly(wire@) is None,
            },
    {
        match AesGcmCipher::new(self.current).decrypt(wire.as_slice()) {
            Ok(p) => {
                return Some(p);
            },
            Err(_) => {},
        }
        match self.previous {
            Some(k) => match AesGcmCipher::new(k).decrypt(wire.as_slice()) {
                Ok(p) => Some(p),
                Err(_) => None,
            },
            None => None,
        }
    }
}

/// Encrypts session tokens for storage.
#[derive(Clone)]
pub struct SessionCipher {
    ring: KeyRing,
}

/// A decrypted token, and whether the stored text should be written anew.
#[derive(Debug)]
pub struct Opened {
    pub token: String,
    pub rewrap: bool,
}

/// `blob` holds a token for an account, under the master key.
pub open spec fn sealed_for(
    ring: KeyRing,
    token: Seq<char>,
    context: Seq<char>,
    blob: Seq<char>,
) -> bool {
    exists|wire: Seq<u8>| #[trigger]
        base64_text(wire) == blob.skip(3) && begins_with(blob, V2_PREFIX@) && wire_opens(
            derived(ring.now(), SESSION@, context),
            wire,
        ) == Some(encode_utf8(token))
}

/// The base64 part of a stored text.
pub open spec fn payload(blob: Seq<char>) -> Seq<char> {
    if begins_with(blob, V2_PREFIX@) {
        blob.skip(3)
    } else {
        blob
    }
}

/// What is behind a wire text: the plaintext and whether to write it anew. Texts without an account
/// are always written anew.
pub open spec fn behind(ring: KeyRing, bound: bool, wire: Seq<u8>, context: Seq<char>) -> Option<
    (Seq<u8>, bool),
> {
    if bound {
        ring.opens_for(wire, context)
    } else {
        match ring.opens_plainly(wire) {
            Some(p) => Some((p, true)),
            None => None,
        }
    }
}

/// What decrypting a stored text yields.
pub open spec fn decrypts_to(
    ring: KeyRing,
    blob: Seq<char>,
    context: Seq<char>,
    r: Result<Opened, String>,
) -> bool {
    let bound = begins_with(blob, V2_PREFIX@);
    ||| (forall|w: Seq<u8>| #[trigger] base64_text(w) != payload(blob)) && (r matches Err(m) && m@
        == "session base64"@)
    ||| exists|w: Seq<u8>| #[trigger]
        base64_text(w) == payload(blob) && (match behind(ring, bound, w, context) {
            Some(x) => if valid_utf8(x.0) {
                r matches Ok(o) && o.token@ == decode_utf8(x.0) && o.rewrap == x.1
            } else {
                r matches Err(m) && m@ == "session utf8"@
            },
            None => r matches Err(m) && m@ == (if bound {
                "cannot decrypt session (wrong BRIDGE_MASTER_KEY? set BRIDGE_MASTER_KEY_PREVIOUS when rotating)"@
            } else {
                "cannot decrypt legacy session (wrong BRIDGE_MASTER_KEY?)"@
            }),
        })
}

impl SessionCipher {
    /// The keys of the cipher.
    pub closed spec fn keys(&self) -> KeyRing {
        self.ring
    }

    pub fn new(ring: KeyRing) -> (r: Self)
        ensures
            r.keys() == ring,
    {
        SessionCipher { ring }
    }

    pub fn ring(&self) -> (r: &KeyRing)
        ensures
            *r == self.keys(),
    {
        &self.ring
    }

    /// Encrypt with a key bound to an account.
    pub fn encrypt(&self, token: &str, context: &str) -> (r: Result<String, String>)
        ensures
            r is Ok == (encode_utf8(token@).len() <= GCM_MAX_PLAIN),
            match r {
                Ok(blob) => sealed_for(self.keys(), token@, context@, blob@),
                Err(m) => m@ == "encrypt session"@,
            },
    {
        let cipher = AesGcmCipher::new(derive(&self.ring.current, SESSION, context));
        match cipher.encrypt(token.as_bytes()) {
            Ok(wire) => {
                let text = base64_encode(wire.as_slice());
                let blob = V2_PREFIX.to_owned().concat(text.as_str());
                proof {
                    reveal_strlit("v2:");
                    assert(V2_PREFIX@.len() == 3);
                    assert(blob@.skip(3) =~= text@);
                    assert(blob@.subrange(0, 3) =~= V2_PREFIX@);
                    assert(base64_text(wire@) == blob@.skip(3));
                }
                Ok(blob)
            },
            Err(_) => Err("encrypt session".to_owned()),
        }
    }

    /// Decrypt a stored text of an account.
    pub fn decrypt(&self, blob: &str, context: &str) -> (r: Result<Opened, String>)
        ensures
            decrypts_to(self.keys(), blob@, context@, r),
    {
        let bound = starts_with(blob, V2_PREFIX);
        let text = if bound {
            skip_chars(blob, 3)
        } else {
            blob.to_owned()
        };
        proof {
            reveal_strlit("v2:");
            assert(text@ == payload(blob@));
        }
        let wire = match base64_decode(text.as_str()) {
            Ok(w) => w,
            Err(_) => {
                return Err("session base64".to_owned());
            },
        };
        assert(base64_text(wire@) == payload(blob@));
        let found: Option<(Vec<u8>, bool)> = if bound {
            self.ring.open_for(&wire, context)
        } else {
            match self.ring.open_plainly(&wire) {
                Some(p) => Some((p, true)),
                None => None,
            }
        };
        match found {
            Some((plain, rewrap)) => match utf8_decode(plain) {
                Ok(token) => Ok(Opened { token, rewrap }),
                Err(_) => Err("session utf8".to_owned()),
            },
            None => Err(
                if bound {
                    "cannot decrypt session (wrong BRIDGE_MASTER_KEY? set BRIDGE_MASTER_KEY_PREVIOUS when rotating)".to_owned()
                } else {
                    "cannot decrypt legacy session (wrong BRIDGE_MASTER_KEY?)".to_owned()
                },
            ),
        }
    }
}

/// What is encrypted for an account decrypts for it, and needs no new wrapping.
pub proof fn law_session_roundtrip(
    ring: KeyRing,
    token: Seq<char>,
    context: Seq<char>,
    blob: Seq<char>,
    r: Result<Opened, String>,
)
    requires
        sealed_for(ring, token, context, blob),
        decrypts_to(ring, blob, context, r),
    ensures
        r matches Ok(o) && o.token@ == token && !o.rewrap,
{
    let a = choose|wire: Seq<u8>| #[trigger]
        base64_text(wire) == blob.skip(3) && begins_with(blob, V2_PREFIX@) && wire_opens(
            derived(ring.now(), SESSION@, context),
            wire,
        ) == Some(encode_utf8(token));
    assert forall|w: Seq<u8>| #[trigger] base64_text(w) == payload(blob) implies w == a by {
        law_base64_injective(w, a);
    }
    assert(base64_text(a) == payload(blob));
    encode_utf8_valid_utf8(token);
    encode_utf8_decode_utf8(token);
}

/// After a rotation, a text that only the old master key opens still yields its token, and asks to
/// be wrapped anew.
pub proof fn law_rotation_rewraps(
    old_ring: KeyRing,
    ring: KeyRing,
    token: Seq<char>,
    context: Seq<char>,
    blob: Seq<char>,
    r: Result<Opened, String>,
)
    requires
        sealed_for(old_ring, token, context, blob),
        ring.before() == Some(old_ring.now()),
        forall|w: Seq<u8>| #[trigger]
            base64_text(w) == payload(blob) ==> wire_opens(
                derived(ring.now(), SESSION@, context),
                w,
            ) is None,
        decrypts_to(ring, blob, context, r),
    ensures
        r matches Ok(o) && o.token@ == token && o.rewrap,
{
    let a = choose|wire: Seq<u8>| #[trigger]
        base64_text(wire) == blob.skip(3) && begins_with(blob, V2_PREFIX@) && wire_opens(
            derived(old_ring.now(), SESSION@, context),
            wire,
        ) == Some(encode_utf8(token));
    assert forall|w: Seq<u8>| #[trigger] base64_text(w) == payload(blob) implies w == a by {
        law_base64_injective(w, a);
    }
    assert(base64_text(a) == payload(blob));
    encode_utf8_valid_utf8(token);
    encode_utf8_decode_utf8(token);
}

/// Two accounts never share a derivation, nor do a cache and a session: what the keys are derived
/// from differs.
pub proof fn law_bindings_differ(a: Seq<char>, b: Seq<char>)
    ensures
        binding(CACHE@, a) == binding(CACHE@, b) ==> a == b,
        binding(SESSION@, a) == binding(SESSION@, b) ==> a == b,
        binding(CACHE@, a) != binding(SESSION@, b),
{
    assert forall|p: Seq<char>| binding(p, a) == binding(p, b) implies a == b by {
        let n = encode_utf8(p).len() + 1;
        assert(binding(p, a).skip(n as int) =~= encode_utf8(a));
        assert(binding(p, b).skip(n as int) =~= encode_utf8(b));
        encode_utf8_decode_utf8(a);
        encode_utf8_decode_utf8(b);
    }
    reveal_strlit("cache");
    reveal_strlit("session");
    is_ascii_chars_encode_utf8(CACHE@);
    is_ascii_chars_encode_utf8(SESSION@);
    assert(binding(CACHE@, a)[0] == encode_utf8(CACHE@)[0]);
    assert(binding(SESSION@, b)[0] == encode_utf8(SESSION@)[0]);
}

} // verus!
