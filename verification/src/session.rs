//! Sessions at rest and their lifecycle: the token cipher and its framing, what is persisted of a
//! session, what a sign-out wipes, preferences, and which legal documents the user has seen.

use crate::error::{error_text, AppError};
use crate::models::{
    CategoriesEnvelope, Device, LegalDocKey, LegalDocument, Session, ThemeOverride, User,
};
use crate::seal::{
    base64_decode, base64_encode, base64_fault, base64_text, gcm_decrypt, gcm_encrypt, gcm_opened,
    gcm_sealed, law_base64_injective, push_all, random_key, random_nonce, utf8_decode, utf8_fault,
    GCM_MAX_PLAIN,
};
use crate::store::local::{log, LocalStore};
use crate::store::Change;
use crate::text::same;
use vstd::arithmetic::power2::pow2;
use vstd::prelude::*;
use vstd::slice::slice_subrange;
use vstd::utf8::{encode_utf8, encode_utf8_decode_utf8, encode_utf8_valid_utf8};

verus! {

/// Whether a cipher encrypts a plaintext.
pub enum Sealing {
    /// It always does.
    Done,
    /// It never does, and says so in these words.
    Refused(Seq<char>),
    /// It may or may not.
    Unsettled,
}

/// Encrypts a token at rest.
pub trait SecretCipher {
    /// What a stored text opens to, if it opens.
    spec fn opens(&self, wire: Seq<u8>) -> Option<Seq<u8>>;

    /// Whether a plaintext is encrypted.
    spec fn seals(&self, plain: Seq<u8>) -> Sealing;

    /// What is encrypted opens to the same bytes.
    fn encrypt(&self, plaintext: &[u8]) -> (r: Result<Vec<u8>, AppError>)
        ensures
            r matches Ok(w) ==> self.opens(w@) == Some(plaintext@),
            as_settled(self.seals(plaintext@), r),
    ;

    /// The words in which a stored text that does not open is refused; nothing where they are not
    /// settled.
    spec fn refusal(&self, wire: Seq<u8>) -> Option<Seq<char>>;

    fn decrypt(&self, wire: &[u8]) -> (r: Result<Vec<u8>, AppError>)
        ensures
            match r {
                Ok(p) => self.opens(wire@) == Some(p@),
                Err(e) => {
                    &&& self.opens(wire@) is None
                    &&& self.refusal(wire@) matches Some(words) ==> error_text(e) == words
                },
            },
    ;
}

/// A result is what the cipher settles for its plaintext.
pub open spec fn as_settled<T>(sealing: Sealing, r: Result<T, AppError>) -> bool {
    match sealing {
        Sealing::Done => r is Ok,
        Sealing::Refused(words) => r matches Err(e) && error_text(e) == words,
        Sealing::Unsettled => true,
    }
}

/// No encryption. Use only where the file itself is protected.
#[derive(Debug, Clone, Copy)]
pub struct PlainCipher;

impl Default for PlainCipher {
    fn default() -> (r: Self)
        ensures
            r == PlainCipher,
    {
        PlainCipher
    }
}

fn copy_bytes(s: &[u8]) -> (v: Vec<u8>)
    ensures
        v@ == s@,
{
    let mut v: Vec<u8> = Vec::new();
    push_all(&mut v, s);
    assert(v@ =~= s@);
    v
}

impl SecretCipher for PlainCipher {
    open spec fn opens(&self, wire: Seq<u8>) -> Option<Seq<u8>> {
        Some(wire)
    }

    open spec fn seals(&self, plain: Seq<u8>) -> Sealing {
        Sealing::Done
    }

    open spec fn refusal(&self, wire: Seq<u8>) -> Option<Seq<char>> {
        None
    }

    fn encrypt(&self, plaintext: &[u8]) -> (r: Result<Vec<u8>, AppError>)
        ensures
            r is Ok,
            r matches Ok(w) ==> w@ == plaintext@,
    {
        Ok(copy_bytes(plaintext))
    }

    fn decrypt(&self, wire: &[u8]) -> (r: Result<Vec<u8>, AppError>) {
        Ok(copy_bytes(wire))
    }
}

/// Length of an AES-GCM nonce in bytes.
pub const NONCE_LEN: usize = 12;

/// AES-256-GCM with a 128-bit tag and a random 96-bit nonce. A stored text is the length of the
/// nonce in one byte, the nonce, then ciphertext and tag.
pub struct AesGcmCipher {
    key: [u8; 32],
}

/// `b` rotated left by `n` bits.
pub open spec fn rotated(b: u8, n: nat) -> u8 {
    let w = b as int * pow2(n);
    (w % 256 + w / 256) as u8
}

/// A key with the byte at position `i` of a secret folded in.
pub open spec fn fold_step(k: Seq<u8>, byte: u8, i: int) -> Seq<u8> {
    let a = i % 32;
    let b = (i * 7 + 3) % 32;
    let mixed = k.update(a, k[a] ^ rotated(byte, (i % 7) as nat));
    mixed.update(b, ((mixed[b] + byte) % 256) as u8)
}

/// The key folded from the first `n` bytes of a secret.
pub open spec fn folded_key(secret: Seq<u8>, n: nat) -> Seq<u8>
    decreases n,
{
    if n == 0 {
        Seq::new(32, |i: int| 0u8)
    } else {
        fold_step(folded_key(secret, (n - 1) as nat), secret[n - 1], n - 1)
    }
}

proof fn lemma_slot(i: int)
    requires
        0 <= i,
    ensures
        ((i % 32) * 7 + 3) % 32 == (i * 7 + 3) % 32,
{
    let q = i / 32;
    let r = i % 32;
    assert(i * 7 + 3 == 32 * (7 * q) + (r * 7 + 3));
    vstd::arithmetic::div_mod::lemma_mod_multiples_vanish(7 * q, r * 7 + 3, 32);
}

fn fold_in(key: &mut [u8; 32], byte: u8, i: usize)
    ensures
        final(key)@ == fold_step(old(key)@, byte, i as int),
{
    let a: usize = i % 32;
    let b: usize = ((i % 32) * 7 + 3) % 32;
    proof {
        lemma_slot(i as int);
    }
    let x: u8 = key[a] ^ rotate(byte, i % 7);
    key[a] = x;
    let y: u8 = ((key[b] as u32 + byte as u32) % 256) as u8;
    key[b] = y;
    assert(key@ =~= fold_step(old(key)@, byte, i as int));
}

fn rotate(b: u8, n: usize) -> (r: u8)
    requires
        n < 7,
    ensures
        r == rotated(b, n as nat),
{
    proof {
        vstd::arithmetic::power2::lemma2_to64();
    }
    let p: u32 = if n == 0 {
        1
    } else if n == 1 {
        2
    } else if n == 2 {
        4
    } else if n == 3 {
        8
    } else if n == 4 {
        16
    } else if n == 5 {
        32
    } else {
        64
    };
    assert(p == pow2(n as nat));
    let wide: u32 = b as u32;
    assert(wide * p <= 255 * 64 && wide * p >= 0) by (nonlinear_arith)
        requires
            0 <= wide <= 255,
            1 <= p <= 64,
    ;
    let w: u32 = wide * p;
    (w % 256 + w / 256) as u8
}

/// What a stored text opens to under a key.
pub open spec fn wire_opens(key: Seq<u8>, wire: Seq<u8>) -> Option<Seq<u8>> {
    if wire.len() > 0 && wire[0] == NONCE_LEN && wire.len() >= 1 + NONCE_LEN {
        gcm_opened(key, wire.subrange(1, 13), wire.skip(13))
    } else {
        None
    }
}

/// Why a stored text does not open.
pub open spec fn wire_fault(wire: Seq<u8>) -> Seq<char> {
    if wire.len() == 0 {
        "empty ciphertext"@
    } else if wire.len() < 1 + wire[0] {
        "truncated ciphertext"@
    } else {
        "decrypt: aead::Error"@
    }
}

impl AesGcmCipher {
    /// The key of the cipher.
    pub closed spec fn secret(&self) -> Seq<u8> {
        self.key@
    }

    pub fn new(key: [u8; 32]) -> (r: Self)
        ensures
            r.secret() == key@,
    {
        AesGcmCipher { key }
    }

    /// Fold any secret into a key. Prefer 32 random bytes.
    pub fn from_secret(secret: &[u8]) -> (r: Self)
        ensures
            r.secret() == folded_key(secret@, secret@.len()),
    {
        let mut key: [u8; 32] = [0u8; 32];
        assert(key@ =~= folded_key(secret@, 0));
        let mut i: usize = 0;
        while i < secret.len()
            invariant
                i <= secret.len(),
                key@ == folded_key(secret@, i as nat),
            decreases secret.len() - i,
        {
            fold_in(&mut key, secret[i], i);
            i += 1;
        }
        AesGcmCipher { key }
    }

    /// A cipher with a random key.
    pub fn random() -> (r: Self)
        ensures
            r.secret().len() == 32,
    {
        AesGcmCipher { key: random_key() }
    }
}

impl SecretCipher for AesGcmCipher {
    open spec fn opens(&self, wire: Seq<u8>) -> Option<Seq<u8>> {
        wire_opens(self.secret(), wire)
    }

    open spec fn seals(&self, plain: Seq<u8>) -> Sealing {
        if plain.len() <= GCM_MAX_PLAIN {
            Sealing::Done
        } else {
            Sealing::Refused("local store error: "@ + "encrypt: aead::Error"@)
        }
    }

    open spec fn refusal(&self, wire: Seq<u8>) -> Option<Seq<char>> {
        Some("local store error: "@ + wire_fault(wire))
    }

    fn encrypt(&self, plaintext: &[u8]) -> (r: Result<Vec<u8>, AppError>)
        ensures
            r is Ok == (plaintext@.len() <= GCM_MAX_PLAIN),
            match r {
                Ok(w) => {
                    &&& w@.len() == plaintext@.len() + 29
                    &&& w@[0] == NONCE_LEN
                    &&& w@.skip(13) == gcm_sealed(
                        self.secret(),
                        w@.subrange(1, 13),
                        plaintext@,
                    )
                },
                Err(e) => e matches AppError::Store(m) && m@ == "encrypt: aead::Error"@,
            },
    {
        let nonce = random_nonce();
        let sealed = match gcm_encrypt(&self.key, &nonce, plaintext) {
            Some(c) => c,
            None => {
                return Err(AppError::Store("encrypt: aead::Error".to_owned()));
            },
        };
        let mut out: Vec<u8> = Vec::new();
        out.push(12);
        push_all(&mut out, nonce.as_slice());
        push_all(&mut out, sealed.as_slice());
        assert(out@ =~= seq![12u8] + nonce@ + sealed@);
        assert(out@.subrange(1, 13) =~= nonce@);
        assert(out@.skip(13) =~= sealed@);
        Ok(out)
    }

    fn decrypt(&self, wire: &[u8]) -> (r: Result<Vec<u8>, AppError>)
        ensures
            r matches Err(e) ==> e matches AppError::Store(m) && m@ == wire_fault(wire@),
    {
        if wire.len() == 0 {
            return Err(AppError::Store("empty ciphertext".to_owned()));
        }
        let iv_len: usize = wire[0] as usize;
        if wire.len() < 1 + iv_len {
            return Err(AppError::Store("truncated ciphertext".to_owned()));
        }
        if iv_len != NONCE_LEN {
            return Err(AppError::Store("decrypt: aead::Error".to_owned()));
        }
        let nonce: [u8; 12] = [
            wire[1],
            wire[2],
            wire[3],
            wire[4],
            wire[5],
            wire[6],
            wire[7],
            wire[8],
            wire[9],
            wire[10],
            wire[11],
            wire[12],
        ];
        assert(nonce@ =~= wire@.subrange(1, 13));
        let sealed = slice_subrange(wire, 13, wire.len());
        assert(sealed@ =~= wire@.skip(13));
        match gcm_decrypt(&self.key, &nonce, sealed) {
            Some(p) => Ok(p),
            None => Err(AppError::Store("decrypt: aead::Error".to_owned())),
        }
    }
}

/// What is persisted of a session.
#[derive(Debug)]
pub struct StoredSession {
    pub user: User,
    pub device: Device,
    pub token: String,
}

impl From<Session> for StoredSession {
    fn from(s: Session) -> (r: Self) {
        StoredSession { user: s.user, device: s.device, token: s.token }
    }
}

impl vstd::std_specs::convert::FromSpecImpl<Session> for StoredSession {
    open spec fn obeys_from_spec() -> bool {
        true
    }

    open spec fn from_spec(s: Session) -> Self {
        StoredSession { user: s.user, device: s.device, token: s.token }
    }
}

/// A session kept in memory only.
#[derive(Debug)]
pub struct MemorySessionStore {
    pub session: Option<StoredSession>,
}

impl MemorySessionStore {
    pub fn new() -> (r: Self)
        ensures
            r.session is None,
    {
        MemorySessionStore { session: None }
    }

    pub fn load(&self) -> (r: Option<&StoredSession>)
        ensures
            r == (match self.session {
                Some(s) => Some(&s),
                None => None,
            }),
    {
        self.session.as_ref()
    }

    pub fn save(&mut self, s: StoredSession)
        ensures
            final(self).session == Some(s),
    {
        self.session = Some(s);
    }

    /// Rename the user of the stored session, if there is one.
    pub fn update_display_name(&mut self, name: &str)
        ensures
            match old(self).session {
                Some(s) => {
                    &&& final(self).session matches Some(t)
                    &&& t == (StoredSession {
                        user: User { display_name: t.user.display_name, ..s.user },
                        ..s
                    })
                    &&& t.user.display_name@ == name@
                },
                None => final(self).session is None,
            },
    {
        let mut s: Option<StoredSession> = None;
        std::mem::swap(&mut s, &mut self.session);
        match s {
            Some(mut t) => {
                t.user.display_name = name.to_owned();
                self.session = Some(t);
            },
            None => {},
        }
    }

    pub fn clear(&mut self)
        ensures
            final(self).session is None,
    {
        self.session = None;
    }
}

/// A session file: the user, the device and the encrypted token in base64.
#[derive(Debug)]
pub struct SessionFile {
    pub user: Option<User>,
    pub device: Option<Device>,
    pub token_ciphertext: Option<String>,
}

impl Default for SessionFile {
    fn default() -> (r: Self)
        ensures
            r == (SessionFile { user: None, device: None, token_ciphertext: None }),
    {
        SessionFile { user: None, device: None, token_ciphertext: None }
    }
}

/// The token behind a stored text: base64 of a ciphertext of UTF-8.
pub open spec fn token_behind<C: SecretCipher>(cipher: C, token: Seq<char>, text: Seq<char>) -> bool {
    exists|wire: Seq<u8>| #[trigger]
        base64_text(wire) == text && cipher.opens(wire) == Some(encode_utf8(token))
}

/// A store error with the given message.
pub open spec fn store_error(e: AppError, message: Seq<char>) -> bool {
    e matches AppError::Store(m) && m@ == message
}

/// Encrypt a token and write it in base64. Where the cipher refuses the token, so does this, with the
/// same words.
pub fn seal_token<C: SecretCipher>(cipher: &C, token: &str) -> (r: Result<String, AppError>)
    ensures
        as_settled(cipher.seals(encode_utf8(token@)), r),
        r matches Ok(text) ==> token_behind(*cipher, token@, text@),
{
    let bytes = token.as_bytes();
    match cipher.encrypt(bytes) {
        Ok(wire) => {
            let text = base64_encode(wire.as_slice());
            assert(base64_text(wire@) == text@);
            Ok(text)
        },
        Err(e) => Err(e),
    }
}

/// `e` says why no token is behind a stored text: it is no base64, the cipher refuses it, or what it
/// opens to is no UTF-8.
pub open spec fn token_fault<C: SecretCipher>(cipher: C, text: Seq<char>, e: AppError) -> bool {
    &&& forall|token: Seq<char>| !#[trigger] token_behind(cipher, token, text)
    &&& (forall|b: Seq<u8>| #[trigger] base64_text(b) != text) ==> store_error(
        e,
        "token base64: "@ + base64_fault(text),
    )
    &&& forall|w: Seq<u8>| #[trigger]
        base64_text(w) == text ==> match cipher.opens(w) {
            Some(plain) => store_error(e, "token utf8: "@ + utf8_fault(plain)),
            None => cipher.refusal(w) matches Some(words) ==> error_text(e) == words,
        }
}

/// Read a token back.
pub fn open_token<C: SecretCipher>(cipher: &C, text: &str) -> (r: Result<String, AppError>)
    ensures
        match r {
            Ok(token) => token_behind(*cipher, token@, text@),
            Err(e) => token_fault(*cipher, text@, e),
        },
{
    let wire = match base64_decode(text) {
        Ok(w) => w,
        Err(m) => {
            return Err(AppError::Store("token base64: ".to_owned().concat(m.as_str())));
        },
    };
    assert forall|w: Seq<u8>| #[trigger] base64_text(w) == text@ implies w == wire@ by {
        law_base64_injective(w, wire@);
    }
    let plain = match cipher.decrypt(wire.as_slice()) {
        Ok(p) => p,
        Err(e) => {
            return Err(e);
        },
    };
    let ghost bytes = plain@;
    match utf8_decode(plain) {
        Ok(s) => {
            proof {
                vstd::utf8::decode_utf8_encode_utf8(bytes);
            }
            assert(base64_text(wire@) == text@);
            Ok(s)
        },
        Err(m) => {
            proof {
                assert forall|token: Seq<char>| !#[trigger] token_behind(*cipher, token, text@) by {
                    encode_utf8_valid_utf8(token);
                }
            }
            Err(AppError::Store("token utf8: ".to_owned().concat(m.as_str())))
        },
    }
}

/// The session in a file, if the file holds one.
pub fn restore<C: SecretCipher>(file: SessionFile, cipher: &C) -> (r: Result<
    Option<StoredSession>,
    AppError,
>)
    ensures
        match (file.user, file.device, file.token_ciphertext) {
            (Some(user), Some(device), Some(text)) => match r {
                Ok(s) => s matches Some(s) && s.user == user && s.device == device && token_behind(
                    *cipher,
                    s.token@,
                    text@,
                ),
                Err(e) => token_fault(*cipher, text@, e),
            },
            _ => r matches Ok(s) && s is None,
        },
{
    match (file.user, file.device, file.token_ciphertext) {
        (Some(user), Some(device), Some(text)) => match open_token(cipher, text.as_str()) {
            Ok(token) => Ok(Some(StoredSession { user, device, token })),
            Err(e) => Err(e),
        },
        _ => Ok(None),
    }
}

/// The file for a session. Where the cipher refuses the token there is none, and the error says so in
/// the cipher's words.
pub fn persist<C: SecretCipher>(s: StoredSession, cipher: &C) -> (r: Result<SessionFile, AppError>)
    ensures
        as_settled(cipher.seals(encode_utf8(s.token@)), r),
        r matches Ok(f) ==> f.user == Some(s.user) && f.device == Some(s.device)
            && f.token_ciphertext is Some && token_behind(*cipher, s.token@, f.token_ciphertext->0@),
{
    match seal_token(cipher, s.token.as_str()) {
        Ok(text) => Ok(
            SessionFile { user: Some(s.user), device: Some(s.device), token_ciphertext: Some(text) },
        ),
        Err(e) => Err(e),
    }
}

/// A stored text holds one token: what is read back is what was written.
pub proof fn law_token_roundtrip<C: SecretCipher>(
    cipher: C,
    written: Seq<char>,
    read: Seq<char>,
    text: Seq<char>,
)
    requires
        token_behind(cipher, written, text),
        token_behind(cipher, read, text),
    ensures
        written == read,
{
    let a = choose|w: Seq<u8>| #[trigger]
        base64_text(w) == text && cipher.opens(w) == Some(encode_utf8(written));
    let b = choose|w: Seq<u8>| #[trigger]
        base64_text(w) == text && cipher.opens(w) == Some(encode_utf8(read));
    law_base64_injective(a, b);
    encode_utf8_decode_utf8(written);
    encode_utf8_decode_utf8(read);
}

/// Whether someone is signed in.
#[derive(Debug)]
pub enum SessionState {
    /// The store is being read.
    Loading,
    /// No token.
    SignedOut,
    SignedIn { user: User, token: String },
}

impl Default for SessionState {
    fn default() -> (r: Self)
        ensures
            r == SessionState::Loading,
    {
        SessionState::Loading
    }
}

impl SessionState {
    pub fn is_signed_in(&self) -> (r: bool)
        ensures
            r == (self is SignedIn),
    {
        matches!(self, SessionState::SignedIn { .. })
    }

    pub fn user(&self) -> (r: Option<&User>)
        ensures
            r == (match *self {
                SessionState::SignedIn { user, token } => Some(&user),
                _ => None,
            }),
    {
        match self {
            SessionState::SignedIn { user, .. } => Some(user),
            _ => None,
        }
    }

    /// The state for what the store held.
    pub fn from_stored(s: Option<StoredSession>) -> (r: Self)
        ensures
            r == (match s {
                Some(s) => SessionState::SignedIn { user: s.user, token: s.token },
                None => SessionState::SignedOut,
            }),
    {
        match s {
            Some(s) => SessionState::SignedIn { user: s.user, token: s.token },
            None => SessionState::SignedOut,
        }
    }

    /// Take over a new display name; nothing happens unless someone is signed in.
    pub fn rename(self, name: &str) -> (r: Self)
        ensures
            match self {
                SessionState::SignedIn { user, token } => r matches SessionState::SignedIn {
                    user: u,
                    token: t,
                } && t == token && u == (User { display_name: u.display_name, ..user })
                    && u.display_name@ == name@,
                _ => r == self,
            },
    {
        match self {
            SessionState::SignedIn { user, token } => {
                let mut u = user;
                u.display_name = name.to_owned();
                SessionState::SignedIn { user: u, token }
            },
            other => other,
        }
    }
}

/// Guard of the wipe: a second one that starts meanwhile does nothing.
#[derive(Debug, Clone, Copy, PartialEq, Eq, Structural)]
pub struct WipeGuard {
    pub in_flight: bool,
}

impl WipeGuard {
    /// Whether the caller is to wipe.
    pub fn begin(&mut self) -> (go: bool)
        ensures
            go == !old(self).in_flight,
            final(self).in_flight,
    {
        let go = !self.in_flight;
        self.in_flight = true;
        go
    }

    pub fn end(&mut self)
        ensures
            !final(self).in_flight,
    {
        self.in_flight = false;
    }
}

/// Forget everything local: all tables, then the session.
pub fn wipe_local(store: &mut LocalStore, state: &mut SessionState)
    requires
        old(store).wf(),
    ensures
        final(store).wf(),
        final(store).group_rows@.len() == 0,
        final(store).message_rows@.len() == 0,
        final(store).member_rows@.len() == 0,
        final(store).outbox_rows@.len() == 0,
        final(store).reply_rows@.len() == 0,
        final(store).next_reply_id == old(store).next_reply_id,
        log(final(store).changes@) == log(old(store).changes@).push(Change::Cleared),
        *final(state) == SessionState::SignedOut,
{
    store.clear_all();
    *state = SessionState::SignedOut;
}

/// What the lifecycle does with the sync engine.
#[derive(Debug, Clone, Copy, PartialEq, Eq, Structural)]
pub enum Lifecycle {
    Start,
    Stop,
    Keep,
}

/// Sync runs exactly while someone is signed in and the app is in the foreground.
pub fn lifecycle(foreground: bool, signed_in: bool, running: bool) -> (r: Lifecycle)
    ensures
        r == (if foreground && signed_in && !running {
            Lifecycle::Start
        } else if !(foreground && signed_in) && running {
            Lifecycle::Stop
        } else {
            Lifecycle::Keep
        }),
{
    let should_run = foreground && signed_in;
    if should_run && !running {
        Lifecycle::Start
    } else if !should_run && running {
        Lifecycle::Stop
    } else {
        Lifecycle::Keep
    }
}

/// Preferences that are no secret.
#[derive(Debug)]
pub struct AppPrefs {
    pub categories: Option<CategoriesEnvelope>,
    pub theme_override: ThemeOverride,
}

impl Default for AppPrefs {
    fn default() -> (r: Self)
        ensures
            r == (AppPrefs { categories: None, theme_override: ThemeOverride::System }),
    {
        AppPrefs { categories: None, theme_override: ThemeOverride::System }
    }
}

impl AppPrefs {
    pub fn set_categories(&mut self, env: CategoriesEnvelope)
        ensures
            *final(self) == (AppPrefs { categories: Some(env), ..*old(self) }),
    {
        self.categories = Some(env);
    }

    pub fn set_theme_override(&mut self, t: ThemeOverride)
        ensures
            *final(self) == (AppPrefs { theme_override: t, ..*old(self) }),
    {
        self.theme_override = t;
    }
}

/// A cached legal document and what the user has seen of it.
#[derive(Debug)]
pub struct LegalEntry {
    pub document: Option<LegalDocument>,
    /// Checksum the user last acknowledged.
    pub last_seen_checksum: Option<String>,
}

impl Default for LegalEntry {
    fn default() -> (r: Self)
        ensures
            r == (LegalEntry { document: None, last_seen_checksum: None }),
    {
        LegalEntry { document: None, last_seen_checksum: None }
    }
}

/// The user has not acknowledged the cached document as it stands.
pub open spec fn unseen(e: LegalEntry) -> bool {
    match (e.document, e.last_seen_checksum) {
        (Some(d), Some(seen)) => d.checksum@ != seen@,
        (Some(_), None) => true,
        (None, _) => false,
    }
}

/// Cached legal documents, one entry per document.
#[derive(Debug)]
pub struct LegalStore {
    pub privacy: LegalEntry,
    pub terms: LegalEntry,
}

impl LegalStore {
    /// The entry of a document.
    pub open spec fn entry(self, key: LegalDocKey) -> LegalEntry {
        match key {
            LegalDocKey::Privacy => self.privacy,
            LegalDocKey::Terms => self.terms,
        }
    }

    /// Nothing cached, nothing seen.
    pub fn new() -> (r: Self)
        ensures
            forall|k: LegalDocKey| #[trigger]
                r.entry(k) == (LegalEntry { document: None, last_seen_checksum: None }),
    {
        LegalStore { privacy: LegalEntry::default(), terms: LegalEntry::default() }
    }

    pub fn get(&self, key: LegalDocKey) -> (r: &LegalEntry)
        ensures
            *r == self.entry(key),
    {
        match key {
            LegalDocKey::Privacy => &self.privacy,
            LegalDocKey::Terms => &self.terms,
        }
    }

    pub fn put_document(&mut self, key: LegalDocKey, doc: LegalDocument)
        ensures
            final(self).entry(key) == (LegalEntry { document: Some(doc), ..old(self).entry(key) }),
            forall|k: LegalDocKey| k != key ==> #[trigger] final(self).entry(k) == old(self).entry(k),
    {
        match key {
            LegalDocKey::Privacy => {
                self.privacy.document = Some(doc);
            },
            LegalDocKey::Terms => {
                self.terms.document = Some(doc);
            },
        }
    }

    /// The user has seen the cached document.
    pub fn mark_seen(&mut self, key: LegalDocKey)
        ensures
            final(self).entry(key) == (LegalEntry {
                last_seen_checksum: match old(self).entry(key).document {
                    Some(d) => Some(d.checksum),
                    None => None,
                },
                ..old(self).entry(key)
            }),
            forall|k: LegalDocKey| k != key ==> #[trigger] final(self).entry(k) == old(self).entry(k),
    {
        match key {
            LegalDocKey::Privacy => {
                self.privacy.last_seen_checksum = match &self.privacy.document {
                    Some(d) => Some(d.checksum.clone()),
                    None => None,
                };
            },
            LegalDocKey::Terms => {
                self.terms.last_seen_checksum = match &self.terms.document {
                    Some(d) => Some(d.checksum.clone()),
                    None => None,
                };
            },
        }
    }

    /// Whether the cached document differs from what the user acknowledged.
    pub fn needs_acceptance(&self, key: LegalDocKey) -> (r: bool)
        ensures
            r == unseen(self.entry(key)),
    {
        let e = self.get(key);
        match (&e.document, &e.last_seen_checksum) {
            (Some(d), Some(seen)) => !same(d.checksum.as_str(), seen.as_str()),
            (Some(_), None) => true,
            (None, _) => false,
        }
    }
}

/// A document that was marked seen needs no acceptance until another one is cached.
pub proof fn law_seen_until_changed(e: LegalEntry, d: LegalDocument)
    requires
        e.document is Some,
    ensures
        !unseen(LegalEntry { last_seen_checksum: Some((e.document->0).checksum), ..e }),
        unseen(
            LegalEntry {
                document: Some(d),
                last_seen_checksum: Some((e.document->0).checksum),
            },
        ) == (d.checksum@ != (e.document->0).checksum@),
{
}

} // verus!
