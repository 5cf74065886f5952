//! Byte-level helpers and the cryptographic primitives the library calls.

use aes_gcm::aead::{Aead, AeadCore, KeyInit, OsRng};
use aes_gcm::Aes256Gcm;
use base64::Engine;
use hkdf::Hkdf;
use sha2::Sha256;
use vstd::prelude::*;
use vstd::utf8::{decode_utf8, valid_utf8};

verus! {

/// The ciphertext and tag of AES-256-GCM without associated data.
pub uninterp spec fn gcm_sealed(key: Seq<u8>, nonce: Seq<u8>, plain: Seq<u8>) -> Seq<u8>;

/// The plaintext behind an AES-256-GCM ciphertext, if its tag is right.
pub uninterp spec fn gcm_opened(key: Seq<u8>, nonce: Seq<u8>, sealed: Seq<u8>) -> Option<Seq<u8>>;

/// The 32 bytes that HKDF-SHA256 derives.
pub uninterp spec fn hkdf_sha256(salt: Seq<u8>, secret: Seq<u8>, info: Seq<u8>) -> Seq<u8>;

/// What is wrong with a text that is no base64.
pub uninterp spec fn base64_fault(text: Seq<char>) -> Seq<char>;

/// What is wrong with bytes that are no UTF-8.
pub uninterp spec fn utf8_fault(bytes: Seq<u8>) -> Seq<char>;

/// Longest plaintext of AES-GCM, in bytes.
pub const GCM_MAX_PLAIN: u64 = 0x10_0000_0000;

/// `aes_gcm::Aes256Gcm::encrypt` without associated data: a plaintext of at most 2^36 bytes is
/// encrypted to as many bytes and a 16-byte tag, and `decrypt` with the same key and nonce gives it
/// back. What the bytes are is the cipher's business and left to a name.
#[verifier::external_body]
pub(crate) fn gcm_encrypt(key: &[u8; 32], nonce: &[u8; 12], plain: &[u8]) -> (r: Option<Vec<u8>>)
    ensures
        r is Some == (plain@.len() <= GCM_MAX_PLAIN),
        r matches Some(c) ==> c@ == gcm_sealed(key@, nonce@, plain@),
        r matches Some(c) ==> c@.len() == plain@.len() + 16,
        r matches Some(c) ==> gcm_opened(key@, nonce@, c@) == Some(plain@),
{
    Aes256Gcm::new(key.into()).encrypt(nonce.into(), plain).ok()
}

/// `aes_gcm::Aes256Gcm::decrypt` without associated data: the plaintext, or nothing where the tag
/// does not match. Which is the case is left to a name.
#[verifier::external_body]
pub(crate) fn gcm_decrypt(key: &[u8; 32], nonce: &[u8; 12], sealed: &[u8]) -> (r: Option<Vec<u8>>)
    ensures
        match r {
            Some(p) => gcm_opened(key@, nonce@, sealed@) == Some(p@),
            None => gcm_opened(key@, nonce@, sealed@) is None,
        },
{
    Aes256Gcm::new(key.into()).decrypt(nonce.into(), sealed).ok()
}

/// `aes_gcm::Aes256Gcm::generate_nonce` from the system's generator: any twelve bytes.
#[verifier::external_body]
pub(crate) fn random_nonce() -> (r: [u8; 12]) {
    Aes256Gcm::generate_nonce(&mut OsRng).into()
}

/// `rand::RngCore::fill_bytes` on the thread's generator: any 32 bytes.
#[verifier::external_body]
pub(crate) fn random_key() -> (r: [u8; 32]) {
    let mut key = [0u8; 32];
    rand::RngCore::fill_bytes(&mut rand::thread_rng(), &mut key);
    key
}

/// `hkdf::Hkdf::<Sha256>::new` with a salt, then `expand` to 32 bytes. Which bytes is left to a name.
#[verifier::external_body]
pub(crate) fn derive_key(salt: &[u8], secret: &[u8; 32], info: &[u8]) -> (r: [u8; 32])
    ensures
        r@ == hkdf_sha256(salt@, secret@, info@),
{
    let mut out = [0u8; 32];
    Hkdf::<Sha256>::new(Some(salt), secret).expand(info, &mut out).expect("32 bytes fit one block");
    out
}

/// The base64 digit for `n < 64`.
pub open spec fn base64_digit(n: int) -> char {
    if n < 26 {
        ('A' as int + n) as char
    } else if n < 52 {
        ('a' as int + (n - 26)) as char
    } else if n < 62 {
        ('0' as int + (n - 52)) as char
    } else if n == 62 {
        '+'
    } else {
        '/'
    }
}

/// Bytes in the standard base64 notation, padded.
pub open spec fn base64_text(b: Seq<u8>) -> Seq<char>
    decreases b.len(),
{
    if b.len() == 0 {
        seq![]
    } else if b.len() == 1 {
        seq![base64_digit(b[0] as int / 4), base64_digit((b[0] as int % 4) * 16), '=', '=']
    } else if b.len() == 2 {
        seq![
            base64_digit(b[0] as int / 4),
            base64_digit((b[0] as int % 4) * 16 + b[1] as int / 16),
            base64_digit((b[1] as int % 16) * 4),
            '=',
        ]
    } else {
        seq![
            base64_digit(b[0] as int / 4),
            base64_digit((b[0] as int % 4) * 16 + b[1] as int / 16),
            base64_digit((b[1] as int % 16) * 4 + b[2] as int / 64),
            base64_digit(b[2] as int % 64),
        ] + base64_text(b.skip(3))
    }
}

/// `base64::engine::general_purpose::STANDARD.encode`.
#[verifier::external_body]
pub(crate) fn base64_encode(b: &[u8]) -> (r: String)
    ensures
        r@ == base64_text(b@),
{
    base64::engine::general_purpose::STANDARD.encode(b)
}

/// `base64::engine::general_purpose::STANDARD.decode`: it accepts exactly what `encode` produces. The
/// wording of the refusal is left to a name.
#[verifier::external_body]
pub(crate) fn base64_decode(text: &str) -> (r: Result<Vec<u8>, String>)
    ensures
        match r {
            Ok(b) => base64_text(b@) == text@,
            Err(m) => m@ == base64_fault(text@) && forall|b: Seq<u8>| #[trigger]
                base64_text(b) != text@,
        },
{
    base64::engine::general_purpose::STANDARD.decode(text).map_err(|e| e.to_string())
}

/// `String::from_utf8`: the text behind valid UTF-8. The wording of the refusal is left to a name.
#[verifier::external_body]
pub(crate) fn utf8_decode(b: Vec<u8>) -> (r: Result<String, String>)
    ensures
        match r {
            Ok(s) => valid_utf8(b@) && s@ == decode_utf8(b@),
            Err(m) => !valid_utf8(b@) && m@ == utf8_fault(b@),
        },
{
    String::from_utf8(b).map_err(|e| e.to_string())
}

proof fn lemma_digit_injective(a: int, b: int)
    requires
        0 <= a < 64,
        0 <= b < 64,
        base64_digit(a) == base64_digit(b),
    ensures
        a == b,
{
}

proof fn lemma_digit_is_no_pad(a: int)
    requires
        0 <= a < 64,
    ensures
        base64_digit(a) != '=',
{
}

/// Different bytes have different base64 texts.
pub proof fn law_base64_injective(a: Seq<u8>, b: Seq<u8>)
    requires
        base64_text(a) == base64_text(b),
    ensures
        a == b,
    decreases a.len(),
{
    let x = base64_text(a);
    let y = base64_text(b);
    if a.len() == 0 || b.len() == 0 {
        assert(x.len() == 0);
        assert(a =~= b);
    } else {
        assert(x[0] == y[0] && x[1] == y[1] && x[2] == y[2] && x[3] == y[3]);
        let second = |s: Seq<u8>| (s[0] as int % 4) * 16 + if s.len() > 1 {
            s[1] as int / 16
        } else {
            0
        };
        lemma_digit_injective(a[0] as int / 4, b[0] as int / 4);
        lemma_digit_injective(second(a), second(b));
        if a.len() > 1 {
            lemma_digit_is_no_pad((a[1] as int % 16) * 4 + if a.len() > 2 { a[2] as int / 64 } else { 0 });
        }
        if b.len() > 1 {
            lemma_digit_is_no_pad((b[1] as int % 16) * 4 + if b.len() > 2 { b[2] as int / 64 } else { 0 });
        }
        assert((a.len() == 1) == (b.len() == 1));
        if a.len() > 1 {
            lemma_digit_injective(
                (a[1] as int % 16) * 4 + if a.len() > 2 { a[2] as int / 64 } else { 0 },
                (b[1] as int % 16) * 4 + if b.len() > 2 { b[2] as int / 64 } else { 0 },
            );
            if a.len() > 2 {
                lemma_digit_is_no_pad(a[2] as int % 64);
            }
            if b.len() > 2 {
                lemma_digit_is_no_pad(b[2] as int % 64);
            }
            assert((a.len() == 2) == (b.len() == 2));
            if a.len() > 2 {
                lemma_digit_injective(a[2] as int % 64, b[2] as int % 64);
                assert(x.skip(4) =~= base64_text(a.skip(3)));
                assert(y.skip(4) =~= base64_text(b.skip(3)));
                law_base64_injective(a.skip(3), b.skip(3));
                assert forall|i: int| 0 <= i < a.len() implies a[i] == b[i] by {
                    if i >= 3 {
                        assert(a[i] == a.skip(3)[i - 3]);
                        assert(b[i] == b.skip(3)[i - 3]);
                    }
                }
                assert(a.len() == 3 + a.skip(3).len());
                assert(b.len() == 3 + b.skip(3).len());
            }
        }
        assert(a =~= b);
    }
}

/// Append a slice to a vector.
pub(crate) fn push_all(out: &mut Vec<u8>, s: &[u8])
    ensures
        final(out)@ == old(out)@ + s@,
{
    let mut i: usize = 0;
    assert(s@.take(0) =~= Seq::empty());
    assert(out@ =~= old(out)@ + s@.take(0));
    while i < s.len()
        invariant
            i <= s.len(),
            out@ == old(out)@ + s@.take(i as int),
        decreases s.len() - i,
    {
        out.push(s[i]);
        i += 1;
        assert(out@ =~= old(out)@ + s@.take(i as int));
    }
    assert(s@.take(i as int) =~= s@);
}

} // verus!
