//! Hybrid public-key cryptography: ECDSA signatures, ECDH key agreement on
//! P-256, and AES-256-GCM authenticated encryption, all through OpenSSL.
//!
//! Encryption is hybrid: a fresh ephemeral P-256 key agrees with the
//! recipient's public key, the symmetric key is SHA-256 of a random salt
//! followed by the shared secret, and AES-256-GCM seals the plaintext under
//! a random 12-byte IV with a 16-byte tag. Every byte field travels as text:
//! the ephemeral public key as base64, the rest as lower-case hex.
//!
//! What OpenSSL computes is named by uninterpreted spec functions; the
//! verified code proves that decryption composes those names back to the
//! plaintext that encryption started from.

use vstd::prelude::*;
use base64::Engine;
use openssl::bn::BigNumContext;
use openssl::derive::Deriver;
use openssl::ec::EcGroup;
use openssl::ec::EcKey;
use openssl::ec::EcPoint;
use openssl::ec::PointConversionForm;
use openssl::nid::Nid;
use openssl::pkey::PKey;
use openssl::sign::Signer;
use openssl::sign::Verifier;
use crate::CryptoError;
use crate::hexfmt::hex_bytes_of;
use crate::hexfmt::hex_decode;
use crate::hexfmt::hex_encode;
use crate::hexfmt::hex_of;
use crate::hexfmt::lemma_hex_bytes_len;
use crate::hexfmt::lemma_hex_of_len;
use crate::hexfmt::lemma_hex_round_trip;

verus! {

/// Encrypted payload of the hybrid scheme; each field is text on the wire.
#[derive(Debug, Clone)]
pub struct Encrypted {
    pub ephemeral_pk: String,
    pub salt: String,
    pub iv: String,
    pub ciphertext: String,
    pub tag: String,
}

/// Crypto utilities: ECDSA, ECDH, AES-GCM.
#[derive(Clone, Copy)]
pub struct Crypto;

/// The largest byte length the OpenSSL bindings pass to C whole: they
/// convert buffer lengths to C's `int` and panic past its range, so every
/// byte-string argument handed to them must stay within this bound.
pub const OSSL_MAX_LEN: usize = 0x7fff_ffff;

/// The PEM public key that belongs to a PEM private key.
pub uninterp spec fn pub_pem_of(private_pem: Seq<u8>) -> Seq<u8>;

/// Whether ECDSA verification accepts the signature for this public key
/// and message.
pub uninterp spec fn sig_valid(public_pem: Seq<u8>, message: Seq<u8>, signature: Seq<u8>) -> bool;

/// The ECDH shared secret between a PEM private key and a peer public key
/// given as uncompressed point bytes; `None` when either is invalid.
pub uninterp spec fn shared_of(private_pem: Seq<u8>, peer_point: Seq<u8>) -> Option<Seq<u8>>;

/// The SHA-256 digest of a byte string.
pub uninterp spec fn sha256_of(data: Seq<u8>) -> Seq<u8>;

/// The plaintext that AES-256-GCM decryption returns for this key, IV,
/// ciphertext, and tag; `None` when it rejects them.
pub uninterp spec fn gcm_dec_of(key: Seq<u8>, iv: Seq<u8>, ct: Seq<u8>, tag: Seq<u8>) -> Option<
    Seq<u8>,
>;

/// The standard base64 text of a byte string.
pub uninterp spec fn b64_of(data: Seq<u8>) -> Seq<char>;

/// The byte string that standard base64 decoding returns; `None` when the
/// text is not valid base64.
pub uninterp spec fn b64_dec_of(text: Seq<char>) -> Option<Seq<u8>>;

/// The five decoded byte fields of a payload, or `None` if any field fails
/// to decode: ephemeral point, salt, IV, ciphertext, tag.
pub open spec fn dec_fields(e: Encrypted) -> Option<(Seq<u8>, Seq<u8>, Seq<u8>, Seq<u8>, Seq<u8>)> {
    match (
        b64_dec_of(e.ephemeral_pk@),
        hex_bytes_of(e.salt@),
        hex_bytes_of(e.iv@),
        hex_bytes_of(e.ciphertext@),
        hex_bytes_of(e.tag@),
    ) {
        (Some(eph), Some(salt), Some(iv), Some(ct), Some(tag)) => Some((eph, salt, iv, ct, tag)),
        _ => None,
    }
}

/// What decrypting a payload with a private key yields: decode the fields,
/// agree on the shared secret, rederive the symmetric key, and open the
/// ciphertext; `None` at the first step that fails.
pub open spec fn dec_spec(private_pem: Seq<u8>, e: Encrypted) -> Option<Seq<u8>> {
    match dec_fields(e) {
        Some(f) => match shared_of(private_pem, f.0) {
            Some(shared) => gcm_dec_of(sha256_of(f.1 + shared), f.2, f.3, f.4),
            None => None,
        },
        None => None,
    }
}

/// Relies on OpenSSL `EcKey::generate` on P-256 with ECDH `Deriver`: the
/// returned point bytes are an ephemeral public key in uncompressed
/// encoding, which on P-256 is exactly 65 bytes, and its agreement with
/// the recipient key gives the returned shared secret, so any private key
/// matching the recipient key agrees on the same secret.
#[verifier::external_body]
fn agree_ephemeral(recipient_public_pem: &[u8]) -> (r: Option<(Vec<u8>, Vec<u8>)>)
    requires
        recipient_public_pem@.len() <= OSSL_MAX_LEN,
    ensures
        match r {
            Some(out) => out.0@.len() == 65 && forall|sk: Seq<u8>|
                pub_pem_of(sk) == recipient_public_pem@ ==> #[trigger] shared_of(sk, out.0@)
                    == Some(out.1@),
            None => true,
        },
{
    let group = EcGroup::from_curve_name(Nid::X9_62_PRIME256V1).ok()?;
    let rp = PKey::from_ec_key(EcKey::public_key_from_pem(recipient_public_pem).ok()?).ok()?;
    let eph = EcKey::generate(&group).ok()?;
    let mut ctx = BigNumContext::new().ok()?;
    let form = PointConversionForm::UNCOMPRESSED;
    let eph_pub = eph.public_key().to_bytes(&group, form, &mut ctx).ok()?;
    let ep = PKey::from_ec_key(eph).ok()?;
    let mut deriver = Deriver::new(&ep).ok()?;
    deriver.set_peer(&rp).ok()?;
    Some((eph_pub, deriver.derive_to_vec().ok()?))
}

/// Relies on OpenSSL ECDH `Deriver`: derivation is a function of the two
/// keys alone, so the call succeeds exactly when the shared secret is
/// defined for this private key and peer point, and then returns it.
#[verifier::external_body]
fn derive_shared(private_pem: &[u8], peer_point: &[u8]) -> (r: Option<Vec<u8>>)
    requires
        private_pem@.len() <= OSSL_MAX_LEN,
        peer_point@.len() <= OSSL_MAX_LEN,
    ensures
        match r {
            Some(s) => shared_of(private_pem@, peer_point@) == Some(s@),
            None => shared_of(private_pem@, peer_point@) is None,
        },
{
    let group = EcGroup::from_curve_name(Nid::X9_62_PRIME256V1).ok()?;
    let sk = EcKey::private_key_from_pem(private_pem).ok()?;
    let mut ctx = BigNumContext::new().ok()?;
    let pt = EcPoint::from_bytes(&group, peer_point, &mut ctx).ok()?;
    let ep = PKey::from_ec_key(EcKey::from_public_key(&group, &pt).ok()?).ok()?;
    let mp = PKey::from_ec_key(sk).ok()?;
    let mut deriver = Deriver::new(&mp).ok()?;
    deriver.set_peer(&ep).ok()?;
    deriver.derive_to_vec().ok()
}

/// Relies on OpenSSL `sha::sha256`: the result is the 32-byte digest.
#[verifier::external_body]
fn sha256_bytes(data: &[u8]) -> (r: Vec<u8>)
    ensures
        r@ == sha256_of(data@),
        r@.len() == 32,
{
    openssl::sha::sha256(data).to_vec()
}

/// Relies on OpenSSL `rand::rand_bytes`: on success the buffer has the
/// requested length; nothing is assumed about its contents.
#[verifier::external_body]
fn random_bytes(n: usize) -> (r: Result<Vec<u8>, CryptoError>)
    requires
        n <= OSSL_MAX_LEN,
    ensures
        match r {
            Ok(v) => v@.len() == n,
            Err(e) => e == CryptoError::Primitive,
        },
{
    let mut buf = vec![0u8; n];
    openssl::rand::rand_bytes(&mut buf).map_err(|_| CryptoError::Primitive)?;
    Ok(buf)
}

/// Relies on OpenSSL `symm::encrypt_aead` with AES-256-GCM: decrypting the
/// returned ciphertext and tag under the same key and IV gives back the
/// plaintext; the ciphertext has the plaintext's length and the tag 16
/// bytes.
#[verifier::external_body]
fn gcm_seal(key: &[u8], iv: &[u8], plaintext: &[u8]) -> (r: Result<
    (Vec<u8>, Vec<u8>),
    CryptoError,
>)
    requires
        key@.len() <= OSSL_MAX_LEN,
        iv@.len() <= OSSL_MAX_LEN,
        plaintext@.len() <= OSSL_MAX_LEN,
    ensures
        match r {
            Ok(out) => gcm_dec_of(key@, iv@, out.0@, out.1@) == Some(plaintext@) && out.0@.len()
                == plaintext@.len() && out.1@.len() == 16,
            Err(e) => e == CryptoError::Primitive,
        },
{
    let mut tag = [0u8; 16];
    let cipher = openssl::symm::Cipher::aes_256_gcm();
    let ct = openssl::symm::encrypt_aead(cipher, key, Some(iv), &[], plaintext, &mut tag).map_err(
        |_| CryptoError::Primitive,
    )?;
    Ok((ct, tag.to_vec()))
}

/// Relies on OpenSSL `symm::decrypt_aead` with AES-256-GCM: decryption is
/// a function of its arguments alone, so the call succeeds exactly when
/// this key, IV, ciphertext, and tag decrypt to a plaintext, and then
/// returns it.
#[verifier::external_body]
fn gcm_open(key: &[u8], iv: &[u8], ciphertext: &[u8], tag: &[u8]) -> (r: Result<
    Vec<u8>,
    CryptoError,
>)
    requires
        key@.len() <= OSSL_MAX_LEN,
        iv@.len() <= OSSL_MAX_LEN,
        ciphertext@.len() <= OSSL_MAX_LEN,
        tag@.len() <= OSSL_MAX_LEN,
    ensures
        match r {
            Ok(p) => gcm_dec_of(key@, iv@, ciphertext@, tag@) == Some(p@),
            Err(e) => gcm_dec_of(key@, iv@, ciphertext@, tag@) is None && e
                == CryptoError::AuthenticationFailure,
        },
{
    let cipher = openssl::symm::Cipher::aes_256_gcm();
    openssl::symm::decrypt_aead(cipher, key, Some(iv), &[], ciphertext, tag).map_err(
        |_| CryptoError::AuthenticationFailure,
    )
}

/// Relies on `base64::engine::general_purpose::STANDARD.encode`: the result
/// is the standard padded base64 text of the input, four characters for
/// every started group of three bytes, and standard base64 decoding gives
/// the input back.
#[verifier::external_body]
fn b64_encode(data: &[u8]) -> (r: String)
    ensures
        r@ == b64_of(data@),
        r@.len() == ((data@.len() + 2) / 3) * 4,
        b64_dec_of(r@) == Some(data@),
{
    base64::engine::general_purpose::STANDARD.encode(data)
}

/// Relies on `base64::engine::general_purpose::STANDARD.decode`: it
/// succeeds exactly on valid standard base64 and returns the denoted
/// bytes, which are fewer than the characters decoded.
#[verifier::external_body]
fn b64_decode(text: &str) -> (r: Result<Vec<u8>, CryptoError>)
    ensures
        match r {
            Ok(v) => b64_dec_of(text@) == Some(v@) && v@.len() <= text@.len(),
            Err(e) => b64_dec_of(text@) is None && e == CryptoError::Malformed,
        },
{
    base64::engine::general_purpose::STANDARD.decode(text).map_err(|_| CryptoError::Malformed)
}

/// Relies on OpenSSL `Verifier::new_without_digest` with an EC key:
/// returns whether ECDSA verification accepts the signature, and folds
/// every failure, including malformed keys and signatures, to `false`
/// without panicking; the length bound keeps the bindings' conversion to
/// C's `int` in range.
#[verifier::external_body]
fn verify_raw(public_pem: &[u8], message: &[u8], signature: &[u8]) -> (r: bool)
    requires
        public_pem@.len() <= OSSL_MAX_LEN,
        message@.len() <= OSSL_MAX_LEN,
        signature@.len() <= OSSL_MAX_LEN,
    ensures
        r == sig_valid(public_pem@, message@, signature@),
{
    if let Ok(key) = EcKey::public_key_from_pem(public_pem) {
        if let Ok(pkey) = PKey::from_ec_key(key) {
            if let Ok(mut verifier) = Verifier::new_without_digest(&pkey) {
                if verifier.update(message).is_ok() {
                    return verifier.verify(signature).unwrap_or(false);
                }
            }
        }
    }
    false
}

impl Crypto {
    /// Relies on OpenSSL `EcKey::generate` on P-256 with the PEM
    /// serializers: the two PEMs are a matched pair, so the public PEM is
    /// the one that belongs to the private PEM.
    #[verifier::external_body]
    pub fn generate_keypair() -> (r: Result<(Vec<u8>, Vec<u8>), CryptoError>)
        ensures
            match r {
                Ok(kp) => kp.1@ == pub_pem_of(kp.0@),
                Err(e) => e == CryptoError::Primitive,
            },
    {
        let group = EcGroup::from_curve_name(Nid::X9_62_PRIME256V1).map_err(
            |_| CryptoError::Primitive,
        )?;
        let key = EcKey::generate(&group).map_err(|_| CryptoError::Primitive)?;
        let private_pem = key.private_key_to_pem().map_err(|_| CryptoError::Primitive)?;
        let public_pem = key.public_key_to_pem().map_err(|_| CryptoError::Primitive)?;
        Ok((private_pem, public_pem))
    }

    /// Relies on OpenSSL `Signer::new_without_digest` with an EC key:
    /// ECDSA over the exact message bytes, so on success the signature is
    /// valid for the matching public key.
    #[verifier::external_body]
    pub fn sign(private_pem: &[u8], message: &[u8]) -> (r: Result<Vec<u8>, CryptoError>)
        requires
            private_pem@.len() <= OSSL_MAX_LEN,
            message@.len() <= OSSL_MAX_LEN,
        ensures
            match r {
                Ok(sig) => sig_valid(pub_pem_of(private_pem@), message@, sig@),
                Err(e) => e == CryptoError::Malformed || e == CryptoError::Primitive,
            },
    {
        let key = EcKey::private_key_from_pem(private_pem).map_err(|_| CryptoError::Malformed)?;
        let pkey = PKey::from_ec_key(key).map_err(|_| CryptoError::Primitive)?;
        let mut signer = Signer::new_without_digest(&pkey).map_err(|_| CryptoError::Primitive)?;
        signer.update(message).map_err(|_| CryptoError::Primitive)?;
        signer.sign_to_vec().map_err(|_| CryptoError::Primitive)
    }

    /// Whether the signature verifies for this public key and message.
    /// Total on attacker-controlled input: buffers too long for the
    /// OpenSSL bindings are answered with `false`, and within their range
    /// the verdict is exactly ECDSA acceptance.
    pub fn verify(public_pem: &[u8], message: &[u8], signature: &[u8]) -> (r: bool)
        ensures
            (public_pem@.len() <= OSSL_MAX_LEN && message@.len() <= OSSL_MAX_LEN
                && signature@.len() <= OSSL_MAX_LEN) ==> r == sig_valid(
                public_pem@,
                message@,
                signature@,
            ),
            !(public_pem@.len() <= OSSL_MAX_LEN && message@.len() <= OSSL_MAX_LEN
                && signature@.len() <= OSSL_MAX_LEN) ==> r == false,
    {
        if public_pem.len() > OSSL_MAX_LEN || message.len() > OSSL_MAX_LEN || signature.len()
            > OSSL_MAX_LEN {
            return false;
        }
        verify_raw(public_pem, message, signature)
    }

    /// Encrypt a message for a recipient public key: fresh ephemeral ECDH
    /// agreement, key derivation by SHA-256 over salt and shared secret,
    /// and AES-256-GCM. Any private key matching the recipient key
    /// decrypts the payload back to the plaintext.
    pub fn encrypt(recipient_public_pem: &[u8], plaintext: &[u8]) -> (r: Result<
        Encrypted,
        CryptoError,
    >)
        requires
            recipient_public_pem@.len() <= OSSL_MAX_LEN,
            plaintext@.len() <= OSSL_MAX_LEN,
        ensures
            r matches Ok(e) ==> forall|sk: Seq<u8>|
                pub_pem_of(sk) == recipient_public_pem@ ==> #[trigger] dec_spec(sk, e) == Some(
                    plaintext@,
                ),
            r matches Ok(e) ==> e.salt@.len() == 32 && e.iv@.len() == 24 && e.tag@.len() == 32
                && e.ciphertext@.len() == 2 * plaintext@.len() && e.ephemeral_pk@.len() == 88,
            r matches Ok(e) ==> (b64_dec_of(e.ephemeral_pk@) matches Some(eph) && eph.len() == 65),
    {
        let (eph_pub, shared) = match agree_ephemeral(recipient_public_pem) {
            Some(out) => out,
            None => {
                return Err(CryptoError::Primitive);
            },
        };
        let salt = match random_bytes(16) {
            Ok(v) => v,
            Err(e) => {
                return Err(e);
            },
        };
        let iv = match random_bytes(12) {
            Ok(v) => v,
            Err(e) => {
                return Err(e);
            },
        };
        let mut ikm: Vec<u8> = Vec::new();
        ikm.extend_from_slice(salt.as_slice());
        ikm.extend_from_slice(shared.as_slice());
        let key = sha256_bytes(ikm.as_slice());
        let (ct, tag) = match gcm_seal(key.as_slice(), iv.as_slice(), plaintext) {
            Ok(out) => out,
            Err(e) => {
                return Err(e);
            },
        };
        let enc = Encrypted {
            ephemeral_pk: b64_encode(eph_pub.as_slice()),
            salt: hex_encode(&salt),
            iv: hex_encode(&iv),
            ciphertext: hex_encode(&ct),
            tag: hex_encode(&tag),
        };
        proof {
            lemma_hex_round_trip(salt@);
            lemma_hex_round_trip(iv@);
            lemma_hex_round_trip(ct@);
            lemma_hex_round_trip(tag@);
            lemma_hex_of_len(salt@);
            lemma_hex_of_len(iv@);
            lemma_hex_of_len(ct@);
            lemma_hex_of_len(tag@);
            assert(ikm@ =~= salt@ + shared@);
            assert(dec_fields(enc) == Some((eph_pub@, salt@, iv@, ct@, tag@)));
            assert forall|sk: Seq<u8>|
                pub_pem_of(sk) == recipient_public_pem@ implies #[trigger] dec_spec(sk, enc)
                == Some(plaintext@) by {
                assert(shared_of(sk, eph_pub@) == Some(shared@));
            };
        }
        Ok(enc)
    }

    /// Decrypt a payload with a private key: decode the text fields, agree
    /// on the shared secret with the embedded ephemeral key, rederive the
    /// symmetric key, and open the ciphertext. This succeeds exactly when
    /// the payload decrypts under the key, and then returns that
    /// plaintext; it fails closed otherwise, with a payload whose fields
    /// do not decode rejected as malformed.
    pub fn decrypt(private_pem: &[u8], enc: &Encrypted) -> (r: Result<Vec<u8>, CryptoError>)
        requires
            private_pem@.len() <= OSSL_MAX_LEN,
            enc.ephemeral_pk@.len() <= OSSL_MAX_LEN,
            enc.salt@.len() <= 2 * OSSL_MAX_LEN,
            enc.iv@.len() <= 2 * OSSL_MAX_LEN,
            enc.ciphertext@.len() <= 2 * OSSL_MAX_LEN,
            enc.tag@.len() <= 2 * OSSL_MAX_LEN,
        ensures
            r matches Ok(p) ==> dec_spec(private_pem@, *enc) == Some(p@),
            dec_spec(private_pem@, *enc) matches Some(p) ==> (r matches Ok(v) && v@ == p),
            dec_spec(private_pem@, *enc) is None ==> r is Err,
            dec_fields(*enc) is None ==> r == Err::<Vec<u8>, CryptoError>(CryptoError::Malformed),
    {
        let eph_pub = match b64_decode(enc.ephemeral_pk.as_str()) {
            Ok(v) => v,
            Err(_) => {
                return Err(CryptoError::Malformed);
            },
        };
        let salt = match hex_decode(enc.salt.as_str()) {
            Ok(v) => v,
            Err(_) => {
                return Err(CryptoError::Malformed);
            },
        };
        let iv = match hex_decode(enc.iv.as_str()) {
            Ok(v) => v,
            Err(_) => {
                return Err(CryptoError::Malformed);
            },
        };
        let ct = match hex_decode(enc.ciphertext.as_str()) {
            Ok(v) => v,
            Err(_) => {
                return Err(CryptoError::Malformed);
            },
        };
        let tag = match hex_decode(enc.tag.as_str()) {
            Ok(v) => v,
            Err(_) => {
                return Err(CryptoError::Malformed);
            },
        };
        let shared = match derive_shared(private_pem, eph_pub.as_slice()) {
            Some(s) => s,
            None => {
                return Err(CryptoError::Malformed);
            },
        };
        let mut ikm: Vec<u8> = Vec::new();
        ikm.extend_from_slice(salt.as_slice());
        ikm.extend_from_slice(shared.as_slice());
        let key = sha256_bytes(ikm.as_slice());
        proof {
            assert(ikm@ =~= salt@ + shared@);
            lemma_hex_bytes_len(enc.iv@);
            lemma_hex_bytes_len(enc.ciphertext@);
            lemma_hex_bytes_len(enc.tag@);
        }
        let out = match gcm_open(key.as_slice(), iv.as_slice(), ct.as_slice(), tag.as_slice()) {
            Ok(p) => p,
            Err(e) => {
                return Err(e);
            },
        };
        Ok(out)
    }
}

/// The round trip: once encryption for the matching public key has
/// produced a payload, decryption of that payload cannot fail and can only
/// give the original plaintext back; this returns `None` exactly when
/// encryption itself failed.
pub fn encrypt_then_decrypt(private_pem: &[u8], public_pem: &[u8], plaintext: &[u8]) -> (r: Option<
    Vec<u8>,
>)
    requires
        public_pem@ == pub_pem_of(private_pem@),
        private_pem@.len() <= OSSL_MAX_LEN,
        public_pem@.len() <= OSSL_MAX_LEN,
        plaintext@.len() <= OSSL_MAX_LEN,
    ensures
        r matches Some(p) ==> p@ == plaintext@,
{
    match Crypto::encrypt(public_pem, plaintext) {
        Ok(enc) => match Crypto::decrypt(private_pem, &enc) {
            Ok(p) => Some(p),
            Err(_) => {
                proof {
                    assert(false);
                }
                None
            },
        },
        Err(_) => None,
    }
}

/// The round trip on a fresh key pair: encrypt for the new public key,
/// decrypt with the new private key, and any result is the plaintext.
pub fn encrypt_then_decrypt_fresh(plaintext: &[u8]) -> (r: Option<Vec<u8>>)
    ensures
        r matches Some(p) ==> p@ == plaintext@,
{
    match Crypto::generate_keypair() {
        Ok(kp) => {
            if kp.0.len() <= OSSL_MAX_LEN && kp.1.len() <= OSSL_MAX_LEN && plaintext.len()
                <= OSSL_MAX_LEN {
                encrypt_then_decrypt(kp.0.as_slice(), kp.1.as_slice(), plaintext)
            } else {
                None
            }
        },
        Err(_) => None,
    }
}

/// A signature just produced with a private key verifies under the
/// matching public key: whenever signing succeeds, verification accepts.
pub fn sign_then_verify(private_pem: &[u8], public_pem: &[u8], message: &[u8]) -> (r: Option<bool>)
    requires
        public_pem@ == pub_pem_of(private_pem@),
        private_pem@.len() <= OSSL_MAX_LEN,
        public_pem@.len() <= OSSL_MAX_LEN,
        message@.len() <= OSSL_MAX_LEN,
    ensures
        r matches Some(b) ==> b,
{
    match Crypto::sign(private_pem, message) {
        Ok(sig) => {
            if sig.len() <= OSSL_MAX_LEN {
                Some(Crypto::verify(public_pem, message, sig.as_slice()))
            } else {
                None
            }
        },
        Err(_) => None,
    }
}

/// Sign-then-verify on a fresh key pair: whenever signing succeeds,
/// verification accepts.
pub fn sign_then_verify_fresh(message: &[u8]) -> (r: Option<bool>)
    ensures
        r matches Some(b) ==> b,
{
    match Crypto::generate_keypair() {
        Ok(kp) => {
            if kp.0.len() <= OSSL_MAX_LEN && kp.1.len() <= OSSL_MAX_LEN && message.len()
                <= OSSL_MAX_LEN {
                sign_then_verify(kp.0.as_slice(), kp.1.as_slice(), message)
            } else {
                None
            }
        },
        Err(_) => None,
    }
}

} // verus!
