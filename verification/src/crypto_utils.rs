//! Hashing, hex text, and recoverable ECDSA signatures over secp256k1.
//!
//! The cryptography is done by `tiny_keccak` and `secp256k1`, the hex text by
//! `hex`, the random bytes by `rand`. What they compute is named here
//! (`keccak256_digest`, `ecdsa_signature`, `recovered_key`, ...) or, where a
//! few lines can say it, written down (`hex_encoding`, `valid_secret_key`).
//! Everything else in this module is proved against those statements.

use crate::error::ErrorKind;
use rand::{thread_rng, RngCore};
use secp256k1::recovery::{RecoverableSignature, RecoveryId};
use secp256k1::{Message, PublicKey, Secp256k1, SecretKey};
use tiny_keccak::{Hasher, Keccak};
use vstd::prelude::*;
use vstd::slice::{slice_subrange, slice_to_vec};
use vstd::string::StrSliceExecFns;

verus! {

// ---------------------------------------------------------------------------
// Hex text
// ---------------------------------------------------------------------------
/// The lower-case hex digit for a value below 16.
pub open spec fn hex_digit(n: int) -> char {
    if n < 10 {
        (n + 48) as u8 as char
    } else {
        (n + 87) as u8 as char
    }
}

/// The hex text of `bytes`: two lower-case digits for each byte, the high
/// half first.
pub open spec fn hex_encoding(bytes: Seq<u8>) -> Seq<char> {
    Seq::new(
        2 * bytes.len(),
        |i: int|
            if i % 2 == 0 {
                hex_digit(bytes[i / 2] as int / 16)
            } else {
                hex_digit(bytes[i / 2] as int % 16)
            },
    )
}

/// Whether `c` is a hex digit, of either case.
pub open spec fn is_hex_digit(c: char) -> bool {
    ('0' <= c && c <= '9') || ('a' <= c && c <= 'f') || ('A' <= c && c <= 'F')
}

/// The value of the hex digit `c`.
pub open spec fn hex_value(c: char) -> int {
    if '0' <= c && c <= '9' {
        c as int - 48
    } else if 'a' <= c && c <= 'f' {
        c as int - 87
    } else {
        c as int - 55
    }
}

/// Whether `text` is hex text: an even number of hex digits.
pub open spec fn hex_decodable(text: Seq<char>) -> bool {
    text.len() % 2 == 0 && forall|i: int| 0 <= i < text.len() ==> is_hex_digit(#[trigger] text[i])
}

/// The bytes that the hex text `text` stands for.
pub open spec fn hex_decoding(text: Seq<char>) -> Seq<u8> {
    Seq::new(
        text.len() / 2,
        |i: int| (hex_value(text[2 * i]) * 16 + hex_value(text[2 * i + 1])) as u8,
    )
}

/// `text` without a leading `0x` or `0X`.
pub open spec fn unprefixed(text: Seq<char>) -> Seq<char> {
    if text.len() >= 2 && text[0] == '0' && (text[1] == 'x' || text[1] == 'X') {
        text.subrange(2, text.len() as int)
    } else {
        text
    }
}

/// The bytes as lower-case hex text.
///
/// Trusted: `hex::encode` writes each byte as two lower-case hex digits, high
/// half first, in the order of the bytes. It allocates a string of twice the
/// length, which must not exceed `isize::MAX`.
#[verifier::external_body]
pub fn b2h(bytes: &[u8]) -> (text: String)
    requires
        2 * bytes@.len() <= isize::MAX,
    ensures
        text@ == hex_encoding(bytes@),
{
    hex::encode(bytes)
}

/// Trusted: `hex::decode` accepts a text of an even number of hex digits, of
/// either case, and returns one byte for each pair of them; it fails on any
/// other text.
#[verifier::external_body]
fn hex_decode(text: &str) -> (bytes: Option<Vec<u8>>)
    ensures
        match bytes {
            Some(b) => hex_decodable(text@) && b@ == hex_decoding(text@),
            None => !hex_decodable(text@),
        },
{
    hex::decode(text).ok()
}

/// The bytes that `h` spells in hex, after an optional `0x` or `0X`; `None`
/// when what follows the prefix is not hex text.
pub fn try_h2b(h: &String) -> (bytes: Option<Vec<u8>>)
    ensures
        match bytes {
            Some(b) => hex_decodable(unprefixed(h@)) && b@ == hex_decoding(unprefixed(h@)),
            None => !hex_decodable(unprefixed(h@)),
        },
{
    let text = h.as_str();
    let n = text.unicode_len();
    if n >= 2 && text.get_char(0) == '0' && (text.get_char(1) == 'x' || text.get_char(1) == 'X') {
        hex_decode(text.substring_char(2, n))
    } else {
        hex_decode(text)
    }
}

/// The bytes that `h` spells in hex, after an optional `0x` or `0X`.
pub fn h2b(h: &String) -> (bytes: Vec<u8>)
    requires
        hex_decodable(unprefixed(h@)),
    ensures
        bytes@ == hex_decoding(unprefixed(h@)),
{
    match try_h2b(h) {
        Some(bytes) => bytes,
        None => Vec::new(),
    }
}

// ---------------------------------------------------------------------------
// Keccak-256
// ---------------------------------------------------------------------------
/// The Keccak-256 digest of `data`, as `tiny_keccak` computes it.
pub uninterp spec fn keccak256_digest(data: Seq<u8>) -> Seq<u8>;

/// Trusted: `Keccak::v256` of `tiny_keccak`, fed `bytes` once and finalized
/// into 32 bytes, yields the Keccak-256 digest of `bytes`.
#[verifier::external_body]
pub(crate) fn keccak_v256(bytes: &[u8]) -> (digest: [u8; 32])
    ensures
        digest@ == keccak256_digest(bytes@),
{
    let mut hasher = Keccak::v256();
    hasher.update(bytes);
    let mut digest = [0u8; 32];
    hasher.finalize(&mut digest);
    digest
}

/// The Keccak-256 digest of `bytes`: always 32 bytes.
pub fn keccak256_hash(bytes: &[u8]) -> (digest: Vec<u8>)
    ensures
        digest@ == keccak256_digest(bytes@),
        digest@.len() == 32,
{
    let digest = keccak_v256(bytes);
    slice_to_vec(digest.as_slice())
}

/// The address that belongs to a public key, given as the 64 bytes of its
/// two coordinates: the last 20 bytes of their digest.
pub open spec fn address_of_public_key(public: Seq<u8>) -> Seq<u8> {
    keccak256_digest(public).subrange(12, 32)
}

/// The 20-byte address of the public key `public` (its coordinates, without
/// the prefix byte).
pub fn public_to_address(public: &[u8]) -> (address: Vec<u8>)
    ensures
        address@ == address_of_public_key(public@),
        address@.len() == 20,
{
    let digest = keccak_v256(public);
    slice_to_vec(slice_subrange(digest.as_slice(), 12, 32))
}

// ---------------------------------------------------------------------------
// Random hex text
// ---------------------------------------------------------------------------
/// Trusted: `fill_bytes` of `rand`'s thread-local generator fills the whole
/// buffer; nothing is known of the bytes.
#[verifier::external_body]
fn random_bytes(len: usize) -> (bytes: Vec<u8>)
    requires
        len <= isize::MAX,
    ensures
        bytes@.len() == len,
{
    let mut bytes = vec![0u8; len];
    thread_rng().fill_bytes(&mut bytes);
    bytes
}

/// The hex text of `len` random bytes.
pub fn rand_hex(len: usize) -> (text: String)
    requires
        2 * len <= isize::MAX,
    ensures
        text@.len() == 2 * len,
        exists|bytes: Seq<u8>| bytes.len() == len && text@ == hex_encoding(bytes),
{
    let data = random_bytes(len);
    b2h(data.as_slice())
}

/// The hex text of 32 random bytes: 64 digits.
pub fn rand_hex32() -> (text: String)
    ensures
        text@.len() == 64,
        exists|bytes: Seq<u8>| bytes.len() == 32 && text@ == hex_encoding(bytes),
{
    rand_hex(32)
}

// ---------------------------------------------------------------------------
// secp256k1
// ---------------------------------------------------------------------------
/// The number that `bytes` spell in base 256, most significant byte first.
pub open spec fn be_value(bytes: Seq<u8>) -> nat
    decreases bytes.len(),
{
    if bytes.len() == 0 {
        0
    } else {
        be_value(bytes.drop_last()) * 256 + bytes.last() as nat
    }
}

/// The order of the group of secp256k1.
pub open spec fn curve_order() -> nat {
    0xffff_ffff_ffff_ffff_ffff_ffff_ffff_fffe_baae_dce6_af48_a03b_bfd2_5e8c_d036_4141nat
}

/// Whether `key` can serve as a secret key: 32 bytes that spell a number
/// which is not zero and is below the order of the group.
pub open spec fn valid_secret_key(key: Seq<u8>) -> bool {
    key.len() == 32 && 0 < be_value(key) < curve_order()
}

/// The uncompressed encoding (65 bytes) of the public key that belongs to the
/// secret key `key`.
pub uninterp spec fn public_key_of(key: Seq<u8>) -> Seq<u8>;

/// The deterministic (RFC 6979) recoverable signature of `hash` under `key`:
/// the 64 bytes of `r` and `s`, and the recovery id.
pub uninterp spec fn ecdsa_signature(hash: Seq<u8>, key: Seq<u8>) -> (Seq<u8>, u8);

/// Whether the 64 bytes `compact` with the recovery id `recovery_id` are
/// accepted as a recoverable signature.
pub uninterp spec fn signature_parses(compact: Seq<u8>, recovery_id: u8) -> bool;

/// The uncompressed encoding of the public key for which the signature is a
/// valid signature of `hash`, if there is such a key.
pub uninterp spec fn recovered_key(hash: Seq<u8>, compact: Seq<u8>, recovery_id: u8) -> Option<
    Seq<u8>,
>;

/// Trusted: `SecretKey::from_slice` accepts exactly the 32-byte strings that
/// are not zero and are below the group order, read most significant byte
/// first.
#[verifier::external_body]
fn secret_key_accepted(key: &[u8]) -> (accepted: bool)
    ensures
        accepted == valid_secret_key(key@),
{
    SecretKey::from_slice(key).is_ok()
}

/// Trusted: `PublicKey::from_secret_key`, serialized uncompressed, gives the
/// 65 bytes of the public key of `key`.
#[verifier::external_body]
fn derive_public_key(key: &[u8]) -> (public: [u8; 65])
    requires
        valid_secret_key(key@),
    ensures
        public@ == public_key_of(key@),
{
    let secret = SecretKey::from_slice(key).unwrap();
    PublicKey::from_secret_key(&Secp256k1::signing_only(), &secret).serialize_uncompressed()
}

/// Trusted: `Secp256k1::sign_recoverable` signs the 32-byte `hash` with `key`
/// and the RFC 6979 nonce, which depends on the two alone; its compact
/// serialization is 64 bytes and a recovery id from 0 to 3. What it makes is
/// a signature of `hash` under `key`, and `Secp256k1::recover` determines the
/// public key for which a signature is valid: so the signature parses, and
/// the key recovered from it is the public key of `key`.
#[verifier::external_body]
fn sign_recoverable(hash: &[u8], key: &[u8]) -> (signature: ([u8; 64], u8))
    requires
        hash@.len() == 32,
        valid_secret_key(key@),
    ensures
        (signature.0@, signature.1) == ecdsa_signature(hash@, key@),
        signature.1 <= 3,
        signature_parses(signature.0@, signature.1),
        recovered_key(hash@, signature.0@, signature.1) == Some(public_key_of(key@)),
{
    let message = Message::from_slice(hash).unwrap();
    let secret = SecretKey::from_slice(key).unwrap();
    let signed = Secp256k1::signing_only().sign_recoverable(&message, &secret);
    let (id, compact) = signed.serialize_compact();
    (compact, id.to_i32() as u8)
}

/// Trusted: `RecoverableSignature::from_compact` decides whether 64 bytes and
/// a recovery id from 0 to 3 are a recoverable signature.
#[verifier::external_body]
fn parses_as_signature(compact: &[u8], recovery_id: u8) -> (parsed: bool)
    requires
        compact@.len() == 64,
        recovery_id <= 3,
    ensures
        parsed == signature_parses(compact@, recovery_id),
{
    let id = RecoveryId::from_i32(recovery_id as i32).unwrap();
    RecoverableSignature::from_compact(compact, id).is_ok()
}

/// Trusted: `Secp256k1::recover` determines the public key for which the
/// signature is a valid signature of the 32-byte `hash`, or fails; the key is
/// handed back in its uncompressed encoding of 65 bytes.
#[verifier::external_body]
fn recover_public_key(hash: &[u8], compact: &[u8], recovery_id: u8) -> (public: Option<[u8; 65]>)
    requires
        hash@.len() == 32,
        compact@.len() == 64,
        recovery_id <= 3,
        signature_parses(compact@, recovery_id),
    ensures
        match public {
            Some(p) => recovered_key(hash@, compact@, recovery_id) == Some(p@),
            None => recovered_key(hash@, compact@, recovery_id) is None,
        },
{
    let message = Message::from_slice(hash).unwrap();
    let id = RecoveryId::from_i32(recovery_id as i32).unwrap();
    let signature = RecoverableSignature::from_compact(compact, id).unwrap();
    Secp256k1::verification_only().recover(&message, &signature).ok().map(
        |p| p.serialize_uncompressed(),
    )
}

/// The address of the secret key `key`: that of its public key.
pub open spec fn address_of_secret_key(key: Seq<u8>) -> Seq<u8> {
    address_of_public_key(public_key_of(key).subrange(1, 65))
}

/// What recovering the signer from the 64 bytes `compact` and the recovery
/// byte `v` gives:
/// - `InvalidSignature` when `v` is above 3 or the bytes do not parse;
/// - `RecoveryFailed` when no key is recovered;
/// - else the address of the recovered key.
pub open spec fn recovery_outcome(hash: Seq<u8>, compact: Seq<u8>, v: u8) -> Result<
    Seq<u8>,
    ErrorKind,
> {
    if v > 3 || !signature_parses(compact, v) {
        Err(ErrorKind::InvalidSignature)
    } else {
        match recovered_key(hash, compact, v) {
            None => Err(ErrorKind::RecoveryFailed),
            Some(public) => Ok(address_of_public_key(public.subrange(1, 65))),
        }
    }
}

/// What recovering the signer of `hash` from the signature bytes `signature`
/// gives: `WrongSignatureLength` unless there are exactly 65 bytes, else what
/// `recovery_outcome` says of the first 64 bytes and the last one.
pub open spec fn signer_outcome(hash: Seq<u8>, signature: Seq<u8>) -> Result<Seq<u8>, ErrorKind> {
    if signature.len() != 65 {
        Err(ErrorKind::WrongSignatureLength)
    } else {
        recovery_outcome(hash, signature.subrange(0, 64), signature[64])
    }
}

/// The 65 bytes of the signature of `hash` under `key`: `r`, `s`, and the
/// recovery id.
pub open spec fn signature_bytes(hash: Seq<u8>, key: Seq<u8>) -> Seq<u8> {
    ecdsa_signature(hash, key).0.push(ecdsa_signature(hash, key).1)
}

/// Whether the executable result `result` is what the model `outcome` says.
pub open spec fn agrees(result: Result<Vec<u8>, ErrorKind>, outcome: Result<Seq<u8>, ErrorKind>)
    -> bool {
    match result {
        Ok(bytes) => outcome == Ok::<Seq<u8>, ErrorKind>(bytes@),
        Err(e) => outcome == Err::<Seq<u8>, ErrorKind>(e),
    }
}

/// Whether `key` can serve as a secret key.
pub fn is_valid_secret_key(key: &[u8]) -> (valid: bool)
    ensures
        valid == valid_secret_key(key@),
{
    secret_key_accepted(key)
}

/// The 20-byte address that belongs to the secret key `sk`.
pub fn private_to_address(sk: &[u8]) -> (address: Vec<u8>)
    requires
        valid_secret_key(sk@),
    ensures
        address@ == address_of_secret_key(sk@),
        address@.len() == 20,
{
    let public = derive_public_key(sk);
    public_to_address(slice_subrange(public.as_slice(), 1, 65))
}

/// A recoverable signature, split into its parts: `r` and `s` of 32 bytes
/// each, and the recovery byte `v`. Its view is the 65 bytes `r`, `s`, `v`.
#[derive(Debug)]
pub struct EcdsaSig {
    v: u64,
    r: Vec<u8>,
    s: Vec<u8>,
}

impl View for EcdsaSig {
    type V = Seq<u8>;

    closed spec fn view(&self) -> Seq<u8> {
        (self.r@ + self.s@).push(self.v as u8)
    }
}

impl EcdsaSig {
    /// `r` and `s` have 32 bytes each, and `v` fits in one byte.
    #[verifier::type_invariant]
    spec fn well_formed(self) -> bool {
        self.r@.len() == 32 && self.s@.len() == 32 && self.v <= 255
    }

    /// Splits the 65 bytes of a signature into `r`, `s` and `v`; any other
    /// length is refused.
    pub fn from(b: &[u8]) -> (sig: Result<Self, ErrorKind>)
        ensures
            match sig {
                Ok(parts) => b@.len() == 65 && parts@ == b@,
                Err(e) => b@.len() != 65 && e == ErrorKind::WrongSignatureLength,
            },
    {
        if b.len() != 65 {
            return Err(ErrorKind::WrongSignatureLength);
        }
        let parts = EcdsaSig {
            r: slice_to_vec(slice_subrange(b, 0, 32)),
            s: slice_to_vec(slice_subrange(b, 32, 64)),
            v: b[64] as u64,
        };
        assert(parts@ =~= b@);
        Ok(parts)
    }

    /// The 65 bytes of the signature: `r`, then `s`, then `v`.
    pub fn to_u8(&self) -> (bytes: Vec<u8>)
        ensures
            bytes@ == self@,
            bytes@.len() == 65,
    {
        proof {
            use_type_invariant(self);
        }
        let mut bytes: Vec<u8> = Vec::with_capacity(65);
        bytes.extend_from_slice(self.r.as_slice());
        bytes.extend_from_slice(self.s.as_slice());
        bytes.push(self.v as u8);
        bytes
    }

    /// The signature as 130 hex digits.
    pub fn to_hex(&self) -> (text: String)
        ensures
            text@ == hex_encoding(self@),
    {
        let bytes = self.to_u8();
        b2h(bytes.as_slice())
    }
}

/// Signs the 32-byte `hash` with the secret key `private_key`.
pub fn ecdsa_sign(hash: &[u8], private_key: &[u8]) -> (sig: EcdsaSig)
    requires
        hash@.len() == 32,
        valid_secret_key(private_key@),
    ensures
        sig@ == signature_bytes(hash@, private_key@),
        signer_outcome(hash@, sig@) == Ok::<Seq<u8>, ErrorKind>(
            address_of_secret_key(private_key@),
        ),
{
    let (compact, id) = sign_recoverable(hash, private_key);
    let sig = EcdsaSig {
        v: id as u64,
        r: slice_to_vec(slice_subrange(compact.as_slice(), 0, 32)),
        s: slice_to_vec(slice_subrange(compact.as_slice(), 32, 64)),
    };
    assert(sig@ =~= compact@.push(id));
    assert(sig@.subrange(0, 64) =~= compact@);
    sig
}

/// Recovers the address of the signer of the 32-byte `hash` from `sig`.
pub fn ecdsa_recover(hash: &[u8], sig: &EcdsaSig) -> (signer: Result<Vec<u8>, ErrorKind>)
    requires
        hash@.len() == 32,
    ensures
        agrees(signer, signer_outcome(hash@, sig@)),
        signer matches Ok(address) ==> address@.len() == 20,
{
    proof {
        use_type_invariant(sig);
    }
    let mut compact: Vec<u8> = Vec::with_capacity(64);
    compact.extend_from_slice(sig.r.as_slice());
    compact.extend_from_slice(sig.s.as_slice());
    assert(sig@.subrange(0, 64) =~= compact@);
    if sig.v > 3 {
        return Err(ErrorKind::InvalidSignature);
    }
    let v = sig.v as u8;
    if !parses_as_signature(compact.as_slice(), v) {
        return Err(ErrorKind::InvalidSignature);
    }
    match recover_public_key(hash, compact.as_slice(), v) {
        None => Err(ErrorKind::RecoveryFailed),
        Some(public) => Ok(public_to_address(slice_subrange(public.as_slice(), 1, 65))),
    }
}

/// Signing and recovery, as one object.
pub struct CryptoUtils {}

impl CryptoUtils {
    /// The object has no state: every one is like every other.
    pub fn new() -> Self {
        CryptoUtils {  }
    }

    /// The 65-byte recoverable signature of the 32-byte `hash` under
    /// `private_key`. Recovering the signer of `hash` from it gives the
    /// address of `private_key`.
    pub fn sign(&self, hash: &[u8], private_key: &[u8]) -> (signature: Vec<u8>)
        requires
            hash@.len() == 32,
            valid_secret_key(private_key@),
        ensures
            signature@ == signature_bytes(hash@, private_key@),
            signature@.len() == 65,
            signer_outcome(hash@, signature@) == Ok::<Seq<u8>, ErrorKind>(
                address_of_secret_key(private_key@),
            ),
    {
        let sig = ecdsa_sign(hash, private_key);
        sig.to_u8()
    }

    /// Signs like `sign`, after testing what `sign` requires: `None` when
    /// `hash` is not 32 bytes long or `private_key` is no secret key.
    pub fn try_sign(&self, hash: &[u8], private_key: &[u8]) -> (signature: Option<Vec<u8>>)
        ensures
            match signature {
                Some(bytes) => hash@.len() == 32 && valid_secret_key(private_key@) && bytes@
                    == signature_bytes(hash@, private_key@),
                None => hash@.len() != 32 || !valid_secret_key(private_key@),
            },
    {
        if hash.len() == 32 && secret_key_accepted(private_key) {
            Some(self.sign(hash, private_key))
        } else {
            None
        }
    }

    /// The address of the signer of the 32-byte `hash`, recovered from the 65
    /// bytes of `sig`:
    /// - `WrongSignatureLength` when `sig` is not 65 bytes long, before
    ///   anything else is looked at;
    /// - `InvalidSignature` when `r`, `s`, `v` are no recoverable signature;
    /// - `RecoveryFailed` when no key is found.
    pub fn recover(&self, hash: &[u8], sig: &[u8]) -> (signer: Result<Vec<u8>, ErrorKind>)
        requires
            hash@.len() == 32,
        ensures
            agrees(signer, signer_outcome(hash@, sig@)),
            signer matches Ok(address) ==> address@.len() == 20,
            sig@.len() != 65 ==> signer == Err::<Vec<u8>, ErrorKind>(
                ErrorKind::WrongSignatureLength,
            ),
    {
        match EcdsaSig::from(sig) {
            Err(e) => Err(e),
            Ok(parts) => ecdsa_recover(hash, &parts),
        }
    }
}

} // verus!
