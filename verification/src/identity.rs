//! A peer's identity: its Ed25519 public key, the fingerprint that names it,
//! and the check of a signed challenge.
use vstd::prelude::*;

use crate::text::{spec_hex, to_hex};

verus! {

/// What SHA-256 gives for `data`.
pub uninterp spec fn sha256(data: Seq<u8>) -> Seq<u8>;

/// Whether `sig` is an Ed25519 signature of `msg` under the public key `pk`.
pub uninterp spec fn ed25519_valid(pk: Seq<u8>, msg: Seq<u8>, sig: Seq<u8>) -> bool;

/// The character of a six-bit value in the standard base64 alphabet:
/// `A`-`Z`, `a`-`z`, `0`-`9`, `+`, `/`.
pub open spec fn base64_digit(v: int) -> char {
    if v < 26 {
        (65 + v) as char
    } else if v < 52 {
        (97 + v - 26) as char
    } else if v < 62 {
        (48 + v - 52) as char
    } else if v == 62 {
        '+'
    } else {
        '/'
    }
}

/// The standard base64 encoding of `data`, with padding: each group of
/// three bytes gives four characters, and a last group of one or two bytes
/// gives two or three, padded with `=` to four.
pub open spec fn base64_standard(data: Seq<u8>) -> Seq<char>
    decreases data.len(),
{
    if data.len() == 0 {
        Seq::empty()
    } else if data.len() == 1 {
        let a = data[0] as int;
        seq![base64_digit(a / 4), base64_digit((a % 4) * 16), '=', '=']
    } else if data.len() == 2 {
        let a = data[0] as int;
        let b = data[1] as int;
        seq![base64_digit(a / 4), base64_digit((a % 4) * 16 + b / 16), base64_digit((b % 16) * 4), '=']
    } else {
        let a = data[0] as int;
        let b = data[1] as int;
        let c = data[2] as int;
        seq![
            base64_digit(a / 4),
            base64_digit((a % 4) * 16 + b / 16),
            base64_digit((b % 16) * 4 + c / 64),
            base64_digit(c % 64),
        ] + base64_standard(data.skip(3))
    }
}

/// `ring::digest::digest` with SHA-256: the digest of `data`, 32 bytes
/// long (SHA-256's output length).
#[verifier::external_body]
fn sha256_digest(data: &[u8; 32]) -> (d: Vec<u8>)
    ensures
        d@ == sha256(data@),
        d@.len() == 32,
{
    ring::digest::digest(&ring::digest::SHA256, data).as_ref().to_vec()
}

/// `ring::signature::UnparsedPublicKey::verify` with Ed25519: whether `sig`
/// signs `msg` under `pk`. It accepts only a key of 32 bytes and a
/// signature of 64.
#[verifier::external_body]
fn ed25519_verify(pk: &[u8], msg: &[u8; 32], sig: &[u8]) -> (b: bool)
    ensures
        b == ed25519_valid(pk@, msg@, sig@),
        b ==> pk@.len() == 32 && sig@.len() == 64,
{
    ring::signature::UnparsedPublicKey::new(&ring::signature::ED25519, pk).verify(msg, sig).is_ok()
}

/// `base64`'s standard engine, `Engine::encode`: the padded base64 text of
/// `data`, 44 characters for 32 bytes.
#[verifier::external_body]
fn base64_encode(data: &[u8; 32]) -> (s: String)
    ensures
        s@ == base64_standard(data@),
        s@.len() == 44,
{
    base64::Engine::encode(&base64::engine::general_purpose::STANDARD, data)
}

/// The public key that an unencrypted PKCS#8 (v2) Ed25519 document holds,
/// when `ring` accepts the document; `None` when it rejects it.
pub uninterp spec fn ed25519_pkcs8_public(pkcs8: Seq<u8>) -> Option<Seq<u8>>;

/// `ring::signature::Ed25519KeyPair::from_pkcs8`, then `public_key()`: the
/// 32-byte public key of the key pair in `pkcs8`, or `None` when the
/// document is rejected.
#[verifier::external_body]
fn pkcs8_public_key(pkcs8: &[u8]) -> (r: Option<[u8; 32]>)
    ensures
        match r {
            Some(pk) => ed25519_pkcs8_public(pkcs8@) == Some(pk@),
            None => ed25519_pkcs8_public(pkcs8@) is None,
        },
{
    match ring::signature::Ed25519KeyPair::from_pkcs8(pkcs8) {
        Ok(kp) => {
            let mut pk = [0u8; 32];
            pk.copy_from_slice(ring::signature::KeyPair::public_key(&kp).as_ref());
            Some(pk)
        },
        Err(_) => None,
    }
}

/// Why a stored identity could not be loaded.
#[derive(Debug, Clone, Copy, PartialEq, Eq, Structural)]
pub enum IdentityError {
    /// The key file is not a PKCS#8 Ed25519 key pair.
    InvalidKey,
}

impl IdentityError {
    /// The reason reported for the failure.
    pub fn message(&self) -> (m: &'static str)
        ensures
            m@ == "invalid pkcs8 key"@,
    {
        match *self {
            IdentityError::InvalidKey => "invalid pkcs8 key",
        }
    }
}

/// The identity stored in a PKCS#8 key file: its public key and the peer
/// name derived from it; `InvalidKey` exactly when the file is not a key
/// pair.
pub fn identity_from_pkcs8(pkcs8: &[u8]) -> (r: Result<([u8; 32], String), IdentityError>)
    ensures
        match r {
            Ok((pk, id)) => ed25519_pkcs8_public(pkcs8@) == Some(pk@) && id@ == spec_hex(
                sha256(pk@).take(16),
            ),
            Err(e) => e == IdentityError::InvalidKey && ed25519_pkcs8_public(pkcs8@) is None,
        },
{
    match pkcs8_public_key(pkcs8) {
        Some(pk) => {
            let id = fingerprint_peer_id(&pk);
            Ok((pk, id))
        },
        None => Err(IdentityError::InvalidKey),
    }
}

/// The name of a peer: the first 16 bytes of the SHA-256 of its public key,
/// in lower-case hexadecimal.
pub fn fingerprint_peer_id(public_key: &[u8; 32]) -> (id: String)
    ensures
        id@ == spec_hex(sha256(public_key@).take(16)),
        id@.len() == 32,
{
    let hash = sha256_digest(public_key);
    let mut first: Vec<u8> = Vec::new();
    let mut i: usize = 0;
    while i < 16
        invariant
            i <= 16,
            hash@.len() == 32,
            first@ == hash@.take(i as int),
        decreases 16 - i,
    {
        first.push(hash[i]);
        i = i + 1;
        assert(first@ =~= hash@.take(i as int));
    }
    to_hex(first.as_slice())
}

/// Whether `signature_bytes` signs `challenge` under `pubkey` (Ed25519).
pub fn verify_signature(pubkey: &[u8], challenge: &[u8; 32], signature_bytes: &[u8]) -> (ok: bool)
    ensures
        ok == ed25519_valid(pubkey@, challenge@, signature_bytes@),
        ok ==> pubkey@.len() == 32,
{
    ed25519_verify(pubkey, challenge, signature_bytes)
}

/// A public key in base64, as peers are allowed by.
pub fn public_key_b64(public_key: &[u8; 32]) -> (s: String)
    ensures
        s@ == base64_standard(public_key@),
{
    base64_encode(public_key)
}

/// Why an identity handshake failed.
#[derive(Debug, Clone, Copy, PartialEq, Eq, Structural)]
pub enum HandshakeError {
    /// The peer did not sign our challenge; `initiator` says whether we
    /// opened the connection.
    InvalidSignature { initiator: bool },
}

impl HandshakeError {
    /// The reason reported for the failure.
    pub fn message(&self) -> (m: &'static str)
        ensures
            m@ == match *self {
                HandshakeError::InvalidSignature { initiator } => if initiator {
                    "invalid signature from peer"@
                } else {
                    "invalid signature from initiator"@
                },
            },
    {
        match *self {
            HandshakeError::InvalidSignature { initiator } => if initiator {
                "invalid signature from peer"
            } else {
                "invalid signature from initiator"
            },
        }
    }
}

/// The first 32 bytes of a key.
pub open spec fn key32(pk: Seq<u8>) -> Seq<u8> {
    pk.take(32)
}

/// The end of an identity handshake: the peer must have signed our
/// challenge with the key it presented; then it is known by that key's
/// fingerprint.
pub fn handshake_peer_id(
    peer_pubkey: &Vec<u8>,
    my_challenge: &[u8; 32],
    peer_sig: &Vec<u8>,
    initiator: bool,
) -> (r: Result<String, HandshakeError>)
    ensures
        ed25519_valid(peer_pubkey@, my_challenge@, peer_sig@) ==> (r matches Ok(id) && id@ == spec_hex(
            sha256(key32(peer_pubkey@)).take(16),
        )),
        !ed25519_valid(peer_pubkey@, my_challenge@, peer_sig@) ==> r == Err::<String, HandshakeError>(
            HandshakeError::InvalidSignature { initiator },
        ),
{
    if !verify_signature(peer_pubkey.as_slice(), my_challenge, peer_sig.as_slice()) {
        return Err(HandshakeError::InvalidSignature { initiator });
    }
    let mut key = [0u8; 32];
    let mut i: usize = 0;
    while i < 32
        invariant
            i <= 32,
            peer_pubkey@.len() == 32,
            forall|j: int| 0 <= j < i ==> key@[j] == peer_pubkey@[j],
        decreases 32 - i,
    {
        key[i] = peer_pubkey[i];
        i = i + 1;
    }
    assert(key@ =~= key32(peer_pubkey@));
    Ok(fingerprint_peer_id(&key))
}

/// A verified peer is let in: always without a key to match; else when the
/// expected key is empty, is the peer's public key in base64, or is the
/// peer's name.
pub open spec fn spec_peer_allowed(peer_id: Seq<char>, key_b64: Seq<char>, expected: Option<Seq<char>>) -> bool {
    match expected {
        None => true,
        Some(e) => e.len() == 0 || peer_id == e || key_b64 == e,
    }
}

/// Whether a verified peer is let in (see `spec_peer_allowed`); `key_b64`
/// is its public key in base64 (see `public_key_b64`).
pub fn peer_allowed(peer_id: &String, key_b64: &String, expected: &Option<String>) -> (b: bool)
    ensures
        b == spec_peer_allowed(
            peer_id@,
            key_b64@,
            match expected {
                Some(e) => Some(e@),
                None => None,
            },
        ),
{
    match expected {
        None => true,
        Some(e) => {
            let empty = String::new();
            proof {
                if e@.len() == 0 {
                    assert(e@ =~= empty@);
                }
            }
            *e == empty || *peer_id == *e || *key_b64 == *e
        },
    }
}

/// Where a handshake stream stands: the peer's messages come in the order
/// hello, identity, acknowledgement.
#[derive(Debug, Clone, Copy, PartialEq, Eq, Structural)]
pub enum HandshakeStage {
    AwaitHello,
    AwaitInit,
    AwaitAck,
    Done,
}

/// The kind of a message read from a handshake stream.
#[derive(Debug, Clone, Copy, PartialEq, Eq, Structural)]
pub enum HandshakeMsgKind {
    Hello,
    IdentityInit,
    IdentityAck,
    Other,
}

/// The message a stage waits for.
pub open spec fn awaited(stage: HandshakeStage) -> Option<HandshakeMsgKind> {
    match stage {
        HandshakeStage::AwaitHello => Some(HandshakeMsgKind::Hello),
        HandshakeStage::AwaitInit => Some(HandshakeMsgKind::IdentityInit),
        HandshakeStage::AwaitAck => Some(HandshakeMsgKind::IdentityAck),
        HandshakeStage::Done => None,
    }
}

/// The stage after a stage's message.
pub open spec fn after(stage: HandshakeStage) -> HandshakeStage {
    match stage {
        HandshakeStage::AwaitHello => HandshakeStage::AwaitInit,
        HandshakeStage::AwaitInit => HandshakeStage::AwaitAck,
        _ => HandshakeStage::Done,
    }
}

/// Reading a message of `kind` at `stage`: the next stage when it is the
/// awaited message; otherwise the name of the message that was awaited
/// (`"nothing"` once the handshake is done), and the handshake fails.
pub fn handshake_read(stage: HandshakeStage, kind: HandshakeMsgKind) -> (r: Result<HandshakeStage, &'static str>)
    ensures
        awaited(stage) == Some(kind) ==> r == Ok::<HandshakeStage, &'static str>(after(stage)),
        awaited(stage) != Some(kind) ==> (r matches Err(name) && name@ == match stage {
            HandshakeStage::AwaitHello => "Hello"@,
            HandshakeStage::AwaitInit => "IdentityInit"@,
            HandshakeStage::AwaitAck => "IdentityAck"@,
            HandshakeStage::Done => "nothing"@,
        }),
{
    match (stage, kind) {
        (HandshakeStage::AwaitHello, HandshakeMsgKind::Hello) => Ok(HandshakeStage::AwaitInit),
        (HandshakeStage::AwaitInit, HandshakeMsgKind::IdentityInit) => Ok(HandshakeStage::AwaitAck),
        (HandshakeStage::AwaitAck, HandshakeMsgKind::IdentityAck) => Ok(HandshakeStage::Done),
        (HandshakeStage::AwaitHello, _) => Err("Hello"),
        (HandshakeStage::AwaitInit, _) => Err("IdentityInit"),
        (HandshakeStage::AwaitAck, _) => Err("IdentityAck"),
        (HandshakeStage::Done, _) => Err("nothing"),
    }
}

} // verus!
