//! The secure session: an ephemeral X25519 key agreement, a SHA-256 derived
//! ChaCha20-Poly1305 key, the packet format `nonce || ciphertext`, and the
//! fingerprint that users compare to detect a man in the middle.

use chacha20poly1305::aead::Aead;
use chacha20poly1305::{ChaCha20Poly1305, Key, KeyInit, Nonce};
use rand::RngCore;
use sha2::{Digest, Sha256};
use vstd::prelude::*;
use vstd::slice::*;
use zeroize::{Zeroize, Zeroizing};
use crate::text::{hex4_seq, push_char, push_hex4};

verus! {

/// The length of an AEAD nonce, which opens every packet.
pub const NONCE_LEN: usize = 12;

/// The length of the authentication tag that ChaCha20-Poly1305 appends.
pub const TAG_LEN: usize = 16;

/// The longest plaintext that ChaCha20-Poly1305 encrypts: 64 bytes for each
/// block counter value from 1 to `u32::MAX - 1` (block 0 keys the MAC).
pub const AEAD_MAX_PLAINTEXT: u64 = 274877906816;

#[verifier::external_type_specification]
#[verifier::external_body]
pub struct ExAeadError(chacha20poly1305::Error);

/// Thirty-two secret bytes in a `zeroize::Zeroizing` holder, which wipes
/// them when dropped. The holder is kept in a private field; the bytes are
/// known here only through `guarded_bytes`, set by `guard_key` and read by
/// `guarded_key`.
#[verifier::external_body]
pub struct SecretBytes {
    bytes: Zeroizing<[u8; 32]>,
}

/// The bytes that a secret holder holds.
pub uninterp spec fn guarded_bytes(k: SecretBytes) -> Seq<u8>;

/// What `x25519_dalek::x25519` (the X25519 function of RFC 7748) returns for
/// a scalar and a point, both as 32 bytes.
pub uninterp spec fn spec_x25519(scalar: Seq<u8>, point: Seq<u8>) -> Seq<u8>;

/// The X25519 base point (`x25519_dalek::X25519_BASEPOINT_BYTES`): 9, then
/// 31 zero bytes.
pub open spec fn basepoint_seq() -> Seq<u8> {
    Seq::new(32, |i: int| if i == 0 { 9u8 } else { 0u8 })
}

/// What `sha2::Sha256::digest` returns for the given bytes.
pub uninterp spec fn spec_sha256(data: Seq<u8>) -> Seq<u8>;

/// What ChaCha20-Poly1305 `encrypt` returns for a key, a nonce and a
/// plaintext (with no associated data): the ciphertext followed by the tag.
pub uninterp spec fn spec_seal(key: Seq<u8>, nonce: Seq<u8>, plaintext: Seq<u8>) -> Seq<u8>;

/// What ChaCha20-Poly1305 `decrypt` returns for a key, a nonce and a
/// ciphertext with its tag (with no associated data): the plaintext, or
/// nothing when the tag does not authenticate the ciphertext.
pub uninterp spec fn spec_open(key: Seq<u8>, nonce: Seq<u8>, ciphertext: Seq<u8>) -> Option<Seq<u8>>;

/// `x25519_dalek::x25519`. The result is the name `spec_x25519` of the
/// arguments. When the point is the public key `spec_x25519(other, base)` of
/// another scalar, the result is also what that scalar makes of the public key
/// of this one: both sides of a key exchange compute the same secret, as the
/// function's documentation shows.
#[verifier::external_body]
fn x25519(scalar: &[u8; 32], point: &[u8; 32]) -> (r: [u8; 32])
    ensures
        r@ == spec_x25519(scalar@, point@),
        forall|other: Seq<u8>|
            other.len() == 32 && point@ == #[trigger] spec_x25519(other, basepoint_seq()) ==> r@
                == spec_x25519(other, spec_x25519(scalar@, basepoint_seq())),
{
    x25519_dalek::x25519(*scalar, *point)
}

/// `sha2::Sha256::digest`: the result is the name `spec_sha256` of the input.
#[verifier::external_body]
fn sha256(data: &[u8]) -> (r: [u8; 32])
    ensures
        r@ == spec_sha256(data@),
{
    Sha256::digest(data).into()
}

/// `ChaCha20Poly1305::encrypt` under the key, with no associated data. On a
/// plaintext within the cipher's keystream (longer ones either fail or, when
/// they pass the cipher's up-front check, panic while applying the keystream)
/// it succeeds: the result is `spec_seal` of the arguments, 16 bytes longer
/// than the plaintext, and `decrypt` with the same key and nonce gives the
/// plaintext back.
#[verifier::external_body]
fn aead_seal(key: &[u8; 32], nonce: &[u8], plaintext: &[u8]) -> (r: Result<
    Vec<u8>,
    chacha20poly1305::Error,
>)
    requires
        nonce@.len() == NONCE_LEN,
        plaintext@.len() <= AEAD_MAX_PLAINTEXT,
    ensures
        r is Ok,
        r matches Ok(c) ==> c@ == spec_seal(key@, nonce@, plaintext@),
        r matches Ok(c) ==> c@.len() == plaintext@.len() + TAG_LEN,
        r matches Ok(c) ==> spec_open(key@, nonce@, c@) == Some(plaintext@),
{
    ChaCha20Poly1305::new(Key::from_slice(key)).encrypt(Nonce::from_slice(nonce), plaintext)
}

/// `ChaCha20Poly1305::decrypt` under the key, with no associated data, on a
/// ciphertext whose message part is within the cipher's keystream (a longer
/// one that authenticates panics while applying the keystream): the plaintext
/// exactly when `spec_open` gives one, and an error otherwise; a ciphertext
/// shorter than the tag is always refused.
#[verifier::external_body]
fn aead_open(key: &[u8; 32], nonce: &[u8], ciphertext: &[u8]) -> (r: Result<
    Vec<u8>,
    chacha20poly1305::Error,
>)
    requires
        nonce@.len() == NONCE_LEN,
        ciphertext@.len() <= AEAD_MAX_PLAINTEXT + TAG_LEN,
    ensures
        match r {
            Ok(p) => spec_open(key@, nonce@, ciphertext@) == Some(p@),
            Err(_) => spec_open(key@, nonce@, ciphertext@) is None,
        },
        ciphertext@.len() < TAG_LEN ==> r is Err,
{
    ChaCha20Poly1305::new(Key::from_slice(key)).decrypt(Nonce::from_slice(nonce), ciphertext)
}

/// `rand::RngCore::fill_bytes` on `rand::thread_rng`: `N` random bytes, of
/// which nothing is promised.
#[verifier::external_body]
fn random_bytes<const N: usize>() -> [u8; N] {
    let mut bytes = [0u8; N];
    rand::thread_rng().fill_bytes(&mut bytes);
    bytes
}

/// `zeroize::Zeroize::zeroize` on a byte array: every byte becomes 0.
#[verifier::external_body]
fn wipe(bytes: &mut [u8; 32])
    ensures
        final(bytes)@ == Seq::new(32, |i: int| 0u8),
{
    bytes.zeroize();
}

/// `zeroize::Zeroizing::new`: the key is moved into a holder that wipes it
/// when dropped, and the holder holds it unchanged.
#[verifier::external_body]
fn guard_key(key: [u8; 32]) -> (k: SecretBytes)
    ensures
        guarded_bytes(k) == key@,
{
    SecretBytes { bytes: Zeroizing::new(key) }
}

/// `Deref::deref` on `zeroize::Zeroizing`: the key it holds.
#[verifier::external_body]
fn guarded_key(k: &SecretBytes) -> (r: &[u8; 32])
    ensures
        r@ == guarded_bytes(*k),
{
    std::ops::Deref::deref(&k.bytes)
}

/// The X25519 base point.
fn x25519_basepoint() -> (r: [u8; 32])
    ensures
        r@ == basepoint_seq(),
{
    let mut b = [0u8; 32];
    b[0] = 9;
    assert(b@ =~= basepoint_seq());
    b
}

/// An ephemeral X25519 secret: random bytes, used for one key agreement and
/// wiped when dropped.
pub struct EphemeralSecret {
    secret: SecretBytes,
}

impl View for EphemeralSecret {
    type V = Seq<u8>;

    closed spec fn view(&self) -> Seq<u8> {
        guarded_bytes(self.secret)
    }
}

/// Generates a fresh ephemeral X25519 secret and its public key, the X25519
/// product of the secret and the base point.
pub fn generate_ephemeral_keypair() -> (r: (EphemeralSecret, [u8; 32]))
    ensures
        r.0@.len() == 32,
        r.1@ == spec_x25519(r.0@, basepoint_seq()),
{
    let mut bytes: [u8; 32] = random_bytes();
    let base = x25519_basepoint();
    let public = x25519(&bytes, &base);
    let secret = EphemeralSecret { secret: guard_key(bytes) };
    wipe(&mut bytes);
    (secret, public)
}

/// The session fingerprint for a digest: its first two big-endian 16-bit
/// words as `{:04X}-{:04X}`.
pub open spec fn fingerprint_seq(digest: Seq<u8>) -> Seq<char> {
    hex4_seq(digest[0] as nat * 256 + digest[1] as nat) + seq!['-'] + hex4_seq(
        digest[2] as nat * 256 + digest[3] as nat,
    )
}

/// An upper-case hexadecimal digit.
pub open spec fn is_upper_hex_char(c: char) -> bool {
    ('0' <= c <= '9') || ('A' <= c <= 'F')
}

/// A fingerprint is nine characters, `XXXX-XXXX`, each `X` an upper-case
/// hexadecimal digit.
pub proof fn lemma_fingerprint_shape(digest: Seq<u8>)
    requires
        digest.len() >= 4,
    ensures
        fingerprint_seq(digest).len() == 9,
        fingerprint_seq(digest)[4] == '-',
        forall|i: int|
            0 <= i < 9 && i != 4 ==> is_upper_hex_char(#[trigger] fingerprint_seq(digest)[i]),
{
}

/// The fingerprint of a SHA-256 digest.
pub fn fingerprint_from_digest(digest: &[u8; 32]) -> (r: String)
    ensures
        r@ == fingerprint_seq(digest@),
{
    let hi = (digest[0] as u16) * 256 + (digest[1] as u16);
    let lo = (digest[2] as u16) * 256 + (digest[3] as u16);
    let mut s = String::new();
    push_hex4(&mut s, hi);
    push_char(&mut s, '-');
    push_hex4(&mut s, lo);
    assert(s@ =~= fingerprint_seq(digest@));
    s
}

/// Byte-wise lexicographic order: `a` comes no later than `b`.
pub open spec fn bytes_le(a: Seq<u8>, b: Seq<u8>) -> bool
    decreases a.len(),
{
    if a.len() == 0 || b.len() == 0 {
        true
    } else if a[0] != b[0] {
        a[0] < b[0]
    } else {
        bytes_le(a.drop_first(), b.drop_first())
    }
}

/// Two public keys, the one that comes first in byte order first: what the
/// fingerprint digests, the same at both ends of a session.
pub open spec fn ordered_keys(a: Seq<u8>, b: Seq<u8>) -> Seq<u8> {
    if bytes_le(a, b) {
        a + b
    } else {
        b + a
    }
}

/// Byte order is total, and only equal keys come no later than each other.
proof fn lemma_bytes_le_order(a: Seq<u8>, b: Seq<u8>)
    requires
        a.len() == b.len(),
    ensures
        bytes_le(a, b) || bytes_le(b, a),
        bytes_le(a, b) && bytes_le(b, a) ==> a == b,
    decreases a.len(),
{
    if a.len() > 0 && a[0] == b[0] {
        lemma_bytes_le_order(a.drop_first(), b.drop_first());
        if bytes_le(a, b) && bytes_le(b, a) {
            assert(a =~= seq![a[0]] + a.drop_first());
            assert(b =~= seq![b[0]] + b.drop_first());
        }
    } else if a.len() == 0 {
        assert(a =~= b);
    }
}

/// Both ends of a session digest the same bytes for the fingerprint, so both
/// users read the same fingerprint.
pub proof fn lemma_fingerprint_agrees(a: Seq<u8>, b: Seq<u8>)
    requires
        a.len() == 32,
        b.len() == 32,
    ensures
        ordered_keys(a, b) == ordered_keys(b, a),
        fingerprint_seq(spec_sha256(ordered_keys(a, b))) == fingerprint_seq(
            spec_sha256(ordered_keys(b, a)),
        ),
{
    lemma_bytes_le_order(a, b);
}

/// The two public keys in byte order, concatenated.
fn keys_in_order(a: &[u8; 32], b: &[u8; 32]) -> (r: Vec<u8>)
    ensures
        r@ == ordered_keys(a@, b@),
{
    let mut i: usize = 0;
    assert(a@.skip(0) =~= a@);
    assert(b@.skip(0) =~= b@);
    while i < 32 && a[i] == b[i]
        invariant
            i <= 32,
            a@.len() == 32,
            b@.len() == 32,
            bytes_le(a@, b@) == bytes_le(a@.skip(i as int), b@.skip(i as int)),
        decreases 32 - i,
    {
        assert(a@.skip(i as int).drop_first() =~= a@.skip(i + 1));
        assert(b@.skip(i as int).drop_first() =~= b@.skip(i + 1));
        i = i + 1;
    }
    let le = if i < 32 {
        a[i] < b[i]
    } else {
        true
    };
    assert(le == bytes_le(a@, b@));
    let mut r: Vec<u8> = Vec::new();
    let (first, second) = if le {
        (a, b)
    } else {
        (b, a)
    };
    let mut j: usize = 0;
    while j < 32
        invariant
            j <= 32,
            first@.len() == 32,
            r@ == first@.take(j as int),
        decreases 32 - j,
    {
        r.push(first[j]);
        assert(first@.take(j + 1) =~= first@.take(j as int).push(first@[j as int]));
        j = j + 1;
    }
    let mut k: usize = 0;
    while k < 32
        invariant
            k <= 32,
            first@.len() == 32,
            second@.len() == 32,
            r@ == first@ + second@.take(k as int),
        decreases 32 - k,
    {
        r.push(second[k]);
        assert(second@.take(k + 1) =~= second@.take(k as int).push(second@[k as int]));
        k = k + 1;
    }
    assert(first@.take(32) =~= first@);
    assert(second@.take(32) =~= second@);
    r
}

/// The result of decrypting a packet `nonce || ciphertext` under a key. A
/// packet too long to come from `encrypt` is refused.
pub open spec fn open_packet(key: Seq<u8>, packet: Seq<u8>) -> Option<Seq<u8>> {
    if packet.len() < NONCE_LEN || packet.len() > NONCE_LEN + AEAD_MAX_PLAINTEXT + TAG_LEN {
        None
    } else {
        spec_open(key, packet.take(NONCE_LEN as int), packet.skip(NONCE_LEN as int))
    }
}

/// An end-to-end encrypted session with one peer.
pub struct SecureSession {
    key: SecretBytes,
    fingerprint: String,
}

impl SecureSession {
    /// The symmetric key of the session.
    pub closed spec fn key_bytes(&self) -> Seq<u8> {
        guarded_bytes(self.key)
    }

    /// The fingerprint shown to the user.
    pub closed spec fn fingerprint_text(&self) -> Seq<char> {
        self.fingerprint@
    }

    /// The session for a shared secret: the key is the SHA-256 digest of
    /// the secret, the fingerprint that of the digest of both public keys in
    /// byte order.
    pub fn from_shared_secret(shared: [u8; 32], our_public_bytes: [u8; 32], peer_public_bytes: [
        u8;
        32
    ]) -> (s: Self)
        ensures
            s.key_bytes() == spec_sha256(shared@),
            s.fingerprint_text() == fingerprint_seq(
                spec_sha256(ordered_keys(our_public_bytes@, peer_public_bytes@)),
            ),
    {
        let mut key_bytes = sha256(&shared);
        let key = guard_key(key_bytes);
        wipe(&mut key_bytes);
        let both = keys_in_order(&our_public_bytes, &peer_public_bytes);
        let fp_hash = sha256(both.as_slice());
        let fingerprint = fingerprint_from_digest(&fp_hash);
        SecureSession { key, fingerprint }
    }

    /// Completes the key agreement with the peer's public key and derives
    /// the session: the key is the SHA-256 digest of the X25519 product of
    /// the secret and the peer's key. When the peer's key is the public key of
    /// the peer's secret, the peer derives the same key from this side's
    /// public key. The fingerprint is that of both public keys, so both ends
    /// show the same one.
    pub fn new(secret: EphemeralSecret, peer_public_bytes: [u8; 32]) -> (s: Self)
        ensures
            s.key_bytes() == spec_sha256(spec_x25519(secret@, peer_public_bytes@)),
            forall|other: Seq<u8>|
                other.len() == 32 && peer_public_bytes@ == #[trigger] spec_x25519(
                    other,
                    basepoint_seq(),
                ) ==> s.key_bytes() == spec_sha256(
                    spec_x25519(other, spec_x25519(secret@, basepoint_seq())),
                ),
            s.fingerprint_text() == fingerprint_seq(
                spec_sha256(
                    ordered_keys(spec_x25519(secret@, basepoint_seq()), peer_public_bytes@),
                ),
            ),
    {
        let base = x25519_basepoint();
        let our_public = x25519(guarded_key(&secret.secret), &base);
        let mut shared = x25519(guarded_key(&secret.secret), &peer_public_bytes);
        let s = SecureSession::from_shared_secret(shared, our_public, peer_public_bytes);
        wipe(&mut shared);
        s
    }

    /// The fingerprint of the session.
    pub fn fingerprint(&self) -> (r: &str)
        ensures
            r@ == self.fingerprint_text(),
    {
        self.fingerprint.as_str()
    }

    /// Encrypts under a fresh random nonce and returns `nonce || ciphertext`.
    /// Fails only for a plaintext too long for ChaCha20-Poly1305. Any session
    /// with the same key decrypts the packet to the plaintext.
    pub fn encrypt(&self, plaintext: &[u8]) -> (r: Result<Vec<u8>, &'static str>)
        ensures
            r is Ok <==> plaintext@.len() <= AEAD_MAX_PLAINTEXT,
            r matches Err(e) ==> e@ == "Encryption failed"@,
            r matches Ok(p) ==> p@.len() == NONCE_LEN + plaintext@.len() + TAG_LEN,
            r matches Ok(p) ==> p@.skip(NONCE_LEN as int) == spec_seal(
                self.key_bytes(),
                p@.take(NONCE_LEN as int),
                plaintext@,
            ),
            r matches Ok(p) ==> open_packet(self.key_bytes(), p@) == Some(plaintext@),
    {
        if plaintext.len() as u64 > AEAD_MAX_PLAINTEXT {
            return Err("Encryption failed");
        }
        let nonce_bytes: [u8; 12] = random_bytes();
        let nonce: &[u8] = &nonce_bytes;
        match aead_seal(guarded_key(&self.key), nonce, plaintext) {
            Ok(ciphertext) => {
                let mut packet: Vec<u8> = Vec::with_capacity(NONCE_LEN);
                let mut i: usize = 0;
                while i < NONCE_LEN
                    invariant
                        i <= NONCE_LEN,
                        nonce@.len() == NONCE_LEN,
                        packet@ == nonce@.take(i as int),
                    decreases NONCE_LEN - i,
                {
                    packet.push(nonce[i]);
                    assert(nonce@.take(i + 1) =~= nonce@.take(i as int).push(nonce@[i as int]));
                    i = i + 1;
                }
                let mut j: usize = 0;
                while j < ciphertext.len()
                    invariant
                        j <= ciphertext@.len(),
                        nonce@.len() == NONCE_LEN,
                        packet@ == nonce@ + ciphertext@.take(j as int),
                    decreases ciphertext@.len() - j,
                {
                    packet.push(ciphertext[j]);
                    assert(ciphertext@.take(j + 1) =~= ciphertext@.take(j as int).push(
                        ciphertext@[j as int],
                    ));
                    j = j + 1;
                }
                assert(ciphertext@.take(ciphertext@.len() as int) =~= ciphertext@);
                assert(packet@.take(NONCE_LEN as int) =~= nonce@);
                assert(packet@.skip(NONCE_LEN as int) =~= ciphertext@);
                Ok(packet)
            },
            Err(_) => Err("Encryption failed"),
        }
    }

    /// Decrypts a packet `nonce || ciphertext`.
    pub fn decrypt(&self, packet: &[u8]) -> (r: Result<Vec<u8>, &'static str>)
        ensures
            packet@.len() < NONCE_LEN ==> (r matches Err(e) && e@ == "Packet too short"@),
            NONCE_LEN <= packet@.len() < NONCE_LEN + TAG_LEN ==> (r matches Err(e) && e@
                == "Decryption failed"@),
            packet@.len() >= NONCE_LEN ==> match r {
                Ok(m) => open_packet(self.key_bytes(), packet@) == Some(m@),
                Err(e) => open_packet(self.key_bytes(), packet@) is None && e@
                    == "Decryption failed"@,
            },
    {
        if packet.len() < NONCE_LEN {
            return Err("Packet too short");
        }
        if (packet.len() - NONCE_LEN) as u64 > AEAD_MAX_PLAINTEXT + TAG_LEN as u64 {
            return Err("Decryption failed");
        }
        let nonce = slice_subrange(packet, 0, NONCE_LEN);
        let ciphertext = slice_subrange(packet, NONCE_LEN, packet.len());
        assert(nonce@ =~= packet@.take(NONCE_LEN as int));
        assert(ciphertext@ =~= packet@.skip(NONCE_LEN as int));
        match aead_open(guarded_key(&self.key), nonce, ciphertext) {
            Ok(m) => Ok(m),
            Err(_) => Err("Decryption failed"),
        }
    }
}

} // verus!
