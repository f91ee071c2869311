use fsociety::crypto::{fingerprint_from_digest, generate_ephemeral_keypair, SecureSession};
use sha2::{Digest, Sha256};

#[test]
fn fingerprint_of_readme_example() {
    let mut digest = [0u8; 32];
    digest[0] = 0xA3;
    digest[1] = 0xD2;
    digest[2] = 0xE4;
    digest[3] = 0x09;
    assert_eq!(fingerprint_from_digest(&digest), "A3D2-E409");
}

#[test]
fn fingerprint_pads_with_zeros() {
    let mut digest = [0xFFu8; 32];
    digest[0] = 0x00;
    digest[1] = 0x0A;
    digest[2] = 0x00;
    digest[3] = 0x00;
    assert_eq!(fingerprint_from_digest(&digest), "000A-0000");
}

#[test]
fn session_fingerprint_is_digest_of_both_keys_in_order() {
    let ours = [42u8; 32];
    let mut peer = [42u8; 32];
    peer[31] = 7;
    let session = SecureSession::from_shared_secret([1u8; 32], ours, peer);
    let mut both = peer.to_vec();
    both.extend_from_slice(&ours);
    let h = Sha256::digest(&both);
    let expected = format!(
        "{:04X}-{:04X}",
        u16::from_be_bytes([h[0], h[1]]),
        u16::from_be_bytes([h[2], h[3]])
    );
    assert_eq!(session.fingerprint(), expected);
    let fp = session.fingerprint();
    assert_eq!(fp.len(), 9);
    assert_eq!(fp.as_bytes()[4], b'-');
}

#[test]
fn same_secret_reads_what_was_written() {
    let alice = SecureSession::from_shared_secret([7u8; 32], [1u8; 32], [2u8; 32]);
    let bob = SecureSession::from_shared_secret([7u8; 32], [2u8; 32], [1u8; 32]);
    assert_eq!(alice.fingerprint(), bob.fingerprint());
    let packet = alice.encrypt(b"meet at noon").unwrap();
    assert_eq!(packet.len(), 12 + 12 + 16);
    assert_ne!(&packet[12..24], b"meet at noon");
    assert_eq!(bob.decrypt(&packet).unwrap(), b"meet at noon".to_vec());
    assert_eq!(alice.decrypt(&packet).unwrap(), b"meet at noon".to_vec());
}

#[test]
fn empty_plaintext_roundtrip() {
    let s = SecureSession::from_shared_secret([3u8; 32], [3u8; 32], [4u8; 32]);
    let packet = s.encrypt(&[]).unwrap();
    assert_eq!(packet.len(), 28);
    assert_eq!(s.decrypt(&packet).unwrap(), Vec::<u8>::new());
}

#[test]
fn nonces_differ_between_packets() {
    let s = SecureSession::from_shared_secret([5u8; 32], [5u8; 32], [6u8; 32]);
    let a = s.encrypt(b"x").unwrap();
    let b = s.encrypt(b"x").unwrap();
    assert_ne!(a, b);
}

#[test]
fn full_handshake_agrees_on_key() {
    let (alice_secret, alice_public) = generate_ephemeral_keypair();
    let (bob_secret, bob_public) = generate_ephemeral_keypair();
    assert_ne!(alice_public, bob_public);
    let alice = SecureSession::new(alice_secret, bob_public);
    let bob = SecureSession::new(bob_secret, alice_public);
    assert_eq!(alice.fingerprint(), bob.fingerprint());
    assert_eq!(alice.fingerprint().len(), 9);
    let packet = alice.encrypt(b"hello bob").unwrap();
    assert_eq!(bob.decrypt(&packet).unwrap(), b"hello bob".to_vec());
    let reply = bob.encrypt(b"hello alice").unwrap();
    assert_eq!(alice.decrypt(&reply).unwrap(), b"hello alice".to_vec());
}

#[test]
fn short_packet_is_refused() {
    let s = SecureSession::from_shared_secret([9u8; 32], [9u8; 32], [1u8; 32]);
    assert_eq!(s.decrypt(&[0u8; 11]), Err("Packet too short"));
    assert_eq!(s.decrypt(&[]), Err("Packet too short"));
}

#[test]
fn tampered_or_foreign_packet_is_refused() {
    let s = SecureSession::from_shared_secret([9u8; 32], [9u8; 32], [1u8; 32]);
    let other = SecureSession::from_shared_secret([8u8; 32], [9u8; 32], [1u8; 32]);
    let mut packet = s.encrypt(b"secret").unwrap();
    assert_eq!(other.decrypt(&packet), Err("Decryption failed"));
    let last = packet.len() - 1;
    packet[last] ^= 1;
    assert_eq!(s.decrypt(&packet), Err("Decryption failed"));
    assert_eq!(s.decrypt(&[0u8; 12]), Err("Decryption failed"));
    assert_eq!(s.decrypt(&[0u8; 27]), Err("Decryption failed"));
}

#[test]
fn generated_key_works_with_any_peer_key() {
    let (secret, public) = generate_ephemeral_keypair();
    let peer = [9u8; 32];
    let peer_session = SecureSession::new(secret, peer);
    assert_ne!(public, [0u8; 32]);
    assert_eq!(peer_session.fingerprint().len(), 9);
}
