use ed25519_dalek::Signer;
use warrant_spec::crypto;
use warrant_spec::{hex_encode_prefix, DualSignature, PublicKey, Signature};

fn hash_with_prefix(prefix: &[u8]) -> crypto::Hash {
    let mut bytes = [0u8; 32];
    bytes[..prefix.len()].copy_from_slice(prefix);
    crypto::Hash(bytes)
}

#[test]
fn hash_short_is_hex_of_first_three_bytes() {
    let h = hash_with_prefix(&[0xa3, 0xf9, 0xc2, 0x77]);
    assert_eq!(h.short(), "a3f9c2");
    assert_eq!(h.to_text(), "a3f9c2");
    assert_eq!(h.debug_text(), "Hash(a3f9c2)");
}

#[test]
fn hash_short_pads_small_bytes() {
    let h = hash_with_prefix(&[0x00, 0x0f, 0x10]);
    assert_eq!(h.short(), "000f10");
}

#[test]
fn hash_zero_is_all_zero() {
    assert_eq!(crypto::Hash::zero().0, [0u8; 32]);
    assert_eq!(crypto::Hash::zero().short(), "000000");
}

#[test]
fn hash_equality_compares_every_byte() {
    let a = hash_with_prefix(&[1, 2, 3]);
    let b = hash_with_prefix(&[1, 2, 3]);
    let mut c_bytes = a.0;
    c_bytes[31] = 9;
    let c = crypto::Hash(c_bytes);
    assert!(a == b);
    assert!(a != c);
}

#[test]
fn hex_encode_prefix_encodes_every_byte() {
    assert_eq!(hex_encode_prefix(&[0x00, 0x0f, 0xab, 0xff]), "000fabff");
    assert_eq!(hex_encode_prefix(&[]), "");
    assert_eq!(crypto::hex_prefix(&[0xde, 0xad, 0xbe, 0xef], 2), "dead");
}

#[test]
fn public_key_and_signature_debug_text() {
    let mut pk = [0u8; 32];
    pk[..4].copy_from_slice(&[0x01, 0x02, 0xa0, 0xff]);
    assert_eq!(PublicKey(pk).debug_text(), "PublicKey(0102a0ff…)");
    let mut sig = [7u8; 64];
    sig[0] = 0xbe;
    assert_eq!(Signature(sig).debug_text(), "Signature(be070707…)");
}

fn keys() -> (ed25519_dalek::SigningKey, ed25519_dalek::SigningKey) {
    (
        ed25519_dalek::SigningKey::from_bytes(&[1u8; 32]),
        ed25519_dalek::SigningKey::from_bytes(&[2u8; 32]),
    )
}

#[test]
fn dual_signature_accepts_both_valid_signatures() {
    let (user, system) = keys();
    let msg = b"constitution root";
    let dual = DualSignature {
        user_sig: Signature(user.sign(msg).to_bytes()),
        system_sig: Signature(system.sign(msg).to_bytes()),
    };
    let user_pk = PublicKey(user.verifying_key().to_bytes());
    let system_pk = PublicKey(system.verifying_key().to_bytes());
    assert!(dual.verify(msg, &user_pk, &system_pk));
}

#[test]
fn dual_signature_rejects_a_wrong_message_or_swapped_keys() {
    let (user, system) = keys();
    let msg = b"constitution root";
    let dual = DualSignature {
        user_sig: Signature(user.sign(msg).to_bytes()),
        system_sig: Signature(system.sign(msg).to_bytes()),
    };
    let user_pk = PublicKey(user.verifying_key().to_bytes());
    let system_pk = PublicKey(system.verifying_key().to_bytes());
    assert!(!dual.verify(b"another root", &user_pk, &system_pk));
    assert!(!dual.verify(msg, &system_pk, &user_pk));
}

#[test]
fn dual_signature_needs_both_signatures() {
    let (user, system) = keys();
    let msg = b"amend";
    let user_pk = PublicKey(user.verifying_key().to_bytes());
    let system_pk = PublicKey(system.verifying_key().to_bytes());
    let only_user = DualSignature {
        user_sig: Signature(user.sign(msg).to_bytes()),
        system_sig: Signature([0u8; 64]),
    };
    assert!(!only_user.verify(msg, &user_pk, &system_pk));
    let only_system = DualSignature {
        user_sig: Signature([0u8; 64]),
        system_sig: Signature(system.sign(msg).to_bytes()),
    };
    assert!(!only_system.verify(msg, &user_pk, &system_pk));
}
