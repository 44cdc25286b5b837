use warrant_spec::crypto;
use warrant_spec::{EntryId, Genesis, Ledger, LedgerEvent, Lineage, Signature};

fn h(b: u8) -> crypto::Hash {
    crypto::Hash([b; 32])
}

fn sign_event(b: u8) -> LedgerEvent {
    LedgerEvent::WarrantSign { warrant_id: h(b), intent: "备份照片".to_string(), lineage: Lineage(h(b + 1)) }
}

#[test]
fn genesis_is_fixed() {
    let g = Genesis::new();
    assert_eq!(g.id, EntryId(0));
    assert!(g.prev == crypto::Hash::zero());
    assert_eq!(g.body, "宪法内核封印 · 令状纪元开始");
    assert_eq!(g.sig, Signature([0u8; 64]));
    assert_eq!(Genesis::default().body, g.body);
}

#[test]
fn new_ledger_is_empty_and_verifies() {
    let l = Ledger::new();
    assert!(l.entries.is_empty());
    assert!(l.verify());
    assert!(Ledger::default().verify());
}

#[test]
fn append_numbers_and_chains_entries() {
    let mut l = Ledger::new();
    let first = l.append(sign_event(1), Signature([3u8; 64])).clone();
    assert_eq!(first.id, EntryId(1));
    assert!(first.prev == crypto::Hash::zero());
    let second = l.append(LedgerEvent::WarrantRedeem { warrant_id: h(1), lineage: Lineage(h(2)) }, Signature([4u8; 64])).clone();
    assert_eq!(second.id, EntryId(2));
    assert!(second.prev == first.hash);
    assert_eq!(l.entries.len(), 2);
    assert!(l.verify());
}

#[test]
fn entry_hash_is_blake3_of_prev_event_and_sig() {
    let mut l = Ledger::new();
    let event = sign_event(7);
    let sig = Signature([9u8; 64]);
    let entry = l.append(event.clone(), sig).clone();
    let mut input = [0u8; 32].to_vec();
    input.extend_from_slice(&event.encode());
    input.extend_from_slice(&sig.0);
    assert_eq!(entry.hash.0, *blake3::hash(&input).as_bytes());
    assert!(entry.hash != crypto::Hash::zero());
}

#[test]
fn broken_link_fails_verification() {
    let mut l = Ledger::new();
    l.append(sign_event(1), Signature([1u8; 64]));
    l.append(sign_event(2), Signature([2u8; 64]));
    l.append(sign_event(3), Signature([3u8; 64]));
    assert!(l.verify());
    l.entries[1].prev = h(0xee);
    assert!(!l.verify());
}

#[test]
fn verify_chain_compares_prev() {
    let mut l = Ledger::new();
    let e = l.append(sign_event(1), Signature([1u8; 64])).clone();
    assert!(e.verify_chain(crypto::Hash::zero()));
    assert!(!e.verify_chain(h(1)));
}

#[test]
fn entry_id_text_is_ten_digits() {
    assert_eq!(EntryId(1).to_text(), "0000000001");
    assert_eq!(EntryId(0).to_text(), "0000000000");
    assert_eq!(EntryId(1234567890).to_text(), "1234567890");
    assert_eq!(EntryId(12345678901).to_text(), "12345678901");
    assert_eq!(EntryId(u64::MAX).to_text(), "18446744073709551615");
}

#[test]
fn event_encoding_layout() {
    let e = LedgerEvent::WarrantSign { warrant_id: h(1), intent: "ab".to_string(), lineage: Lineage(h(2)) };
    let mut expected = vec![0u8];
    expected.extend_from_slice(&[1u8; 32]);
    expected.extend_from_slice(&2u64.to_le_bytes());
    expected.extend_from_slice(b"ab");
    expected.extend_from_slice(&[2u8; 32]);
    assert_eq!(e.encode(), expected);
}

#[test]
fn event_encoding_of_revocation_and_redemption() {
    let revoke = LedgerEvent::WarrantRevoke { warrant_id: h(1), lineage: Lineage(h(2)), cascaded: vec![h(3), h(4)] };
    let mut expected = vec![5u8];
    expected.extend_from_slice(&[1u8; 32]);
    expected.extend_from_slice(&[2u8; 32]);
    expected.extend_from_slice(&2u64.to_le_bytes());
    expected.extend_from_slice(&[3u8; 32]);
    expected.extend_from_slice(&[4u8; 32]);
    assert_eq!(revoke.encode(), expected);

    let deviation = 0.25f64;
    let redeem = LedgerEvent::CapabilityRedeem { capability_id: h(5), lineage: Lineage(h(6)), deviation: Some(deviation.to_bits()) };
    let mut expected = vec![2u8];
    expected.extend_from_slice(&[5u8; 32]);
    expected.extend_from_slice(&[6u8; 32]);
    expected.push(1);
    expected.extend_from_slice(&deviation.to_bits().to_le_bytes());
    assert_eq!(redeem.encode(), expected);

    let none = LedgerEvent::CapabilityRedeem { capability_id: h(5), lineage: Lineage(h(6)), deviation: None };
    assert_eq!(none.encode().last(), Some(&0u8));
    assert_eq!(none.encode().len(), 1 + 32 + 32 + 1);
}
