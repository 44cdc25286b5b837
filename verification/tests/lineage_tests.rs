use warrant_spec::crypto;
use warrant_spec::{ContentEntry, Lineage, ResourceRef, VaultAddress};

fn hash_with_prefix(prefix: &[u8]) -> crypto::Hash {
    let mut bytes = [0u8; 32];
    bytes[..prefix.len()].copy_from_slice(prefix);
    crypto::Hash(bytes)
}

#[test]
fn lineage_from_intent_is_blake3_of_intent_and_tag() {
    let intent = hash_with_prefix(&[9, 8, 7]);
    let mut input = intent.0.to_vec();
    input.extend_from_slice(b"lineage");
    let expected = *blake3::hash(&input).as_bytes();
    let lineage = Lineage::from_intent(&intent);
    assert_eq!(lineage.0 .0, expected);
    assert_ne!(lineage.0 .0, intent.0);
}

#[test]
fn lineage_from_intent_is_deterministic_and_separates_intents() {
    let a = hash_with_prefix(&[1]);
    let b = hash_with_prefix(&[2]);
    assert!(Lineage::from_intent(&a) == Lineage::from_intent(&a));
    assert!(Lineage::from_intent(&a) != Lineage::from_intent(&b));
}

#[test]
fn lineage_text_forms() {
    let l = Lineage(hash_with_prefix(&[0xa3, 0xf9, 0xc2]));
    assert_eq!(l.to_text(), "a3f9c2");
    assert_eq!(l.debug_text(), "Lineage(a3f9c2)");
}

#[test]
fn vault_address_same_content_same_lineage_is_same_address() {
    let content = hash_with_prefix(&[5]);
    let lineage = Lineage(hash_with_prefix(&[6]));
    let a = VaultAddress::derive(content, lineage);
    let b = VaultAddress::derive(content, lineage);
    assert!(a == b);
    assert!(a.content_hash == content);
    assert!(a.lineage == lineage);
}

#[test]
fn vault_address_other_lineage_is_other_address() {
    let content = hash_with_prefix(&[5]);
    let a = VaultAddress::derive(content, Lineage(hash_with_prefix(&[6])));
    let b = VaultAddress::derive(content, Lineage(hash_with_prefix(&[7])));
    assert!(a != b);
}

#[test]
fn vault_address_text() {
    let a = VaultAddress::derive(
        hash_with_prefix(&[0x01, 0x02, 0xab]),
        Lineage(hash_with_prefix(&[0xa3, 0xf9, 0xc2])),
    );
    assert_eq!(a.to_text(), "vault://a3f9c2/0102ab");
    assert_eq!(a.debug_text(), "vault://a3f9c2/0102ab");
}

#[test]
fn resource_ref_constructors_and_text() {
    let addr = VaultAddress::derive(hash_with_prefix(&[0xff, 0, 1]), Lineage(hash_with_prefix(&[0x10])));
    let v = ResourceRef::vault(addr);
    assert_eq!(v.to_text(), "vault://100000/ff0001");
    let s = ResourceRef::service("ffmpeg");
    assert_eq!(s.to_text(), "registry://ffmpeg");
    assert!(matches!(&s, ResourceRef::Registry { service } if service == "ffmpeg"));
    let sensor = ResourceRef::Sensor { path: "home/temp".to_string() };
    assert_eq!(sensor.to_text(), "sensor://home/temp");
    let actuator = ResourceRef::Actuator { path: "living/ac".to_string() };
    assert_eq!(actuator.to_text(), "hvac://living/ac");
}

#[test]
fn resource_ref_equality_by_kind_and_content() {
    assert!(ResourceRef::service("a") == ResourceRef::service("a"));
    assert!(ResourceRef::service("a") != ResourceRef::service("b"));
    assert!(
        ResourceRef::Sensor { path: "x".to_string() } != ResourceRef::Actuator { path: "x".to_string() }
    );
    let addr = VaultAddress::derive(hash_with_prefix(&[1]), Lineage(hash_with_prefix(&[2])));
    assert!(ResourceRef::vault(addr) == ResourceRef::vault(addr));
}

#[test]
fn content_entry_address_is_cid_times_lineage() {
    let entry = ContentEntry { name: "photo".to_string(), cid: hash_with_prefix(&[3, 3]) };
    let lineage = Lineage(hash_with_prefix(&[4]));
    let a = entry.address(lineage);
    assert!(a == VaultAddress::derive(entry.cid, lineage));
}
