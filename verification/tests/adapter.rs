use blob_storage::address::OwnerKey;
use blob_storage::errors::StorageErrorKind;
use blob_storage::storage::{BlobStorage, BlobStorageDryRun};

fn owner_from_seed(seed: u8) -> OwnerKey {
    let secret = ed25519_dalek::SecretKey::from_bytes(&[seed; 32]).unwrap();
    let public = ed25519_dalek::PublicKey::from(&secret);
    OwnerKey::from_network_key(safe_nd::PublicKey::from(public))
}

#[test]
fn public_address_is_deterministic() {
    let s = BlobStorage::new(owner_from_seed(1), true);
    let d = b"hello".to_vec();
    let a1 = s.generate_address(&d);
    let a2 = s.generate_address(&d);
    assert_eq!(a1, a2);
    assert_eq!(a1.len(), 32);
}

#[test]
fn public_address_matches_known_digest() {
    // SHA3-256 of the five bytes "hello".
    let expected: Vec<u8> = vec![
        0x33, 0x38, 0xbe, 0x69, 0x4f, 0x50, 0xc5, 0xf3, 0x38, 0x81, 0x49, 0x86, 0xcd, 0xf0, 0x68,
        0x64, 0x53, 0xa8, 0x88, 0xb8, 0x4f, 0x42, 0x4d, 0x79, 0x2a, 0xf4, 0xb9, 0x20, 0x23, 0x98,
        0xf3, 0x92,
    ];
    let s = BlobStorage::new(owner_from_seed(1), true);
    assert_eq!(s.generate_address(b"hello"), expected);
}

#[test]
fn public_address_ignores_owner_and_instance() {
    let a = BlobStorage::new(owner_from_seed(1), true);
    let b = BlobStorage::new(owner_from_seed(2), true);
    let d = b"same content".to_vec();
    assert_eq!(a.generate_address(&d), b.generate_address(&d));
}

#[test]
fn dry_run_and_live_agree_on_addresses() {
    let live = BlobStorage::new(owner_from_seed(1), true);
    let dry = BlobStorageDryRun::new(owner_from_seed(1), true);
    let d = b"hello".to_vec();
    assert_eq!(live.generate_address(&d), dry.generate_address(&d));

    let live_private = BlobStorage::new(owner_from_seed(3), false);
    let dry_private = BlobStorageDryRun::new(owner_from_seed(3), false);
    assert_eq!(
        live_private.generate_address(&d),
        dry_private.generate_address(&d)
    );
}

#[test]
fn private_addresses_differ_between_owners() {
    let d = b"shared content".to_vec();
    let a = BlobStorage::new(owner_from_seed(1), false);
    let b = BlobStorage::new(owner_from_seed(2), false);
    assert_ne!(a.generate_address(&d), b.generate_address(&d));
}

#[test]
fn private_address_is_deterministic_for_one_owner() {
    let d = b"shared content".to_vec();
    let a = BlobStorage::new(owner_from_seed(1), false);
    let b = BlobStorage::new(owner_from_seed(1), false);
    assert_eq!(a.generate_address(&d), b.generate_address(&d));
}

#[test]
fn addresses_differ_between_contents() {
    let public = BlobStorage::new(owner_from_seed(1), true);
    assert_ne!(
        public.generate_address(b"content one"),
        public.generate_address(b"content two")
    );
    let private = BlobStorage::new(owner_from_seed(1), false);
    assert_ne!(
        private.generate_address(b"content one"),
        private.generate_address(b"content two")
    );
}

#[test]
fn public_and_private_variants_address_differently() {
    let d = b"hello".to_vec();
    let public = BlobStorage::new(owner_from_seed(1), true);
    let private = BlobStorage::new(owner_from_seed(1), false);
    assert_ne!(public.generate_address(&d), private.generate_address(&d));
}

#[test]
fn get_rejects_short_name_without_network() {
    let s = BlobStorage::new(owner_from_seed(1), true);
    let r = s.get_request(&[0u8; 10]);
    let e = r.unwrap_err();
    assert_eq!(e.kind, StorageErrorKind::SizeMismatch);
    assert_eq!(e.message, "Requested `name` is incorrect size.");
}

#[test]
fn get_rejects_long_name() {
    let s = BlobStorage::new(owner_from_seed(1), false);
    let r = s.get_request(&[0u8; 33]);
    assert_eq!(r.unwrap_err().kind, StorageErrorKind::SizeMismatch);
}

#[test]
fn get_accepts_exact_length_name() {
    let s = BlobStorage::new(owner_from_seed(1), true);
    let name = [9u8; 32];
    let addr = s.get_request(&name).unwrap();
    assert!(addr.public);
    assert_eq!(addr.name, name.to_vec());

    let s_private = BlobStorage::new(owner_from_seed(1), false);
    let addr = s_private.get_request(&name).unwrap();
    assert!(!addr.public);
}

#[test]
fn put_ignores_the_passed_name() {
    let s = BlobStorage::new(owner_from_seed(1), true);
    let d = b"hello".to_vec();
    let (_, bound1) = s.put_plan(b"a provisional name".to_vec(), d.clone());
    let (_, bound2) = s.put_plan(Vec::new(), d.clone());
    assert_eq!(bound1, bound2);
}

#[test]
fn put_binds_the_generated_address() {
    for published in [true, false] {
        let s = BlobStorage::new(owner_from_seed(4), published);
        let d = b"some chunk".to_vec();
        let (_, bound) = s.put_plan(Vec::new(), d.clone());
        assert_eq!(bound, s.generate_address(&d));
    }
}
