use chariots::signatures::Compatibility;
use chariots::signatures::Signature;
use chariots::signatures::VersionedSignature;

struct FakeSignature;

impl Signature for FakeSignature {
    fn checksum(&self) -> String {
        "foobar".to_string()
    }
}

#[test]
fn test_standard_signature() {
    let fake_sign = FakeSignature {};
    let versioned_signature = VersionedSignature::new(1, 0, 0);
    assert_eq!(
        fake_sign.is_compatible(&versioned_signature),
        versioned_signature.is_compatible(&fake_sign)
    );
    assert!(!fake_sign.is_compatible(&versioned_signature));
}

#[test]
fn test_versioned_signature() {
    let sing_1 = VersionedSignature::new(1, 0, 0);
    let sing_2 = VersionedSignature::new(1, 3, 2);
    let sing_3 = VersionedSignature::new(2, 0, 1);
    assert_eq!(sing_2.is_compatible(&sing_1), sing_1.is_compatible(&sing_2));
    assert!(sing_2.is_compatible(&sing_1));
    assert!(!sing_2.is_compatible(&sing_3));
}
