use bdk::descriptor::{get_checksum, ExtendedDescriptor};
use std::str::FromStr;
use wallet_core::descriptor::{append_checksum, descriptor_body};
use wallet_core::{create_descriptor, ChildNumber, DerivationPath, Fingerprint, WalletError};

const TPUB: &str = "tpubD6NzVbkrYhZ4XHndKkuB8FifXm8r5FQHwrN6oZuWCz13qb93rtgKvD4PQsqC4HP4yhV3tA2fqr2RbY5mNXfM7RxXUoeABoDtsFUq2zJq6YK";

fn device_fingerprint() -> Fingerprint {
    Fingerprint { value: 0xc258d2e4 }
}

#[test]
fn receive_descriptor_for_every_index_without_checksum() {
    let path = DerivationPath::segwit_test_account();
    let d = create_descriptor(&path, device_fingerprint(), TPUB, None, false, false).unwrap();
    assert_eq!(d, format!("wpkh([c258d2e4/84h/1h/0h]{}/0/*)", TPUB));
}

#[test]
fn change_descriptor_for_one_index() {
    let path = DerivationPath::segwit_test_account();
    let d = create_descriptor(&path, device_fingerprint(), TPUB, Some(17), true, false).unwrap();
    assert_eq!(d, format!("wpkh([c258d2e4/84h/1h/0h]{}/1/17)", TPUB));
}

#[test]
fn building_twice_gives_the_same_text() {
    let path = DerivationPath::segwit_test_account();
    for checksum in [false, true] {
        let a = create_descriptor(&path, device_fingerprint(), TPUB, None, false, checksum);
        let b = create_descriptor(&path, device_fingerprint(), TPUB, None, false, checksum);
        assert_eq!(a, b);
    }
}

#[test]
fn checksummed_descriptor_validates_against_its_own_text() {
    let path = DerivationPath::segwit_test_account();
    let d = create_descriptor(&path, device_fingerprint(), TPUB, None, false, true).unwrap();
    let (body, checksum) = d.split_once('#').unwrap();
    assert_eq!(checksum.len(), 8);
    assert_eq!(get_checksum(body).unwrap(), checksum);
    assert_eq!(body, format!("wpkh([c258d2e4/84h/1h/0h]{}/0/*)", TPUB));
    assert!(ExtendedDescriptor::from_str(body).is_ok());
}

#[test]
fn malformed_key_is_rejected() {
    let path = DerivationPath::segwit_test_account();
    let r = create_descriptor(&path, device_fingerprint(), "notakey", None, false, false);
    assert_eq!(r, Err(WalletError::MalformedDescriptor));
    let r = create_descriptor(&path, device_fingerprint(), "notakey", None, false, true);
    assert_eq!(r, Err(WalletError::MalformedDescriptor));
}

#[test]
fn fingerprint_keeps_leading_zeros() {
    assert_eq!(Fingerprint { value: 0xab }.to_hex(), "000000ab");
    assert_eq!(device_fingerprint().to_hex(), "c258d2e4");
    assert_eq!(Fingerprint { value: u32::MAX }.to_hex(), "ffffffff");
}

#[test]
fn path_text_marks_hardened_steps() {
    assert_eq!(DerivationPath::segwit_test_account().to_text(), "m/84h/1h/0h");
    let path = DerivationPath {
        steps: vec![
            ChildNumber { index: 44, hardened: true },
            ChildNumber { index: 0, hardened: false },
            ChildNumber { index: 2147483647, hardened: false },
        ],
    };
    assert_eq!(path.to_text(), "m/44h/0/2147483647");
    assert_eq!(DerivationPath { steps: vec![] }.to_text(), "m");
}

#[test]
fn body_uses_the_given_path() {
    let path = DerivationPath { steps: vec![ChildNumber { index: 49, hardened: true }] };
    let d = descriptor_body(&path, Fingerprint { value: 0x01020304 }, "xpubX", Some(0), false);
    assert_eq!(d, "wpkh([01020304/49h]xpubX/0/0)");
}

#[test]
fn checksum_is_appended_after_a_hash() {
    assert_eq!(append_checksum(String::from("wpkh(x)"), "abcdefgh"), "wpkh(x)#abcdefgh");
}
