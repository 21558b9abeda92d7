use rrelayer_core::primitives::EvmAddress;
use rrelayer_core::queue::is_unrecoverable_send_error;
use rrelayer_core::text::{contains_text, decimal_string, uuid_string};

#[test]
fn substring_search() {
    assert!(contains_text("error: nonce too low", "nonce too low"));
    assert!(contains_text("abc", ""));
    assert!(!contains_text("ab", "abc"));
    assert!(!contains_text("nonce to low", "nonce too low"));
    assert!(contains_text("ééé", "éé"));
}

#[test]
fn lowercase_of_messages() {
    assert!(is_unrecoverable_send_error("Insufficient FUNDS for gas"));
    assert!(is_unrecoverable_send_error("EXECUTION REVERTED"));
    assert!(!is_unrecoverable_send_error("Connection Reset"));
}

#[test]
fn decimal_and_uuid_texts() {
    assert_eq!(decimal_string(0), "0");
    assert_eq!(decimal_string(1234567890), "1234567890");
    assert_eq!(decimal_string(u64::MAX), "18446744073709551615");
    assert_eq!(uuid_string(0), "00000000-0000-0000-0000-000000000000");
    assert_eq!(uuid_string(u128::MAX), "ffffffff-ffff-ffff-ffff-ffffffffffff");
    assert_eq!(uuid_string(0x67e5504410b1426f9247bb680e5fe0c8), "67e55044-10b1-426f-9247-bb680e5fe0c8");
}

#[test]
fn address_display_is_checksummed() {
    let mut bytes = [0u8; 20];
    let hex = "5aaeb6053f3e94c9b9a09f33669435e7ef1beaed";
    for i in 0..20 {
        bytes[i] = u8::from_str_radix(&hex[2 * i..2 * i + 2], 16).unwrap();
    }
    let address = EvmAddress { bytes };
    assert_eq!(address.to_display_string(), "0x5aAeb6053F3E94C9b9A09f33669435E7Ef1BeAed");
    assert!(address.same_as(&EvmAddress { bytes }));
    assert!(!address.same_as(&EvmAddress { bytes: [0; 20] }));
}
