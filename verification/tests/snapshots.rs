use radix_common::constants::ED25519_SIGNATURE_RESOURCE;
use radix_common::constants::SECP256K1_SIGNATURE_RESOURCE;
use radix_common::constants::XRD;
use radix_common::math::Decimal;
use radix_common::types::ResourceAddress;

use scrypto_unit::balance_of;
use scrypto_unit::dedup_balances;
use scrypto_unit::EnvError;
use scrypto_unit::Receipt;
use scrypto_unit::VaultSnapshot;

fn snap(resource: ResourceAddress, amount: u32) -> VaultSnapshot {
    VaultSnapshot {
        resource,
        amount: Decimal::from(amount),
    }
}

#[test]
fn dedup_keeps_the_amount_read_last() {
    let out = dedup_balances(vec![snap(XRD, 5), snap(XRD, 7)]);
    assert_eq!(out.len(), 1);
    assert_eq!(out[0].resource, XRD);
    assert_eq!(out[0].amount, Decimal::from(7u32));
}

#[test]
fn dedup_keeps_first_seen_order_and_every_resource() {
    let out = dedup_balances(vec![
        snap(XRD, 1),
        snap(ED25519_SIGNATURE_RESOURCE, 2),
        snap(XRD, 3),
    ]);
    assert_eq!(out.len(), 2);
    assert_eq!(out[0].resource, XRD);
    assert_eq!(out[0].amount, Decimal::from(3u32));
    assert_eq!(out[1].resource, ED25519_SIGNATURE_RESOURCE);
    assert_eq!(out[1].amount, Decimal::from(2u32));
}

#[test]
fn balance_lookup_reads_the_snapshot() {
    let entries = dedup_balances(vec![snap(XRD, 3), snap(ED25519_SIGNATURE_RESOURCE, 2)]);
    assert_eq!(
        balance_of(&entries, &ED25519_SIGNATURE_RESOURCE),
        Some(Decimal::from(2u32))
    );
    assert_eq!(balance_of(&entries, &XRD), Some(Decimal::from(3u32)));
    assert_eq!(balance_of(&entries, &SECP256K1_SIGNATURE_RESOURCE), None);
}

#[test]
fn failed_receipt_yields_no_new_resource() {
    let receipt = Receipt {
        result: Err("execution failed".to_string()),
        new_component_addresses: vec![],
        new_resource_addresses: vec![XRD],
        new_package_addresses: vec![],
        outputs: vec![],
    };
    assert!(!receipt.is_ok());
    assert_eq!(
        receipt.first_new_resource().unwrap_err(),
        EnvError::ExecutionFailed
    );
}

#[test]
fn committed_receipt_yields_its_first_new_resource() {
    let receipt = Receipt {
        result: Ok(()),
        new_component_addresses: vec![],
        new_resource_addresses: vec![XRD, ED25519_SIGNATURE_RESOURCE],
        new_package_addresses: vec![],
        outputs: vec![],
    };
    assert!(receipt.is_ok());
    assert_eq!(receipt.first_new_resource().unwrap(), XRD);
    assert_eq!(
        receipt.first_new_package().unwrap_err(),
        EnvError::ExecutionFailed
    );
}
