use fast_cli::builder::build;
use fast_cli::ledger::{Address, NetworkPrefix, OutputReference, SpendableOutput};
use fast_cli::signer::{
    address_for, input_signing_hash, sign_transaction, verify_signed_transaction, SignError,
};

fn test_address(tag: u8) -> Address {
    Address { prefix: NetworkPrefix::Testnet, version: 0, payload: vec![tag; 32] }
}

fn utxo(id_tag: u8, index: u32, amount: u64) -> SpendableOutput {
    SpendableOutput {
        outpoint: OutputReference { transaction_id: vec![id_tag; 32], index },
        address: test_address(0xaa),
        amount,
        block_daa_score: 7,
        is_coinbase: false,
    }
}

fn test_key() -> Vec<u8> {
    vec![0x11; 32]
}

fn two_input_transaction() -> fast_cli::ledger::UnsignedTransaction {
    let source = test_address(1);
    let destination = test_address(2);
    build(&source, &destination, 550, 10, vec![utxo(3, 0, 400), utxo(4, 1, 200)]).unwrap()
}

#[test]
fn signing_hash_is_32_bytes_and_deterministic() {
    let tx1 = two_input_transaction();
    let tx2 = two_input_transaction();
    let h1 = input_signing_hash(&tx1, 0);
    let h2 = input_signing_hash(&tx2, 0);
    assert_eq!(h1.len(), 32);
    assert_eq!(h1, h2);
}

#[test]
fn signing_hashes_differ_per_input() {
    let tx = two_input_transaction();
    assert_ne!(input_signing_hash(&tx, 0), input_signing_hash(&tx, 1));
}

#[test]
fn signing_hash_changes_when_an_output_amount_changes() {
    let tx = two_input_transaction();
    let before = input_signing_hash(&tx, 0);
    let mut tampered = tx;
    tampered.outputs[0].value += 1;
    assert_ne!(before, input_signing_hash(&tampered, 0));
}

#[test]
fn signing_twice_gives_identical_signatures_that_both_verify() {
    let key = test_key();
    let pubkey = address_for(&key, NetworkPrefix::Testnet).unwrap().payload;
    let s1 = sign_transaction(two_input_transaction(), &key).unwrap();
    let s2 = sign_transaction(two_input_transaction(), &key).unwrap();
    assert_eq!(s1.signatures, s2.signatures);
    assert_eq!(s1.signatures.len(), 2);
    assert!(s1.signatures.iter().all(|s| s.len() == 64));
    assert!(verify_signed_transaction(&s1, &pubkey));
    assert!(verify_signed_transaction(&s2, &pubkey));
}

#[test]
fn a_signature_moved_to_another_input_fails_verification() {
    let key = test_key();
    let pubkey = address_for(&key, NetworkPrefix::Testnet).unwrap().payload;
    let mut stx = sign_transaction(two_input_transaction(), &key).unwrap();
    assert!(verify_signed_transaction(&stx, &pubkey));
    stx.signatures.swap(0, 1);
    assert!(!verify_signed_transaction(&stx, &pubkey));
}

#[test]
fn tampering_with_an_output_amount_breaks_verification() {
    let key = test_key();
    let pubkey = address_for(&key, NetworkPrefix::Testnet).unwrap().payload;
    let mut stx = sign_transaction(two_input_transaction(), &key).unwrap();
    assert!(verify_signed_transaction(&stx, &pubkey));
    stx.unsigned.outputs[0].value += 1;
    assert!(!verify_signed_transaction(&stx, &pubkey));
}

#[test]
fn verification_under_a_foreign_key_fails() {
    let key = test_key();
    let other = vec![0x22; 32];
    let foreign = address_for(&other, NetworkPrefix::Testnet).unwrap().payload;
    let stx = sign_transaction(two_input_transaction(), &key).unwrap();
    assert!(!verify_signed_transaction(&stx, &foreign));
}

#[test]
fn malformed_key_material_is_rejected() {
    let short_key = vec![0x11; 31];
    assert!(address_for(&short_key, NetworkPrefix::Testnet).is_none());
    let r = sign_transaction(two_input_transaction(), &short_key);
    assert_eq!(r.unwrap_err(), SignError::KeyRejected);
    let zero_key = vec![0u8; 32];
    assert!(address_for(&zero_key, NetworkPrefix::Testnet).is_none());
}

#[test]
fn the_transaction_is_unchanged_by_signing() {
    let key = test_key();
    let tx = two_input_transaction();
    let stx = sign_transaction(two_input_transaction(), &key).unwrap();
    assert_eq!(stx.unsigned.outputs[0].value, tx.outputs[0].value);
    assert_eq!(stx.unsigned.outputs[1].value, tx.outputs[1].value);
    assert_eq!(stx.unsigned.inputs.len(), tx.inputs.len());
    assert_eq!(stx.unsigned.lock_time, tx.lock_time);
    assert_eq!(stx.unsigned.version, tx.version);
}
