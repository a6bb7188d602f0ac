use fast_cli::builder::BuildError;
use fast_cli::ledger::{Address, NetworkPrefix, OutputReference, SpendableOutput};
use fast_cli::pipeline::{Pipeline, PipelineError, Stage, TransferRequest};
use fast_cli::signer::address_for;
use fast_cli::signer::verify_signed_transaction;

fn test_address(tag: u8) -> Address {
    Address { prefix: NetworkPrefix::Testnet, version: 0, payload: vec![tag; 32] }
}

fn utxo(id_tag: u8, index: u32, amount: u64) -> SpendableOutput {
    SpendableOutput {
        outpoint: OutputReference { transaction_id: vec![id_tag; 32], index },
        address: test_address(0xaa),
        amount,
        block_daa_score: 7,
        is_coinbase: false,
    }
}

fn test_request() -> TransferRequest {
    TransferRequest {
        source: test_address(1),
        destination: test_address(2),
        amount: 600,
        priority_fee: 1,
        private_key: vec![0x11; 32],
    }
}

#[test]
fn a_successful_run_ends_done_after_one_submission() {
    let mut p = Pipeline::new(test_request());
    assert_eq!(p.stage, Stage::Idle);
    p.start();
    assert_eq!(p.stage, Stage::FetchingUtxos);
    p.on_utxos_received(vec![utxo(9, 0, 1000)]).unwrap();
    assert_eq!(p.stage, Stage::Submitting);
    let pubkey = address_for(&vec![0x11; 32], NetworkPrefix::Testnet).unwrap().payload;
    let stx = p.submittable();
    assert!(verify_signed_transaction(stx, &pubkey));
    assert_eq!(stx.unsigned.outputs[0].value, 600);
    assert_eq!(stx.unsigned.outputs[1].value, 399);
    p.on_submit_result(true).unwrap();
    assert_eq!(p.stage, Stage::Done);
    assert!(p.prepared.is_none());
}

#[test]
fn a_network_rejection_fails_the_run_and_nothing_is_retried() {
    let mut p = Pipeline::new(test_request());
    p.start();
    p.on_utxos_received(vec![utxo(9, 0, 1000)]).unwrap();
    assert_eq!(p.stage, Stage::Submitting);
    let r = p.on_submit_result(false);
    assert_eq!(r.unwrap_err(), PipelineError::NetworkRejected);
    assert_eq!(p.stage, Stage::Failed);
    assert!(p.prepared.is_none());
}

#[test]
fn an_empty_utxo_set_fails_before_any_signing() {
    let mut p = Pipeline::new(test_request());
    p.start();
    let r = p.on_utxos_received(Vec::new());
    assert_eq!(r.unwrap_err(), PipelineError::Validation(BuildError::EmptyUtxoSet));
    assert_eq!(p.stage, Stage::Failed);
    assert!(p.prepared.is_none());
}

#[test]
fn insufficient_funds_fail_the_run_with_the_builder_error() {
    let mut p = Pipeline::new(TransferRequest {
        source: test_address(1),
        destination: test_address(2),
        amount: 500,
        priority_fee: 1,
        private_key: vec![0x11; 32],
    });
    p.start();
    let r = p.on_utxos_received(vec![utxo(9, 0, 500)]);
    assert_eq!(r.unwrap_err(), PipelineError::Validation(BuildError::InsufficientFunds));
    assert_eq!(p.stage, Stage::Failed);
}

#[test]
fn a_rejected_key_fails_the_run_in_the_signing_stage() {
    let mut p = Pipeline::new(TransferRequest {
        source: test_address(1),
        destination: test_address(2),
        amount: 600,
        priority_fee: 1,
        private_key: vec![0u8; 32],
    });
    p.start();
    let r = p.on_utxos_received(vec![utxo(9, 0, 1000)]);
    assert!(matches!(r.unwrap_err(), PipelineError::Signing(_)));
    assert_eq!(p.stage, Stage::Failed);
    assert!(p.prepared.is_none());
}
