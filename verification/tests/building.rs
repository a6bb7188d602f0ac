use fast_cli::builder::{build, BuildError};
use fast_cli::ledger::{Address, NetworkPrefix, OutputReference, SpendableOutput};

fn test_address(tag: u8) -> Address {
    Address { prefix: NetworkPrefix::Testnet, version: 0, payload: vec![tag; 32] }
}

fn utxo(id_tag: u8, index: u32, amount: u64) -> SpendableOutput {
    SpendableOutput {
        outpoint: OutputReference { transaction_id: vec![id_tag; 32], index },
        address: test_address(0xaa),
        amount,
        block_daa_score: 7,
        is_coinbase: false,
    }
}

#[test]
fn single_utxo_transfer_pays_exact_change_and_fee() {
    let source = test_address(1);
    let destination = test_address(2);
    let tx = build(&source, &destination, 600, 1, vec![utxo(9, 0, 1000)]).unwrap();
    assert_eq!(tx.outputs.len(), 2);
    assert_eq!(tx.outputs[0].value, 600);
    assert_eq!(tx.outputs[0].address.payload, destination.payload);
    assert_eq!(tx.outputs[1].value, 399);
    assert_eq!(tx.outputs[1].address.payload, source.payload);
    assert_eq!(tx.inputs.len(), 1);
    assert_eq!(tx.inputs[0].sequence, 0);
    assert_eq!(tx.inputs[0].sig_op_count, 1);
    assert_eq!(tx.version, 0);
    assert_eq!(tx.lock_time, 0);
    assert_eq!(tx.subnetwork_id, vec![0u8; 20]);
    assert!(tx.payload.is_empty());
}

#[test]
fn value_is_conserved_up_to_the_fee() {
    let source = test_address(1);
    let destination = test_address(2);
    let tx = build(&source, &destination, 500, 25, vec![utxo(3, 0, 700), utxo(4, 1, 300)])
        .unwrap();
    let input_total: u64 = tx.inputs.iter().map(|i| i.utxo.amount).sum();
    let output_total: u64 = tx.outputs.iter().map(|o| o.value).sum();
    assert_eq!(input_total, 1000);
    assert_eq!(output_total + 25, input_total);
    assert_eq!(input_total - output_total, 25);
}

#[test]
fn inputs_enumerate_every_spendable_output_in_order() {
    let source = test_address(1);
    let destination = test_address(2);
    let utxos = vec![utxo(3, 5, 100), utxo(4, 2, 200), utxo(5, 9, 300)];
    let tx = build(&source, &destination, 550, 10, utxos).unwrap();
    assert_eq!(tx.inputs.len(), 3);
    for (k, input) in tx.inputs.iter().enumerate() {
        assert_eq!(input.sequence, k as u64);
    }
    assert_eq!(tx.inputs[0].utxo.amount, 100);
    assert_eq!(tx.inputs[1].utxo.amount, 200);
    assert_eq!(tx.inputs[2].utxo.amount, 300);
    assert_eq!(tx.outputs[1].value, 600 - 560);
}

#[test]
fn total_below_amount_is_insufficient_funds() {
    let source = test_address(1);
    let destination = test_address(2);
    let r = build(&source, &destination, 200, 0, vec![utxo(3, 0, 100), utxo(4, 1, 50)]);
    assert_eq!(r.unwrap_err(), BuildError::InsufficientFunds);
}

#[test]
fn exact_total_cannot_also_cover_the_fee() {
    let source = test_address(1);
    let destination = test_address(2);
    let r = build(&source, &destination, 500, 1, vec![utxo(3, 0, 500)]);
    assert_eq!(r.unwrap_err(), BuildError::InsufficientFunds);
}

#[test]
fn fee_larger_than_total_is_rejected() {
    let source = test_address(1);
    let destination = test_address(2);
    let r = build(&source, &destination, 100, 600, vec![utxo(3, 0, 500)]);
    assert_eq!(r.unwrap_err(), BuildError::FeeExceedsFunds);
}

#[test]
fn empty_utxo_set_is_rejected_first() {
    let source = test_address(1);
    let destination = test_address(2);
    let r = build(&source, &destination, 0, 0, Vec::new());
    assert_eq!(r.unwrap_err(), BuildError::EmptyUtxoSet);
}

#[test]
fn overflowing_total_is_rejected() {
    let source = test_address(1);
    let destination = test_address(2);
    let r = build(&source, &destination, 1, 0, vec![utxo(3, 0, u64::MAX), utxo(4, 1, 1)]);
    assert_eq!(r.unwrap_err(), BuildError::AmountOverflow);
}

#[test]
fn zero_change_transfer_succeeds() {
    let source = test_address(1);
    let destination = test_address(2);
    let tx = build(&source, &destination, 499, 1, vec![utxo(3, 0, 500)]).unwrap();
    assert_eq!(tx.outputs[0].value, 499);
    assert_eq!(tx.outputs[1].value, 0);
}
