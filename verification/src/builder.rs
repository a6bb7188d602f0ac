use vstd::prelude::*;

use crate::ledger::{
    Address, AddressView, PaymentOutput, SpendableOutput, TransactionInput, TransactionOutput,
    UnsignedTransaction, UnsignedTransactionView, copy_bytes, input_amounts, input_sum,
    native_subnetwork, output_sum, output_values, sum_of, transaction_balanced, utxo_amounts,
    lemma_sum_of_take_le, lemma_sum_of_take_succ,
};

verus! {

/// The local validation failures of the transaction builder. All of them are
/// deterministic and are reported before anything touches the network.
#[derive(Clone, Copy, PartialEq, Eq, Structural, Debug)]
pub enum BuildError {
    EmptyUtxoSet,
    AmountOverflow,
    InsufficientFunds,
    FeeExceedsFunds,
}

/// Total value spendable from a set of outputs.
pub open spec fn spendable_total(utxos: Seq<SpendableOutput>) -> int {
    sum_of(utxo_amounts(utxos))
}

/// Exactly when `build` succeeds: at least one spendable output, a total that
/// fits in a `u64`, and enough value to cover the amount plus the fee.
pub open spec fn build_succeeds(amount: u64, priority_fee: u64, utxos: Seq<SpendableOutput>) -> bool {
    &&& utxos.len() > 0
    &&& spendable_total(utxos) <= u64::MAX
    &&& amount + priority_fee <= spendable_total(utxos)
}

/// The validation failure `build` reports, if any: the checks run in the
/// order written here.
pub open spec fn build_failure(
    amount: u64,
    priority_fee: u64,
    utxos: Seq<SpendableOutput>,
) -> Option<BuildError> {
    if utxos.len() == 0 {
        Some(BuildError::EmptyUtxoSet)
    } else if spendable_total(utxos) > u64::MAX {
        Some(BuildError::AmountOverflow)
    } else if spendable_total(utxos) < amount {
        Some(BuildError::InsufficientFunds)
    } else if priority_fee > spendable_total(utxos) {
        Some(BuildError::FeeExceedsFunds)
    } else if spendable_total(utxos) < amount + priority_fee {
        Some(BuildError::InsufficientFunds)
    } else {
        None
    }
}

/// Shape of the transaction `build` assembles: one input per spendable output
/// in enumeration order, a destination output, and a change output back to
/// the source, with the protocol fields of a plain transfer.
pub open spec fn is_built_transaction(
    tx: UnsignedTransactionView,
    source: AddressView,
    destination: AddressView,
    amount: u64,
    priority_fee: u64,
    utxos: Seq<SpendableOutput>,
) -> bool {
    &&& tx.version == 0
    &&& tx.lock_time == 0
    &&& tx.subnetwork_id == native_subnetwork()
    &&& tx.payload.len() == 0
    &&& tx.inputs.len() == utxos.len()
    &&& forall|i: int| 0 <= i < utxos.len() ==> {
        &&& (#[trigger] tx.inputs[i]).utxo == utxos[i]@
        &&& tx.inputs[i].sequence == i
        &&& tx.inputs[i].sig_op_count == 1
    }
    &&& tx.outputs.len() == 2
    &&& tx.outputs[0].address == destination
    &&& tx.outputs[0].value == amount
    &&& tx.outputs[1].address == source
    &&& tx.outputs[1].value == spendable_total(utxos) - amount - priority_fee
}

/// An owned copy of an address.
fn copy_address(a: &Address) -> (r: Address)
    ensures
        r@ == a@,
{
    Address { prefix: a.prefix, version: a.version, payload: copy_bytes(&a.payload) }
}

/// A requested payment becomes one output of the assembled transaction.
fn payment_to_output(p: PaymentOutput) -> (r: TransactionOutput)
    ensures
        r@.value == p@.amount,
        r@.address == p@.address,
{
    TransactionOutput { value: p.amount, address: p.address }
}

/// The subnetwork identifier bytes of a plain value transfer.
fn native_subnetwork_id() -> (r: Vec<u8>)
    ensures
        r@ == native_subnetwork(),
{
    let mut r: Vec<u8> = Vec::new();
    let mut k: usize = 0;
    while k < 20
        invariant
            k <= 20,
            r@.len() == k,
            forall|i: int| 0 <= i < k ==> r@[i] == 0u8,
        decreases 20 - k,
    {
        r.push(0u8);
        k = k + 1;
    }
    proof {
        assert(r@ =~= native_subnetwork());
    }
    r
}

/// Selects every spendable output as an input, computes the change after the
/// destination amount and the priority fee, and assembles the unsigned
/// transaction of a plain transfer.
///
/// Value is conserved: on success, the input total exceeds the output total
/// by exactly the priority fee. The fee is validated twice, once against the
/// nominal total and once against the amount accumulated while the inputs are
/// built, as a deliberate defense-in-depth cross-check.
pub fn build(
    source: &Address,
    destination: &Address,
    amount: u64,
    priority_fee: u64,
    utxos: Vec<SpendableOutput>,
) -> (r: Result<UnsignedTransaction, BuildError>)
    ensures
        r == Err::<UnsignedTransaction, BuildError>(BuildError::EmptyUtxoSet) <==> utxos@.len()
            == 0,
        r == Err::<UnsignedTransaction, BuildError>(BuildError::AmountOverflow) <==> (utxos@.len()
            > 0 && spendable_total(utxos@) > u64::MAX),
        r == Err::<UnsignedTransaction, BuildError>(BuildError::InsufficientFunds) <==> (
        utxos@.len() > 0 && spendable_total(utxos@) <= u64::MAX && (spendable_total(utxos@)
            < amount || (priority_fee <= spendable_total(utxos@) && spendable_total(utxos@)
            < amount + priority_fee))),
        r == Err::<UnsignedTransaction, BuildError>(BuildError::FeeExceedsFunds) <==> (utxos@.len()
            > 0 && spendable_total(utxos@) <= u64::MAX && amount <= spendable_total(utxos@)
            && priority_fee > spendable_total(utxos@)),
        r is Ok <==> build_succeeds(amount, priority_fee, utxos@),
        r matches Err(e) ==> build_failure(amount, priority_fee, utxos@) == Some(e),
        build_failure(amount, priority_fee, utxos@) matches Some(e) ==> r == Err::<
            UnsignedTransaction,
            BuildError,
        >(e),
        // a spendable total short of the requested amount is always insufficient funds
        utxos@.len() > 0 && spendable_total(utxos@) < amount ==> r == Err::<
            UnsignedTransaction,
            BuildError,
        >(BuildError::InsufficientFunds),
        r matches Ok(tx) ==> is_built_transaction(
            tx@,
            source@,
            destination@,
            amount,
            priority_fee,
            utxos@,
        ),
        // conservation: no value is created or destroyed; the difference
        // between what the inputs consume and what the outputs carry is
        // exactly the priority fee
        r matches Ok(tx) ==> input_sum(tx@) == spendable_total(utxos@),
        r matches Ok(tx) ==> output_sum(tx@) + priority_fee == input_sum(tx@),
        r matches Ok(tx) ==> input_sum(tx@) - output_sum(tx@) == priority_fee,
        r matches Ok(tx) ==> transaction_balanced(tx@),
{
    if utxos.len() == 0 {
        return Err(BuildError::EmptyUtxoSet);
    }
    let ghost orig: Seq<SpendableOutput> = utxos@;
    let ghost amts: Seq<u64> = utxo_amounts(orig);

    // total spendable value, under overflow-checked addition
    let mut total: u64 = 0;
    let mut k: usize = 0;
    while k < utxos.len()
        invariant
            utxos@ == orig,
            amts == utxo_amounts(orig),
            k <= orig.len(),
            total == sum_of(amts.take(k as int)),
        decreases orig.len() - k,
    {
        let a = utxos[k].amount;
        proof {
            assert(amts[k as int] == a);
            lemma_sum_of_take_succ(amts, k as int);
            lemma_sum_of_take_le(amts, k as int + 1);
        }
        if a > u64::MAX - total {
            return Err(BuildError::AmountOverflow);
        }
        total = total + a;
        k = k + 1;
    }
    proof {
        assert(amts.take(orig.len() as int) =~= amts);
    }

    if total < amount {
        return Err(BuildError::InsufficientFunds);
    }
    if priority_fee > total {
        return Err(BuildError::FeeExceedsFunds);
    }
    if total - amount < priority_fee {
        return Err(BuildError::InsufficientFunds);
    }
    let change: u64 = total - amount - priority_fee;

    // one transaction input per spendable output, sequence numbers assigned
    // in enumeration order, accumulating the amounts a second time
    let mut inputs: Vec<TransactionInput> = Vec::new();
    let mut total_input_amount: u64 = 0;
    let mut rest = utxos;
    while rest.len() > 0
        invariant
            amts == utxo_amounts(orig),
            inputs@.len() + rest@.len() == orig.len(),
            rest@ == orig.skip(inputs@.len() as int),
            total_input_amount == sum_of(amts.take(inputs@.len() as int)),
            sum_of(amts) == total,
            forall|i: int| 0 <= i < inputs@.len() ==> {
                &&& (#[trigger] inputs@[i])@.utxo == orig[i]@
                &&& inputs@[i]@.sequence == i
                &&& inputs@[i]@.sig_op_count == 1
            },
        decreases rest@.len(),
    {
        let ghost n: int = inputs@.len() as int;
        let u = rest.remove(0);
        proof {
            assert(u == orig[n]);
            assert(orig.skip(n).remove(0) =~= orig.skip(n + 1));
            assert(amts[n] == u.amount);
            lemma_sum_of_take_succ(amts, n);
            lemma_sum_of_take_le(amts, n + 1);
        }
        let seq_no = inputs.len() as u64;
        total_input_amount = total_input_amount + u.amount;
        inputs.push(TransactionInput { utxo: u, sequence: seq_no, sig_op_count: 1 });
    }
    proof {
        assert(amts.take(orig.len() as int) =~= amts);
    }
    // defense in depth: the fee is re-validated against the accumulated
    // amount; the invariant above proves the two totals agree, so this
    // cross-check can only fire if the aggregation itself were broken
    if priority_fee > total_input_amount {
        return Err(BuildError::FeeExceedsFunds);
    }

    // the payment to the destination, then the change back to the source
    // (possibly zero), become the transaction's two outputs
    let dest_payment = PaymentOutput { address: copy_address(destination), amount };
    let change_payment = PaymentOutput { address: copy_address(source), amount: change };
    let mut outputs: Vec<TransactionOutput> = Vec::new();
    outputs.push(payment_to_output(dest_payment));
    outputs.push(payment_to_output(change_payment));

    let tx = UnsignedTransaction {
        version: 0,
        inputs,
        outputs,
        lock_time: 0,
        subnetwork_id: native_subnetwork_id(),
        payload: Vec::new(),
    };
    proof {
        assert(input_amounts(tx@) =~= amts);
        assert(output_values(tx@) =~= seq![amount, change]);
        assert(seq![amount, change].drop_last() =~= seq![amount]);
        assert(seq![amount].drop_last() =~= Seq::<u64>::empty());
        assert(sum_of(Seq::<u64>::empty()) == 0);
        assert(sum_of(seq![amount]) == amount);
        assert(sum_of(seq![amount, change]) == amount + change);
        assert(output_sum(tx@) == amount + change);
    }
    Ok(tx)
}

} // verus!
