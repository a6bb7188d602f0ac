use vstd::prelude::*;

verus! {

/// The network an address belongs to.
#[derive(Clone, Copy, PartialEq, Eq, Structural, Debug)]
pub enum NetworkPrefix {
    Mainnet,
    Testnet,
    Devnet,
    Simnet,
}

/// A destination for value: network prefix, address version byte, and the raw
/// payload bytes (for a schnorr public-key address, the x-only public key).
#[derive(Debug)]
pub struct Address {
    pub prefix: NetworkPrefix,
    pub version: u8,
    pub payload: Vec<u8>,
}

#[verifier::ext_equal]
pub ghost struct AddressView {
    pub prefix: NetworkPrefix,
    pub version: u8,
    pub payload: Seq<u8>,
}

impl View for Address {
    type V = AddressView;

    open spec fn view(&self) -> AddressView {
        AddressView { prefix: self.prefix, version: self.version, payload: self.payload@ }
    }
}

/// Identifies a prior transaction's output by (transaction id, output index).
#[derive(Debug)]
pub struct OutputReference {
    pub transaction_id: Vec<u8>,
    pub index: u32,
}

#[verifier::ext_equal]
pub ghost struct OutputReferenceView {
    pub transaction_id: Seq<u8>,
    pub index: u32,
}

impl View for OutputReference {
    type V = OutputReferenceView;

    open spec fn view(&self) -> OutputReferenceView {
        OutputReferenceView { transaction_id: self.transaction_id@, index: self.index }
    }
}

/// A spendable output (UTXO): a prior output owned by an address, together
/// with the block-inclusion metadata that is only used for display.
#[derive(Debug)]
pub struct SpendableOutput {
    pub outpoint: OutputReference,
    pub address: Address,
    pub amount: u64,
    pub block_daa_score: u64,
    pub is_coinbase: bool,
}

#[verifier::ext_equal]
pub ghost struct SpendableOutputView {
    pub outpoint: OutputReferenceView,
    pub address: AddressView,
    pub amount: u64,
    pub block_daa_score: u64,
    pub is_coinbase: bool,
}

impl View for SpendableOutput {
    type V = SpendableOutputView;

    open spec fn view(&self) -> SpendableOutputView {
        SpendableOutputView {
            outpoint: self.outpoint@,
            address: self.address@,
            amount: self.amount,
            block_daa_score: self.block_daa_score,
            is_coinbase: self.is_coinbase,
        }
    }
}

/// A requested payment: destination address and amount.
#[derive(Debug)]
pub struct PaymentOutput {
    pub address: Address,
    pub amount: u64,
}

#[verifier::ext_equal]
pub ghost struct PaymentOutputView {
    pub address: AddressView,
    pub amount: u64,
}

impl View for PaymentOutput {
    type V = PaymentOutputView;

    open spec fn view(&self) -> PaymentOutputView {
        PaymentOutputView { address: self.address@, amount: self.amount }
    }
}

/// An output of an assembled transaction.
#[derive(Debug)]
pub struct TransactionOutput {
    pub value: u64,
    pub address: Address,
}

#[verifier::ext_equal]
pub ghost struct TransactionOutputView {
    pub value: u64,
    pub address: AddressView,
}

impl View for TransactionOutput {
    type V = TransactionOutputView;

    open spec fn view(&self) -> TransactionOutputView {
        TransactionOutputView { value: self.value, address: self.address@ }
    }
}

/// An input of an assembled transaction. It owns the spendable output it
/// consumes; the sequence number is the input's position among the inputs.
#[derive(Debug)]
pub struct TransactionInput {
    pub utxo: SpendableOutput,
    pub sequence: u64,
    pub sig_op_count: u8,
}

#[verifier::ext_equal]
pub ghost struct TransactionInputView {
    pub utxo: SpendableOutputView,
    pub sequence: u64,
    pub sig_op_count: u8,
}

impl View for TransactionInput {
    type V = TransactionInputView;

    open spec fn view(&self) -> TransactionInputView {
        TransactionInputView {
            utxo: self.utxo@,
            sequence: self.sequence,
            sig_op_count: self.sig_op_count,
        }
    }
}

/// A fully assembled but still unsigned transaction.
#[derive(Debug)]
pub struct UnsignedTransaction {
    pub version: u16,
    pub inputs: Vec<TransactionInput>,
    pub outputs: Vec<TransactionOutput>,
    pub lock_time: u64,
    pub subnetwork_id: Vec<u8>,
    pub payload: Vec<u8>,
}

#[verifier::ext_equal]
pub ghost struct UnsignedTransactionView {
    pub version: u16,
    pub inputs: Seq<TransactionInputView>,
    pub outputs: Seq<TransactionOutputView>,
    pub lock_time: u64,
    pub subnetwork_id: Seq<u8>,
    pub payload: Seq<u8>,
}

impl View for UnsignedTransaction {
    type V = UnsignedTransactionView;

    open spec fn view(&self) -> UnsignedTransactionView {
        UnsignedTransactionView {
            version: self.version,
            inputs: self.inputs@.map_values(|i: TransactionInput| i@),
            outputs: self.outputs@.map_values(|o: TransactionOutput| o@),
            lock_time: self.lock_time,
            subnetwork_id: self.subnetwork_id@,
            payload: self.payload@,
        }
    }
}

/// An unsigned transaction plus one signature per input.
#[derive(Debug)]
pub struct SignedTransaction {
    pub unsigned: UnsignedTransaction,
    pub signatures: Vec<Vec<u8>>,
}

#[verifier::ext_equal]
pub ghost struct SignedTransactionView {
    pub unsigned: UnsignedTransactionView,
    pub signatures: Seq<Seq<u8>>,
}

impl View for SignedTransaction {
    type V = SignedTransactionView;

    open spec fn view(&self) -> SignedTransactionView {
        SignedTransactionView {
            unsigned: self.unsigned@,
            signatures: self.signatures@.map_values(|s: Vec<u8>| s@),
        }
    }
}

/// Invariant of an assembled transaction: the inputs carry at least as much
/// value as the outputs, so the implied fee is never negative.
pub open spec fn transaction_balanced(tx: UnsignedTransactionView) -> bool {
    output_sum(tx) <= input_sum(tx)
}

/// The subnetwork identifier of a plain value transfer: twenty zero bytes.
pub open spec fn native_subnetwork() -> Seq<u8> {
    Seq::new(20, |i: int| 0u8)
}

/// Sum of a sequence of amounts, as an unbounded integer.
pub open spec fn sum_of(amounts: Seq<u64>) -> int
    decreases amounts.len(),
{
    if amounts.len() == 0 {
        0
    } else {
        sum_of(amounts.drop_last()) + amounts.last()
    }
}

/// The amounts carried by a sequence of spendable outputs.
pub open spec fn utxo_amounts(utxos: Seq<SpendableOutput>) -> Seq<u64> {
    utxos.map_values(|u: SpendableOutput| u.amount)
}

/// The amounts consumed by a transaction's inputs.
pub open spec fn input_amounts(tx: UnsignedTransactionView) -> Seq<u64> {
    tx.inputs.map_values(|i: TransactionInputView| i.utxo.amount)
}

/// Total value consumed by a transaction's inputs.
pub open spec fn input_sum(tx: UnsignedTransactionView) -> int {
    sum_of(input_amounts(tx))
}

/// The values carried by a transaction's outputs.
pub open spec fn output_values(tx: UnsignedTransactionView) -> Seq<u64> {
    tx.outputs.map_values(|o: TransactionOutputView| o.value)
}

/// Total value carried by a transaction's outputs.
pub open spec fn output_sum(tx: UnsignedTransactionView) -> int {
    sum_of(output_values(tx))
}

/// An owned copy of a byte vector, built without trusting any clone impl.
pub fn copy_bytes(v: &Vec<u8>) -> (r: Vec<u8>)
    ensures
        r@ == v@,
{
    let mut r: Vec<u8> = Vec::new();
    let mut k: usize = 0;
    while k < v.len()
        invariant
            k <= v@.len(),
            r@ == v@.take(k as int),
        decreases v@.len() - k,
    {
        r.push(v[k]);
        proof {
            assert(v@.take(k as int).push(v@[k as int]) =~= v@.take(k as int + 1));
        }
        k = k + 1;
    }
    proof {
        assert(v@.take(v@.len() as int) =~= v@);
    }
    r
}

pub proof fn lemma_sum_of_take_succ(s: Seq<u64>, k: int)
    requires
        0 <= k < s.len(),
    ensures
        sum_of(s.take(k + 1)) == sum_of(s.take(k)) + s[k],
{
    assert(s.take(k + 1).drop_last() =~= s.take(k));
    assert(s.take(k + 1).last() == s[k]);
}

/// Every partial sum is bounded by the total: amounts are non-negative.
pub proof fn lemma_sum_of_take_le(s: Seq<u64>, k: int)
    requires
        0 <= k <= s.len(),
    ensures
        sum_of(s.take(k)) <= sum_of(s),
    decreases s.len() - k,
{
    if k < s.len() {
        lemma_sum_of_take_succ(s, k);
        lemma_sum_of_take_le(s, k + 1);
    } else {
        assert(s.take(k) =~= s);
    }
}

} // verus!
