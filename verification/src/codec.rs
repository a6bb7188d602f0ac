use vstd::prelude::*;

use vstd::bytes::{lemma_auto_spec_u64_to_from_le_bytes, spec_u64_from_le_bytes,
    spec_u64_to_le_bytes, u64_to_le_bytes};

use crate::ledger::{
    Address, AddressView, NetworkPrefix, OutputReference, OutputReferenceView, TransactionInput,
    TransactionInputView, TransactionOutput, TransactionOutputView, UnsignedTransaction,
    UnsignedTransactionView, copy_bytes,
};

verus! {

/// One byte naming the network an address belongs to.
pub open spec fn prefix_tag(p: NetworkPrefix) -> u8 {
    match p {
        NetworkPrefix::Mainnet => 0u8,
        NetworkPrefix::Testnet => 1u8,
        NetworkPrefix::Devnet => 2u8,
        NetworkPrefix::Simnet => 3u8,
    }
}

/// Canonical bytes of an output reference: length-prefixed transaction id,
/// then the output index.
pub open spec fn ser_outpoint(o: OutputReferenceView) -> Seq<u8> {
    spec_u64_to_le_bytes(o.transaction_id.len() as u64) + o.transaction_id + spec_u64_to_le_bytes(
        o.index as u64,
    )
}

/// Canonical bytes of an address: network tag, version byte, then the
/// length-prefixed payload.
pub open spec fn ser_address(a: AddressView) -> Seq<u8> {
    seq![prefix_tag(a.prefix), a.version] + spec_u64_to_le_bytes(a.payload.len() as u64)
        + a.payload
}

/// Canonical bytes of a transaction output: its value, then its address.
pub open spec fn ser_output(o: TransactionOutputView) -> Seq<u8> {
    spec_u64_to_le_bytes(o.value) + ser_address(o.address)
}

/// Canonical bytes of a sequence of outputs, in order.
pub open spec fn ser_outputs(s: Seq<TransactionOutputView>) -> Seq<u8>
    decreases s.len(),
{
    if s.len() == 0 {
        Seq::empty()
    } else {
        ser_outputs(s.drop_last()) + ser_output(s.last())
    }
}

/// Canonical bytes of a transaction input: the consumed outpoint, the
/// consumed amount and owning address, the sequence number, and the
/// signature count hint.
pub open spec fn ser_input(i: TransactionInputView) -> Seq<u8> {
    ser_outpoint(i.utxo.outpoint) + spec_u64_to_le_bytes(i.utxo.amount) + ser_address(
        i.utxo.address,
    ) + spec_u64_to_le_bytes(i.sequence) + seq![i.sig_op_count]
}

/// Canonical bytes of a sequence of inputs, in order.
pub open spec fn ser_inputs(s: Seq<TransactionInputView>) -> Seq<u8>
    decreases s.len(),
{
    if s.len() == 0 {
        Seq::empty()
    } else {
        ser_inputs(s.drop_last()) + ser_input(s.last())
    }
}

/// The part of the signing domain that precedes the outputs: the outpoint
/// consumed by the input being signed, then version, input count, every
/// input, and the output count.
pub open spec fn ser_tx_prefix(tx: UnsignedTransactionView, i: int) -> Seq<u8> {
    ser_outpoint(tx.inputs[i].utxo.outpoint) + spec_u64_to_le_bytes(tx.version as u64)
        + spec_u64_to_le_bytes(tx.inputs.len() as u64) + ser_inputs(tx.inputs)
        + spec_u64_to_le_bytes(tx.outputs.len() as u64)
}

/// The part of the signing domain that follows the outputs: lock time,
/// length-prefixed subnetwork identifier, and length-prefixed payload.
pub open spec fn ser_tx_suffix(tx: UnsignedTransactionView) -> Seq<u8> {
    spec_u64_to_le_bytes(tx.lock_time) + spec_u64_to_le_bytes(tx.subnetwork_id.len() as u64)
        + tx.subnetwork_id + spec_u64_to_le_bytes(tx.payload.len() as u64) + tx.payload
}

/// Everything a signature commits to beyond the input position.
pub open spec fn signing_rest(tx: UnsignedTransactionView, i: int) -> Seq<u8> {
    ser_tx_prefix(tx, i) + ser_outputs(tx.outputs) + ser_tx_suffix(tx)
}

/// The canonical byte domain the signature for input `i` commits to: the
/// position of the input being signed, the outpoint it consumes, and the
/// whole transaction body. Distinct inputs get distinct domains, and any
/// change to an output amount changes every input's domain.
pub open spec fn spec_signing_bytes(tx: UnsignedTransactionView, i: int) -> Seq<u8>
    recommends
        0 <= i < tx.inputs.len(),
{
    spec_u64_to_le_bytes(i as u64) + signing_rest(tx, i)
}

fn u64_bytes(x: u64) -> (r: Vec<u8>)
    ensures
        r@ == spec_u64_to_le_bytes(x),
{
    u64_to_le_bytes(x)
}

fn pair_bytes(a: u8, b: u8) -> (r: Vec<u8>)
    ensures
        r@ == seq![a, b],
{
    let mut r: Vec<u8> = Vec::new();
    r.push(a);
    r.push(b);
    proof {
        assert(r@ =~= seq![a, b]);
    }
    r
}

fn network_prefix_tag(p: NetworkPrefix) -> (r: u8)
    ensures
        r == prefix_tag(p),
{
    match p {
        NetworkPrefix::Mainnet => 0u8,
        NetworkPrefix::Testnet => 1u8,
        NetworkPrefix::Devnet => 2u8,
        NetworkPrefix::Simnet => 3u8,
    }
}

fn outpoint_bytes(o: &OutputReference) -> (r: Vec<u8>)
    ensures
        r@ == ser_outpoint(o@),
{
    let mut r = u64_bytes(o.transaction_id.len() as u64);
    let mut tid = copy_bytes(&o.transaction_id);
    r.append(&mut tid);
    let mut ix = u64_bytes(o.index as u64);
    r.append(&mut ix);
    r
}

fn address_bytes(a: &Address) -> (r: Vec<u8>)
    ensures
        r@ == ser_address(a@),
{
    let mut r = pair_bytes(network_prefix_tag(a.prefix), a.version);
    let mut l = u64_bytes(a.payload.len() as u64);
    r.append(&mut l);
    let mut p = copy_bytes(&a.payload);
    r.append(&mut p);
    r
}

fn output_bytes(o: &TransactionOutput) -> (r: Vec<u8>)
    ensures
        r@ == ser_output(o@),
{
    let mut r = u64_bytes(o.value);
    let mut a = address_bytes(&o.address);
    r.append(&mut a);
    r
}

fn input_bytes(inp: &TransactionInput) -> (r: Vec<u8>)
    ensures
        r@ == ser_input(inp@),
{
    let mut r = outpoint_bytes(&inp.utxo.outpoint);
    let mut am = u64_bytes(inp.utxo.amount);
    r.append(&mut am);
    let mut ad = address_bytes(&inp.utxo.address);
    r.append(&mut ad);
    let mut sq = u64_bytes(inp.sequence);
    r.append(&mut sq);
    r.push(inp.sig_op_count);
    proof {
        assert(r@ =~= ser_input(inp@));
    }
    r
}

proof fn lemma_ser_inputs_take_succ(s: Seq<TransactionInputView>, k: int)
    requires
        0 <= k < s.len(),
    ensures
        ser_inputs(s.take(k + 1)) == ser_inputs(s.take(k)) + ser_input(s[k]),
{
    assert(s.take(k + 1).drop_last() =~= s.take(k));
    assert(s.take(k + 1).last() == s[k]);
}

proof fn lemma_ser_outputs_take_succ(s: Seq<TransactionOutputView>, k: int)
    requires
        0 <= k < s.len(),
    ensures
        ser_outputs(s.take(k + 1)) == ser_outputs(s.take(k)) + ser_output(s[k]),
{
    assert(s.take(k + 1).drop_last() =~= s.take(k));
    assert(s.take(k + 1).last() == s[k]);
}

fn inputs_bytes(ins: &Vec<TransactionInput>) -> (r: Vec<u8>)
    ensures
        r@ == ser_inputs(ins@.map_values(|i: TransactionInput| i@)),
{
    let ghost s: Seq<TransactionInputView> = ins@.map_values(|i: TransactionInput| i@);
    let mut r: Vec<u8> = Vec::new();
    proof {
        assert(s.take(0) =~= Seq::<TransactionInputView>::empty());
    }
    let mut k: usize = 0;
    while k < ins.len()
        invariant
            s == ins@.map_values(|i: TransactionInput| i@),
            k <= ins@.len(),
            r@ == ser_inputs(s.take(k as int)),
        decreases ins@.len() - k,
    {
        let mut chunk = input_bytes(&ins[k]);
        r.append(&mut chunk);
        proof {
            lemma_ser_inputs_take_succ(s, k as int);
        }
        k = k + 1;
    }
    proof {
        assert(s.take(s.len() as int) =~= s);
    }
    r
}

fn outputs_bytes(outs: &Vec<TransactionOutput>) -> (r: Vec<u8>)
    ensures
        r@ == ser_outputs(outs@.map_values(|o: TransactionOutput| o@)),
{
    let ghost s: Seq<TransactionOutputView> = outs@.map_values(|o: TransactionOutput| o@);
    let mut r: Vec<u8> = Vec::new();
    proof {
        assert(s.take(0) =~= Seq::<TransactionOutputView>::empty());
    }
    let mut k: usize = 0;
    while k < outs.len()
        invariant
            s == outs@.map_values(|o: TransactionOutput| o@),
            k <= outs@.len(),
            r@ == ser_outputs(s.take(k as int)),
        decreases outs@.len() - k,
    {
        let mut chunk = output_bytes(&outs[k]);
        r.append(&mut chunk);
        proof {
            lemma_ser_outputs_take_succ(s, k as int);
        }
        k = k + 1;
    }
    proof {
        assert(s.take(s.len() as int) =~= s);
    }
    r
}

fn suffix_bytes(tx: &UnsignedTransaction) -> (r: Vec<u8>)
    ensures
        r@ == ser_tx_suffix(tx@),
{
    let mut r = u64_bytes(tx.lock_time);
    let mut sl = u64_bytes(tx.subnetwork_id.len() as u64);
    r.append(&mut sl);
    let mut sn = copy_bytes(&tx.subnetwork_id);
    r.append(&mut sn);
    let mut pl = u64_bytes(tx.payload.len() as u64);
    r.append(&mut pl);
    let mut p = copy_bytes(&tx.payload);
    r.append(&mut p);
    r
}

/// The canonical signing-domain bytes for input `index` of a transaction.
pub fn signing_bytes(tx: &UnsignedTransaction, index: usize) -> (r: Vec<u8>)
    requires
        index < tx@.inputs.len(),
    ensures
        r@ == spec_signing_bytes(tx@, index as int),
{
    let mut r = u64_bytes(index as u64);
    let mut rest = outpoint_bytes(&tx.inputs[index].utxo.outpoint);
    let mut v = u64_bytes(tx.version as u64);
    rest.append(&mut v);
    let mut il = u64_bytes(tx.inputs.len() as u64);
    rest.append(&mut il);
    let mut ins = inputs_bytes(&tx.inputs);
    rest.append(&mut ins);
    let mut ol = u64_bytes(tx.outputs.len() as u64);
    rest.append(&mut ol);
    proof {
        assert(rest@ == ser_tx_prefix(tx@, index as int));
    }
    let mut outs = outputs_bytes(&tx.outputs);
    rest.append(&mut outs);
    let mut suf = suffix_bytes(tx);
    rest.append(&mut suf);
    r.append(&mut rest);
    r
}

proof fn lemma_u64_le_injective(a: u64, b: u64)
    requires
        a != b,
    ensures
        spec_u64_to_le_bytes(a) != spec_u64_to_le_bytes(b),
{
    lemma_auto_spec_u64_to_from_le_bytes();
    assert(spec_u64_from_le_bytes(spec_u64_to_le_bytes(a)) == a);
    assert(spec_u64_from_le_bytes(spec_u64_to_le_bytes(b)) == b);
}

/// Two concatenations differ when their equally long heads differ.
proof fn lemma_head_neq(x1: Seq<u8>, r1: Seq<u8>, x2: Seq<u8>, r2: Seq<u8>)
    requires
        x1.len() == x2.len(),
        x1 != x2,
    ensures
        x1 + r1 != x2 + r2,
{
    if x1 + r1 == x2 + r2 {
        assert forall|m: int| 0 <= m < x1.len() implies x1[m] == x2[m] by {
            assert((x1 + r1)[m] == x1[m]);
            assert((x2 + r2)[m] == x2[m]);
        }
        assert(x1 =~= x2);
    }
}

/// Two concatenations with the same head differ when their tails differ.
proof fn lemma_prepend_neq(a: Seq<u8>, z1: Seq<u8>, z2: Seq<u8>)
    requires
        z1 != z2,
    ensures
        a + z1 != a + z2,
{
    if a + z1 == a + z2 {
        assert((a + z1).len() == a.len() + z1.len());
        assert((a + z2).len() == a.len() + z2.len());
        assert(z1.len() == z2.len());
        assert forall|m: int| 0 <= m < z1.len() implies z1[m] == z2[m] by {
            assert((a + z1)[a.len() + m] == z1[m]);
            assert((a + z2)[a.len() + m] == z2[m]);
        }
        assert(z1 =~= z2);
    }
}

/// Two concatenations sharing head and tail differ when their equally long
/// middles differ.
proof fn lemma_mid_neq(p: Seq<u8>, x: Seq<u8>, y: Seq<u8>, s: Seq<u8>)
    requires
        x.len() == y.len(),
        x != y,
    ensures
        p + x + s != p + y + s,
{
    if p + x + s == p + y + s {
        assert forall|m: int| 0 <= m < x.len() implies x[m] == y[m] by {
            assert((p + x + s)[p.len() + m] == (p + x)[p.len() + m]);
            assert((p + x)[p.len() + m] == x[m]);
            assert((p + y + s)[p.len() + m] == (p + y)[p.len() + m]);
            assert((p + y)[p.len() + m] == y[m]);
        }
        assert(x =~= y);
    }
}

/// Changing one output's value changes the canonical output bytes, and
/// keeps their length.
proof fn lemma_ser_outputs_value_neq(
    s1: Seq<TransactionOutputView>,
    s2: Seq<TransactionOutputView>,
    k: int,
)
    requires
        s1.len() == s2.len(),
        0 <= k < s1.len(),
        forall|m: int| 0 <= m < s1.len() && m != k ==> s1[m] == s2[m],
        s1[k].address == s2[k].address,
        s1[k].value != s2[k].value,
    ensures
        ser_outputs(s1).len() == ser_outputs(s2).len(),
        ser_outputs(s1) != ser_outputs(s2),
    decreases s1.len(),
{
    lemma_auto_spec_u64_to_from_le_bytes();
    if k == s1.len() - 1 {
        assert(s1.drop_last() =~= s2.drop_last());
        lemma_u64_le_injective(s1[k].value, s2[k].value);
        assert(s1.last() == s1[k]);
        assert(s2.last() == s2[k]);
        lemma_head_neq(
            spec_u64_to_le_bytes(s1[k].value),
            ser_address(s1[k].address),
            spec_u64_to_le_bytes(s2[k].value),
            ser_address(s2[k].address),
        );
        lemma_prepend_neq(ser_outputs(s1.drop_last()), ser_output(s1.last()), ser_output(s2.last()));
    } else {
        let t1 = s1.drop_last();
        let t2 = s2.drop_last();
        assert(s1.last() == s2.last());
        assert forall|m: int| 0 <= m < t1.len() && m != k implies t1[m] == t2[m] by {
            assert(s1[m] == s2[m]);
        }
        lemma_ser_outputs_value_neq(t1, t2, k);
        lemma_head_neq(ser_outputs(t1), ser_output(s1.last()), ser_outputs(t2), ser_output(s2.last()));
    }
}

/// Law: each input of a transaction is signed in a domain of its own. The
/// signing bytes for two distinct input positions are never equal, so a
/// signature produced for one input cannot be a signature over another
/// input's domain.
pub proof fn lemma_signing_domains_distinct(tx: UnsignedTransactionView, i: int, j: int)
    requires
        0 <= i < tx.inputs.len(),
        0 <= j < tx.inputs.len(),
        i != j,
        tx.inputs.len() <= u64::MAX,
    ensures
        spec_signing_bytes(tx, i) != spec_signing_bytes(tx, j),
{
    lemma_auto_spec_u64_to_from_le_bytes();
    assert(i as u64 != j as u64);
    lemma_u64_le_injective(i as u64, j as u64);
    lemma_head_neq(
        spec_u64_to_le_bytes(i as u64),
        signing_rest(tx, i),
        spec_u64_to_le_bytes(j as u64),
        signing_rest(tx, j),
    );
}

/// Law: the signing domain is tamper-evident for output amounts. If any
/// output's value is altered after the signing bytes were fixed, the signing
/// bytes of every input differ from the original ones.
pub proof fn lemma_output_tamper_changes_domain(
    tx1: UnsignedTransactionView,
    tx2: UnsignedTransactionView,
    k: int,
    i: int,
)
    requires
        0 <= i < tx1.inputs.len(),
        tx1.inputs == tx2.inputs,
        tx1.version == tx2.version,
        tx1.lock_time == tx2.lock_time,
        tx1.subnetwork_id == tx2.subnetwork_id,
        tx1.payload == tx2.payload,
        tx1.outputs.len() == tx2.outputs.len(),
        0 <= k < tx1.outputs.len(),
        forall|m: int| 0 <= m < tx1.outputs.len() && m != k ==> tx1.outputs[m] == tx2.outputs[m],
        tx1.outputs[k].address == tx2.outputs[k].address,
        tx1.outputs[k].value != tx2.outputs[k].value,
    ensures
        spec_signing_bytes(tx1, i) != spec_signing_bytes(tx2, i),
{
    lemma_ser_outputs_value_neq(tx1.outputs, tx2.outputs, k);
    assert(ser_tx_prefix(tx1, i) == ser_tx_prefix(tx2, i));
    assert(ser_tx_suffix(tx1) == ser_tx_suffix(tx2));
    lemma_mid_neq(
        ser_tx_prefix(tx1, i),
        ser_outputs(tx1.outputs),
        ser_outputs(tx2.outputs),
        ser_tx_suffix(tx1),
    );
    lemma_prepend_neq(
        spec_u64_to_le_bytes(i as u64),
        signing_rest(tx1, i),
        signing_rest(tx2, i),
    );
}

} // verus!
