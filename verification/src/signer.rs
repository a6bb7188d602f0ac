use vstd::prelude::*;

use crate::codec::{
    lemma_output_tamper_changes_domain, lemma_signing_domains_distinct, signing_bytes,
    spec_signing_bytes,
};
use crate::ledger::{
    Address, NetworkPrefix, SignedTransaction, SignedTransactionView, UnsignedTransaction,
    UnsignedTransactionView,
};

verus! {

/// The SHA-256 digest of a byte sequence.
pub uninterp spec fn digest_of(data: Seq<u8>) -> Seq<u8>;

/// Whether the signature primitive accepts a byte string as a secret key:
/// it rejects everything but the 32-byte encodings of valid scalars (not
/// all-zero, below the curve order). Acceptance depends on the key bytes
/// alone.
pub uninterp spec fn key_accepted(key: Seq<u8>) -> bool;

/// The x-only public key derived from a 32-byte secret key.
pub uninterp spec fn pubkey_of(key: Seq<u8>) -> Seq<u8>;

/// The schnorr signature produced, without auxiliary randomness, by a
/// secret key over a message.
pub uninterp spec fn schnorr_sig_of(key: Seq<u8>, msg: Seq<u8>) -> Seq<u8>;

/// Whether the schnorr verification routine accepts a signature for a
/// message under an x-only public key.
pub uninterp spec fn schnorr_verifies(sig: Seq<u8>, msg: Seq<u8>, pk: Seq<u8>) -> bool;

/// Relies on sha2::Sha256::digest: the digest depends on the input bytes
/// alone and is 32 bytes long.
#[verifier::external_body]
fn sha256(data: &Vec<u8>) -> (r: Vec<u8>)
    ensures
        r@ == digest_of(data@),
        r@.len() == 32,
{
    <sha2::Sha256 as sha2::Digest>::digest(data.as_slice()).to_vec()
}

/// Relies on secp256k1's Keypair::from_secret_bytes and
/// XOnlyPublicKey::from_keypair: key creation fails exactly on byte
/// strings the primitive rejects as secret keys, and an accepted 32-byte
/// key determines its x-only public key, serialized as 32 bytes.
#[verifier::external_body]
pub(crate) fn derive_pubkey(key: &Vec<u8>) -> (r: Option<Vec<u8>>)
    ensures
        r matches Some(p) ==> p@ == pubkey_of(key@) && p@.len() == 32,
        key@.len() == 32 && key_accepted(key@) ==> r is Some,
        r is Some ==> key@.len() == 32 && key_accepted(key@),
{
    let bytes: [u8; 32] = match key.as_slice().try_into() {
        Ok(b) => b,
        Err(_) => return None,
    };
    let kp = match secp256k1::Keypair::from_secret_bytes(bytes) {
        Ok(kp) => kp,
        Err(_) => return None,
    };
    let (pk, _parity) = secp256k1::XOnlyPublicKey::from_keypair(&kp);
    Some(pk.to_byte_array().to_vec())
}

/// Relies on secp256k1's schnorr::sign_no_aux_rand and
/// Keypair::from_secret_bytes: key creation fails exactly on byte strings
/// the primitive rejects as secret keys; for an accepted key, without
/// auxiliary randomness the signature depends on the secret key and the
/// message alone, is 64 bytes long, and verifies under the key's x-only
/// public key.
#[verifier::external_body]
fn schnorr_sign(key: &Vec<u8>, msg: &Vec<u8>) -> (r: Option<Vec<u8>>)
    ensures
        r matches Some(s) ==> s@ == schnorr_sig_of(key@, msg@),
        r matches Some(s) ==> s@.len() == 64,
        r matches Some(s) ==> schnorr_verifies(s@, msg@, pubkey_of(key@)),
        key@.len() == 32 && key_accepted(key@) ==> r is Some,
        r is Some ==> key@.len() == 32 && key_accepted(key@),
{
    let bytes: [u8; 32] = match key.as_slice().try_into() {
        Ok(b) => b,
        Err(_) => return None,
    };
    let kp = match secp256k1::Keypair::from_secret_bytes(bytes) {
        Ok(kp) => kp,
        Err(_) => return None,
    };
    let sig = secp256k1::schnorr::sign_no_aux_rand(msg.as_slice(), &kp);
    Some(sig.to_byte_array().to_vec())
}

/// Relies on secp256k1's schnorr::verify: acceptance depends only on the
/// signature, message, and public key bytes, and malformed signature or
/// key bytes are never accepted.
#[verifier::external_body]
fn schnorr_verify(sig: &Vec<u8>, msg: &Vec<u8>, pk: &Vec<u8>) -> (r: bool)
    ensures
        r == schnorr_verifies(sig@, msg@, pk@),
{
    let sig_bytes: [u8; 64] = match sig.as_slice().try_into() {
        Ok(b) => b,
        Err(_) => return false,
    };
    let pk_bytes: [u8; 32] = match pk.as_slice().try_into() {
        Ok(b) => b,
        Err(_) => return false,
    };
    let signature = secp256k1::schnorr::Signature::from_byte_array(sig_bytes);
    let pubkey = match secp256k1::XOnlyPublicKey::from_byte_array(pk_bytes) {
        Ok(p) => p,
        Err(_) => return false,
    };
    secp256k1::schnorr::verify(&signature, msg.as_slice(), &pubkey).is_ok()
}

/// Failure of the signer: the key material was rejected by the signature
/// primitive.
#[derive(Clone, Copy, PartialEq, Eq, Structural, Debug)]
pub enum SignError {
    KeyRejected,
}

/// The message the signature for input `i` is computed over: the SHA-256
/// digest of that input's canonical signing bytes.
pub open spec fn signing_digest(tx: UnsignedTransactionView, i: int) -> Seq<u8> {
    digest_of(spec_signing_bytes(tx, i))
}

/// A fully signed transaction: one signature per input, each the
/// deterministic schnorr signature of the holder's key over that input's
/// signing digest, and each verifying under the holder's public key.
pub open spec fn sigs_valid(stx: SignedTransactionView, key: Seq<u8>) -> bool {
    &&& stx.signatures.len() == stx.unsigned.inputs.len()
    &&& forall|i: int|
        0 <= i < stx.signatures.len() ==> #[trigger] stx.signatures[i] == schnorr_sig_of(
            key,
            signing_digest(stx.unsigned, i),
        )
    &&& forall|i: int|
        0 <= i < stx.signatures.len() ==> schnorr_verifies(
            #[trigger] stx.signatures[i],
            signing_digest(stx.unsigned, i),
            pubkey_of(key),
        )
}

/// Whether every input signature of a signed transaction verifies, under
/// the given x-only public key, against the transaction's own signing
/// digests.
pub open spec fn all_inputs_verify(stx: SignedTransactionView, pk: Seq<u8>) -> bool {
    &&& stx.signatures.len() == stx.unsigned.inputs.len()
    &&& forall|i: int|
        0 <= i < stx.signatures.len() ==> schnorr_verifies(
            #[trigger] stx.signatures[i],
            signing_digest(stx.unsigned, i),
            pk,
        )
}

/// The address of the holder of a private key on a network: the x-only
/// public key as payload under the schnorr address version. Returns an
/// address exactly when the signature primitive accepts the 32-byte key.
pub fn address_for(key: &Vec<u8>, prefix: NetworkPrefix) -> (r: Option<Address>)
    ensures
        r matches Some(a) ==> a@.payload == pubkey_of(key@) && a@.prefix == prefix && a@.version
            == 0,
        r is Some <==> key@.len() == 32 && key_accepted(key@),
{
    match derive_pubkey(key) {
        Some(payload) => Some(Address { prefix, version: 0, payload }),
        None => None,
    }
}

/// The canonical signing hash of one input: the 32-byte digest a signature
/// for that input commits to.
pub fn input_signing_hash(tx: &UnsignedTransaction, index: usize) -> (r: Vec<u8>)
    requires
        index < tx@.inputs.len(),
    ensures
        r@ == signing_digest(tx@, index as int),
        r@.len() == 32,
{
    let bytes = signing_bytes(tx, index);
    sha256(&bytes)
}

/// Signs every input of an unsigned transaction with the holder's 32-byte
/// secret key. Signing succeeds whenever the signature primitive accepts
/// the key; the transaction contents are then unchanged and every input
/// carries exactly one signature, bound to that input's signing digest and
/// verifying under the holder's public key. On failure the key was
/// rejected by the signature primitive and nothing is produced.
pub fn sign_transaction(tx: UnsignedTransaction, key: &Vec<u8>) -> (r: Result<
    SignedTransaction,
    SignError,
>)
    ensures
        r matches Ok(stx) ==> stx.unsigned@ == tx@,
        r matches Ok(stx) ==> sigs_valid(stx@, key@),
        r matches Ok(stx) ==> all_inputs_verify(stx@, pubkey_of(key@)),
        r matches Err(e) ==> e == SignError::KeyRejected,
        key@.len() == 32 && key_accepted(key@) ==> r is Ok,
        key@.len() != 32 ==> r is Err,
{
    if key.len() != 32 {
        return Err(SignError::KeyRejected);
    }
    let mut signatures: Vec<Vec<u8>> = Vec::new();
    let mut k: usize = 0;
    while k < tx.inputs.len()
        invariant
            k == signatures@.len(),
            k <= tx.inputs@.len(),
            forall|i: int|
                0 <= i < k ==> (#[trigger] signatures@[i])@ == schnorr_sig_of(
                    key@,
                    signing_digest(tx@, i),
                ),
            forall|i: int|
                0 <= i < k ==> schnorr_verifies(
                    (#[trigger] signatures@[i])@,
                    signing_digest(tx@, i),
                    pubkey_of(key@),
                ),
        decreases tx.inputs@.len() - k,
    {
        let bytes = signing_bytes(&tx, k);
        let digest = sha256(&bytes);
        let sig = match schnorr_sign(key, &digest) {
            Some(sig) => sig,
            None => {
                return Err(SignError::KeyRejected);
            },
        };
        signatures.push(sig);
        k = k + 1;
    }
    let stx = SignedTransaction { unsigned: tx, signatures };
    Ok(stx)
}

/// Recomputes each input's signing digest and checks each signature of a
/// signed transaction against it. Returns true exactly when every input
/// carries a signature that verifies under `pubkey`.
pub fn verify_signed_transaction(stx: &SignedTransaction, pubkey: &Vec<u8>) -> (r: bool)
    ensures
        r == all_inputs_verify(stx@, pubkey@),
{
    if stx.signatures.len() != stx.unsigned.inputs.len() {
        return false;
    }
    let mut k: usize = 0;
    while k < stx.unsigned.inputs.len()
        invariant
            k <= stx.unsigned.inputs@.len(),
            stx.signatures@.len() == stx.unsigned.inputs@.len(),
            forall|i: int|
                0 <= i < k ==> schnorr_verifies(
                    (#[trigger] stx.signatures@[i])@,
                    signing_digest(stx.unsigned@, i),
                    pubkey@,
                ),
        decreases stx.unsigned.inputs@.len() - k,
    {
        let bytes = signing_bytes(&stx.unsigned, k);
        let digest = sha256(&bytes);
        if !schnorr_verify(&stx.signatures[k], &digest, pubkey) {
            proof {
                assert(stx@.signatures[k as int] == stx.signatures@[k as int]@);
                assert(!schnorr_verifies(
                    stx@.signatures[k as int],
                    signing_digest(stx.unsigned@, k as int),
                    pubkey@,
                ));
            }
            return false;
        }
        k = k + 1;
    }
    true
}

/// Law: signing is deterministic per signing-hash domain. Two signed forms
/// of the same unsigned transaction under the same key carry identical
/// signatures, and in both every signature verifies against its own
/// input's signing digest under the holder's public key.
pub proof fn lemma_signing_deterministic(
    t1: SignedTransactionView,
    t2: SignedTransactionView,
    key: Seq<u8>,
)
    requires
        sigs_valid(t1, key),
        sigs_valid(t2, key),
        t1.unsigned == t2.unsigned,
    ensures
        t1.signatures == t2.signatures,
        all_inputs_verify(t1, pubkey_of(key)),
        all_inputs_verify(t2, pubkey_of(key)),
{
    assert forall|i: int| 0 <= i < t1.signatures.len() implies t1.signatures[i]
        == t2.signatures[i] by {
        assert(t1.signatures[i] == schnorr_sig_of(key, signing_digest(t1.unsigned, i)));
        assert(t2.signatures[i] == schnorr_sig_of(key, signing_digest(t2.unsigned, i)));
    }
    assert(t1.signatures =~= t2.signatures);
}

/// Law: no cross-input replay at the domain level. In a signed transaction
/// the signature of input `i` is the deterministic signature over input
/// `i`'s own signing bytes, and the signing bytes of any other input `j`
/// differ, so the signature of input `i` was never computed over input
/// `j`'s domain.
pub proof fn lemma_no_cross_input_replay(
    stx: SignedTransactionView,
    key: Seq<u8>,
    i: int,
    j: int,
)
    requires
        sigs_valid(stx, key),
        0 <= i < stx.unsigned.inputs.len(),
        0 <= j < stx.unsigned.inputs.len(),
        i != j,
        stx.unsigned.inputs.len() <= u64::MAX,
    ensures
        stx.signatures[i] == schnorr_sig_of(key, signing_digest(stx.unsigned, i)),
        spec_signing_bytes(stx.unsigned, i) != spec_signing_bytes(stx.unsigned, j),
{
    lemma_signing_domains_distinct(stx.unsigned, i, j);
}

/// Law: tamper-evidence at the domain level. If any output value of a
/// signed transaction is altered afterwards, every input's signing bytes
/// differ from the ones its signature was computed over.
pub proof fn lemma_output_tamper_evident(
    stx: SignedTransactionView,
    tampered: UnsignedTransactionView,
    key: Seq<u8>,
    k: int,
    i: int,
)
    requires
        sigs_valid(stx, key),
        0 <= i < stx.unsigned.inputs.len(),
        tampered.inputs == stx.unsigned.inputs,
        tampered.version == stx.unsigned.version,
        tampered.lock_time == stx.unsigned.lock_time,
        tampered.subnetwork_id == stx.unsigned.subnetwork_id,
        tampered.payload == stx.unsigned.payload,
        tampered.outputs.len() == stx.unsigned.outputs.len(),
        0 <= k < stx.unsigned.outputs.len(),
        forall|m: int|
            0 <= m < stx.unsigned.outputs.len() && m != k ==> tampered.outputs[m]
                == stx.unsigned.outputs[m],
        tampered.outputs[k].address == stx.unsigned.outputs[k].address,
        tampered.outputs[k].value != stx.unsigned.outputs[k].value,
    ensures
        stx.signatures[i] == schnorr_sig_of(key, signing_digest(stx.unsigned, i)),
        spec_signing_bytes(tampered, i) != spec_signing_bytes(stx.unsigned, i),
{
    lemma_output_tamper_changes_domain(stx.unsigned, tampered, k, i);
}

} // verus!
