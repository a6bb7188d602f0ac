use vstd::prelude::*;

use crate::builder::{
    BuildError, build, build_failure, build_succeeds, is_built_transaction, spendable_total,
};
use crate::ledger::{
    Address, AddressView, SignedTransaction, SignedTransactionView, SpendableOutput, input_sum,
    output_sum,
};
use crate::signer::{
    SignError, all_inputs_verify, derive_pubkey, key_accepted, pubkey_of, sign_transaction,
    sigs_valid, verify_signed_transaction,
};

verus! {

/// The stages of one submission run. A run moves forward only; `Failed` is
/// terminal and reachable from any stage, and there is no resumption from
/// it: a new run must be started with freshly fetched outputs.
#[derive(Clone, Copy, PartialEq, Eq, Structural, Debug)]
pub enum Stage {
    Idle,
    FetchingUtxos,
    Building,
    Signing,
    Verifying,
    Submitting,
    Done,
    Failed,
}

/// One transfer's parameters together with the holder's secret key.
pub struct TransferRequest {
    pub source: Address,
    pub destination: Address,
    pub amount: u64,
    pub priority_fee: u64,
    pub private_key: Vec<u8>,
}

#[verifier::ext_equal]
pub ghost struct TransferRequestView {
    pub source: AddressView,
    pub destination: AddressView,
    pub amount: u64,
    pub priority_fee: u64,
    pub private_key: Seq<u8>,
}

impl View for TransferRequest {
    type V = TransferRequestView;

    open spec fn view(&self) -> TransferRequestView {
        TransferRequestView {
            source: self.source@,
            destination: self.destination@,
            amount: self.amount,
            priority_fee: self.priority_fee,
            private_key: self.private_key@,
        }
    }
}

/// Why a run failed, by stage and cause, so a caller can tell insufficient
/// funds from a rejected submission from a broken signer.
#[derive(Clone, Copy, PartialEq, Eq, Structural, Debug)]
pub enum PipelineError {
    /// A deterministic local validation failure in the builder.
    Validation(BuildError),
    /// The signature primitive rejected the holder's key material.
    Signing(SignError),
    /// Internal-consistency fault: a fresh signature failed the local
    /// re-verification. Fatal; the transaction never leaves the process.
    VerificationFault,
    /// The network rejected the submitted transaction.
    NetworkRejected,
}

/// One single-transfer submission run: fetch spendable outputs, build,
/// sign, re-verify, and only then hand the transaction to the gateway.
pub struct Pipeline {
    pub stage: Stage,
    pub request: TransferRequest,
    pub prepared: Option<SignedTransaction>,
}

#[verifier::ext_equal]
pub ghost struct PipelineView {
    pub stage: Stage,
    pub request: TransferRequestView,
    pub prepared: Option<SignedTransactionView>,
}

impl View for Pipeline {
    type V = PipelineView;

    open spec fn view(&self) -> PipelineView {
        PipelineView {
            stage: self.stage,
            request: self.request@,
            prepared: match self.prepared {
                Some(ref t) => Some(t@),
                None => None,
            },
        }
    }
}

/// The ordering invariant of every reachable pipeline: a transaction is
/// staged exactly in the `Submitting` stage, and anything staged was signed
/// with the holder's key and passed re-verification under the holder's
/// public key. Nothing unverified can ever reach the gateway.
pub open spec fn inv(p: PipelineView) -> bool {
    &&& (p.stage is Submitting <==> p.prepared is Some)
    &&& (p.prepared matches Some(stx) ==> sigs_valid(stx, p.request.private_key)
        && all_inputs_verify(stx, pubkey_of(p.request.private_key)))
}

impl Pipeline {
    /// A fresh pipeline for one transfer, not yet started.
    pub fn new(request: TransferRequest) -> (p: Pipeline)
        ensures
            p@.stage is Idle,
            p@.request == request@,
            p@.prepared is None,
            inv(p@),
    {
        Pipeline { stage: Stage::Idle, request, prepared: None }
    }

    /// Begin the run. The caller must now fetch the spendable outputs of
    /// the source address and hand them to `on_utxos_received`; stale
    /// outputs from an earlier failed run must never be reused.
    pub fn start(&mut self)
        requires
            old(self)@.stage is Idle,
            inv(old(self)@),
        ensures
            final(self)@.stage is FetchingUtxos,
            final(self)@.request == old(self)@.request,
            final(self)@.prepared is None,
            inv(final(self)@),
    {
        self.stage = Stage::FetchingUtxos;
    }

    /// Build, sign, and re-verify with the freshly fetched spendable
    /// outputs. The call succeeds exactly when the build succeeds and the
    /// signature primitive accepts the holder's 32-byte key; the pipeline
    /// then holds the verified transaction and only then enters
    /// `Submitting`. On any failure it enters `Failed` holding nothing. A
    /// verification failure of a fresh signature would be a fatal internal
    /// fault that blocks submission; the contract proves this fault cannot
    /// occur, and the check stands regardless.
    pub fn on_utxos_received(&mut self, utxos: Vec<SpendableOutput>) -> (r: Result<
        (),
        PipelineError,
    >)
        requires
            old(self)@.stage is FetchingUtxos,
            inv(old(self)@),
        ensures
            inv(final(self)@),
            final(self)@.request == old(self)@.request,
            r is Ok <==> final(self)@.stage is Submitting,
            r is Err ==> final(self)@.stage is Failed && final(self)@.prepared is None,
            r matches Err(PipelineError::Validation(e)) ==> build_failure(
                old(self)@.request.amount,
                old(self)@.request.priority_fee,
                utxos@,
            ) == Some(e),
            build_failure(
                old(self)@.request.amount,
                old(self)@.request.priority_fee,
                utxos@,
            ) matches Some(e) ==> r == Err::<(), PipelineError>(PipelineError::Validation(e)),
            r matches Err(PipelineError::Signing(e)) ==> build_succeeds(
                old(self)@.request.amount,
                old(self)@.request.priority_fee,
                utxos@,
            ) && e == SignError::KeyRejected && !(old(self)@.request.private_key.len() == 32
                && key_accepted(old(self)@.request.private_key)),
            !(r matches Err(PipelineError::VerificationFault)),
            !(r matches Err(PipelineError::NetworkRejected)),
            r is Ok <==> (build_succeeds(
                old(self)@.request.amount,
                old(self)@.request.priority_fee,
                utxos@,
            ) && old(self)@.request.private_key.len() == 32 && key_accepted(
                old(self)@.request.private_key,
            )),
            r is Ok ==> (final(self)@.prepared matches Some(stx) ==> {
                &&& is_built_transaction(
                    stx.unsigned,
                    old(self)@.request.source,
                    old(self)@.request.destination,
                    old(self)@.request.amount,
                    old(self)@.request.priority_fee,
                    utxos@,
                )
                &&& input_sum(stx.unsigned) == spendable_total(utxos@)
                &&& output_sum(stx.unsigned) + old(self)@.request.priority_fee == input_sum(
                    stx.unsigned,
                )
            }),
    {
        self.stage = Stage::Building;
        let tx = match build(
            &self.request.source,
            &self.request.destination,
            self.request.amount,
            self.request.priority_fee,
            utxos,
        ) {
            Ok(tx) => tx,
            Err(e) => {
                self.stage = Stage::Failed;
                self.prepared = None;
                return Err(PipelineError::Validation(e));
            },
        };
        self.stage = Stage::Signing;
        let pk = match derive_pubkey(&self.request.private_key) {
            Some(pk) => pk,
            None => {
                self.stage = Stage::Failed;
                self.prepared = None;
                return Err(PipelineError::Signing(SignError::KeyRejected));
            },
        };
        let stx = match sign_transaction(tx, &self.request.private_key) {
            Ok(stx) => stx,
            Err(e) => {
                self.stage = Stage::Failed;
                self.prepared = None;
                return Err(PipelineError::Signing(e));
            },
        };
        self.stage = Stage::Verifying;
        if !verify_signed_transaction(&stx, &pk) {
            // fatal internal-consistency fault: never submit such a
            // transaction (the contracts above prove this branch is dead)
            self.stage = Stage::Failed;
            self.prepared = None;
            return Err(PipelineError::VerificationFault);
        }
        self.prepared = Some(stx);
        self.stage = Stage::Submitting;
        Ok(())
    }

    /// The verified transaction to hand to the node gateway.
    pub fn submittable(&self) -> (r: &SignedTransaction)
        requires
            self@.stage is Submitting,
            inv(self@),
        ensures
            Some(r@) == self@.prepared,
    {
        match &self.prepared {
            Some(t) => t,
            None => vstd::pervasive::unreached(),
        }
    }

    /// Record the gateway's answer for the submitted transaction. Success
    /// ends the run; a rejection is a network fault surfaced to the
    /// caller. Neither outcome can be retried: no method accepts a
    /// pipeline in `Done` or `Failed`.
    pub fn on_submit_result(&mut self, accepted: bool) -> (r: Result<(), PipelineError>)
        requires
            old(self)@.stage is Submitting,
            inv(old(self)@),
        ensures
            inv(final(self)@),
            final(self)@.request == old(self)@.request,
            final(self)@.prepared is None,
            accepted ==> final(self)@.stage is Done && r is Ok,
            !accepted ==> final(self)@.stage is Failed && r == Err::<(), PipelineError>(
                PipelineError::NetworkRejected,
            ),
    {
        self.prepared = None;
        if accepted {
            self.stage = Stage::Done;
            Ok(())
        } else {
            self.stage = Stage::Failed;
            Err(PipelineError::NetworkRejected)
        }
    }
}

} // verus!
