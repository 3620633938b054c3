//! The Signer role: records signatures and keeps the modifiable flags true to them.
use vstd::prelude::*;

use crate::error::{DetermineLockTimeError, IndexOutOfBoundsError};
use crate::types::{
    standard_sighash, EcdsaSighashType, EcdsaSignature, LockTime, NonStandardSighashTypeError, Transaction,
    TransactionView, Txid,
};
use crate::{lemma_resolve_same_requirements, InputView, Psbt, PsbtView};

verus! {

broadcast use crate::bytes::lemma_bytes_deep_view;

/// The BIP-370 Signer role. Its PSBT's lock time always resolves.
pub struct Signer(Psbt);

impl View for Signer {
    type V = PsbtView;

    closed spec fn view(&self) -> PsbtView {
        self.0@
    }
}

/// A signature cannot be recorded.
#[derive(Clone, Copy, Debug, PartialEq, Eq, Structural)]
pub enum AddSignatureError {
    /// There is no input at the index.
    IndexOutOfBounds(IndexOutOfBoundsError),
    /// The signature's sighash flag is not a standard one.
    NonStandardSighashType(NonStandardSighashTypeError),
}

pub open spec fn anyone_can_pay(ty: EcdsaSighashType) -> bool {
    ty == EcdsaSighashType::AllPlusAnyoneCanPay || ty == EcdsaSighashType::NonePlusAnyoneCanPay
        || ty == EcdsaSighashType::SinglePlusAnyoneCanPay
}

pub open spec fn signs_no_output(ty: EcdsaSighashType) -> bool {
    ty == EcdsaSighashType::SighashNone || ty == EcdsaSighashType::NonePlusAnyoneCanPay
}

pub open spec fn signs_single_output(ty: EcdsaSighashType) -> bool {
    ty == EcdsaSighashType::Single || ty == EcdsaSighashType::SinglePlusAnyoneCanPay
}

/// The modifiable flags after a signature of type `ty`: without ANYONECANPAY inputs are
/// fixed, unless it signs no output outputs are fixed, and SIGHASH_SINGLE is recorded.
pub open spec fn flags_after_signing(flags: u8, ty: EcdsaSighashType) -> u8 {
    let f1 = if anyone_can_pay(ty) { flags } else { flags & !crate::INPUTS_MODIFIABLE };
    let f2 = if signs_no_output(ty) { f1 } else { f1 & !crate::OUTPUTS_MODIFIABLE };
    if signs_single_output(ty) { f2 | crate::SIGHASH_SINGLE } else { f2 }
}

impl Signer {
    #[verifier::type_invariant]
    spec fn inv(&self) -> bool {
        self.0@.determine_lock_time() is Ok
    }

    /// A signer for `psbt`, whose lock time must resolve, else `psbt` is handed back.
    pub fn new(psbt: Psbt) -> (r: Result<Self, (Psbt, DetermineLockTimeError)>)
        ensures
            match r {
                Ok(s) => psbt@.determine_lock_time() is Ok && s@ == psbt@,
                Err((p, e)) => p == psbt && psbt@.determine_lock_time() == Err::<LockTime, DetermineLockTimeError>(e),
            },
    {
        match psbt.determine_lock_time() {
            Ok(_) => Ok(Signer(psbt)),
            Err(e) => Err((psbt, e)),
        }
    }

    /// The PSBT's unique id.
    pub fn id(&self) -> (r: Txid)
        ensures
            self@.determine_lock_time() is Ok,
            r@ == crate::types::txid_of(self@.id_tx(self@.determine_lock_time()->Ok_0)),
    {
        proof {
            use_type_invariant(self);
        }
        match self.0.id() {
            Ok(id) => id,
            Err(_) => {
                assert(false);
                [0u8; 32]
            },
        }
    }

    /// The unsigned transaction that signatures commit to.
    pub fn unsigned_tx(&self) -> (r: Transaction)
        ensures
            self@.determine_lock_time() is Ok,
            r.deep_view() == self@.unsigned_tx(self@.determine_lock_time()->Ok_0),
    {
        proof {
            use_type_invariant(self);
        }
        match self.0.unsigned_tx() {
            Ok(tx) => tx,
            Err(_) => {
                assert(false);
                Transaction { version: 0, lock_time: 0, input: Vec::new(), output: Vec::new() }
            },
        }
    }

    /// Updates the modifiable flags after an ECDSA signature of type `ty` was added, as
    /// BIP-370 asks of a signer.
    pub fn ecdsa_clear_tx_modifiable(&mut self, ty: EcdsaSighashType)
        ensures
            final(self)@ == old(self)@.with_flags(flags_after_signing(old(self)@.tx_modifiable_flags, ty)),
    {
        let mut this = Signer(Psbt::empty());
        std::mem::swap(self, &mut this);
        proof {
            use_type_invariant(&this);
        }
        let mut psbt = this.0;
        if !(ty == EcdsaSighashType::AllPlusAnyoneCanPay || ty == EcdsaSighashType::NonePlusAnyoneCanPay
            || ty == EcdsaSighashType::SinglePlusAnyoneCanPay) {
            psbt.clear_inputs_modifiable_flag();
        }
        if !(ty == EcdsaSighashType::SighashNone || ty == EcdsaSighashType::NonePlusAnyoneCanPay) {
            psbt.clear_outputs_modifiable_flag();
        }
        if ty == EcdsaSighashType::Single || ty == EcdsaSighashType::SinglePlusAnyoneCanPay {
            psbt.set_sighash_single_flag();
        }
        assert(psbt@.inputs == old(self)@.inputs);
        *self = Signer(psbt);
    }

    /// Records `sig` as the signature of `pubkey` on the input at `input_index`, then updates
    /// the modifiable flags for its sighash type.
    pub fn add_ecdsa_signature(&mut self, input_index: usize, pubkey: Vec<u8>, sig: EcdsaSignature) -> (r:
        Result<(), AddSignatureError>)
        ensures
            match r {
                Ok(()) => input_index < old(self)@.inputs.len() && standard_sighash(sig.sighash_type) is Some
                    && final(self)@ == (PsbtView {
                    inputs: old(self)@.inputs.update(
                        input_index as int,
                        InputView {
                            partial_sigs: old(self)@.inputs[input_index as int].partial_sigs.insert(pubkey@, sig.deep_view()),
                            ..old(self)@.inputs[input_index as int]
                        },
                    ),
                    ..old(self)@.with_flags(
                        flags_after_signing(old(self)@.tx_modifiable_flags, standard_sighash(sig.sighash_type).unwrap()),
                    )
                }),
                Err(AddSignatureError::IndexOutOfBounds(e)) => input_index >= old(self)@.inputs.len() && e == (
                IndexOutOfBoundsError { index: input_index, length: old(self)@.inputs.len() as usize })
                    && *final(self) == *old(self),
                Err(AddSignatureError::NonStandardSighashType(e)) => input_index < old(self)@.inputs.len()
                    && standard_sighash(sig.sighash_type) is None && e == NonStandardSighashTypeError(sig.sighash_type)
                    && *final(self) == *old(self),
            },
    {
        proof {
            use_type_invariant(&*self);
        }
        if input_index >= self.0.inputs.len() {
            return Err(
                AddSignatureError::IndexOutOfBounds(IndexOutOfBoundsError { index: input_index, length: self.0.inputs.len() }),
            );
        }
        let ty = match EcdsaSighashType::from_standard(sig.sighash_type) {
            Ok(ty) => ty,
            Err(e) => return Err(AddSignatureError::NonStandardSighashType(e)),
        };
        let mut this = Signer(Psbt::empty());
        std::mem::swap(self, &mut this);
        proof {
            use_type_invariant(&this);
        }
        let mut psbt = this.0;
        let ghost before = psbt@;
        let mut input = psbt.inputs.remove(input_index);
        input.partial_sigs.insert(pubkey, sig);
        psbt.inputs.insert(input_index, input);
        let ghost expected = before.inputs.update(
            input_index as int,
            InputView { partial_sigs: before.inputs[input_index as int].partial_sigs.insert(pubkey@, sig.deep_view()), ..before.inputs[input_index as int] },
        );
        assert(psbt@.inputs =~= expected);
        proof {
            lemma_resolve_same_requirements(psbt@.inputs, before.inputs, psbt@.fallback_lock_time);
        }
        *self = Signer(psbt);
        self.ecdsa_clear_tx_modifiable(ty);
        Ok(())
    }

    /// The PSBT, for a signing service to read.
    pub fn psbt(&self) -> (r: &Psbt)
        ensures
            r@ == self@,
    {
        &self.0
    }

    /// The PSBT.
    pub fn into_inner(self) -> (r: Psbt)
        ensures
            r@ == self@,
    {
        self.0
    }
}

} // verus!
