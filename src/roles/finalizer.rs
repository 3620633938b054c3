//! The Finalizer role: checks that the document is ready, then replaces each input's signing
//! material with the final scriptSig and witness that a script finalizer produced.
use vstd::prelude::*;

use crate::error::{DetermineLockTimeError, FundingUtxoError};
use crate::input::{self, Input};
use crate::keymap::lists_map;
use crate::types::{
    standard_sighash, EcdsaSighashType, LockTime, NonStandardSighashTypeError, TxOutView, Txid,
};
use crate::{InputView, Psbt, PsbtView};

verus! {

broadcast use crate::bytes::lemma_bytes_deep_view;

/// The BIP-370 Finalizer role. Its PSBT's lock time always resolves.
pub struct Finalizer(Psbt);

impl View for Finalizer {
    type V = PsbtView;

    closed spec fn view(&self) -> PsbtView {
        self.0@
    }
}

/// A `Finalizer` cannot be made.
#[derive(Clone, Debug, PartialEq, Eq)]
pub enum Error {
    /// An input's funding output cannot be had.
    FundingUtxo {
        /// The index of the input.
        input_index: usize,
        /// Why its funding output cannot be had.
        error: FundingUtxoError,
    },
    /// The lock time does not resolve.
    DetermineLockTime(DetermineLockTimeError),
    /// A partial signature's sighash type is wrong.
    PartialSigsSighashType(PartialSigsSighashTypeError),
}

/// A partial signature does not use the sighash type its input asks for.
#[derive(Clone, Debug, PartialEq, Eq)]
pub enum PartialSigsSighashTypeError {
    /// The input's `sighash_type` field is not a standard sighash type.
    NonStandardInputSighashType {
        /// The index of the input.
        input_index: usize,
        /// The non-standard value.
        error: NonStandardSighashTypeError,
    },
    /// A partial signature's sighash flag is not a standard sighash type.
    NonStandardPartialSigsSighashType {
        /// The index of the input.
        input_index: usize,
        /// The non-standard value.
        error: NonStandardSighashTypeError,
    },
    /// A partial signature uses another sighash type than its input asks for.
    WrongSighashFlag {
        /// The index of the input.
        input_index: usize,
        /// The sighash type of the signature.
        got: EcdsaSighashType,
        /// The sighash type the input asks for.
        required: EcdsaSighashType,
        /// The public key the signature is recorded under.
        pubkey: Vec<u8>,
    },
}

/// Finalizing with the given scripts failed.
#[derive(Clone, Copy, Debug, PartialEq, Eq, Structural)]
pub enum FinalizeError {
    /// The number of final script pairs differs from the number of inputs.
    CountMismatch {
        /// The number of inputs.
        inputs: usize,
        /// The number of final script pairs.
        scripts: usize,
    },
    /// The input at this index spends a segwit output but its final witness is empty.
    EmptyWitness(usize),
}

/// The sighash type that the signatures of input `i` must use: its `sighash_type` field, or
/// SIGHASH_ALL by default; `None` if that field is not a standard type.
pub open spec fn required_sighash(i: InputView) -> Option<EcdsaSighashType> {
    match i.sighash_type {
        Some(n) => standard_sighash(n),
        None => Some(EcdsaSighashType::All),
    }
}

/// Every partial signature of input `i` uses the sighash type that `i` asks for.
pub open spec fn sighash_ok(i: InputView) -> bool {
    required_sighash(i) is Some && forall|k: Seq<u8>|
        #[trigger] i.partial_sigs.contains_key(k) ==> standard_sighash(i.partial_sigs[k].sighash_type)
            == required_sighash(i)
}

/// `e` is the sighash error of the first input of `s` that fails the check.
pub open spec fn sighash_error_is(s: Seq<InputView>, e: PartialSigsSighashTypeError) -> bool {
    match e {
        PartialSigsSighashTypeError::NonStandardInputSighashType { input_index, error } => input_index
            < s.len() && (forall|j: int| 0 <= j < input_index ==> sighash_ok(#[trigger] s[j]))
            && s[input_index as int].sighash_type == Some(error.0) && standard_sighash(error.0) is None,
        PartialSigsSighashTypeError::NonStandardPartialSigsSighashType { input_index, error } =>
            input_index < s.len() && (forall|j: int| 0 <= j < input_index ==> sighash_ok(#[trigger] s[j]))
            && required_sighash(s[input_index as int]) is Some && (exists|k: Seq<u8>|
            #[trigger] s[input_index as int].partial_sigs.contains_key(k)
                && s[input_index as int].partial_sigs[k].sighash_type == error.0) && standard_sighash(error.0) is None,
        PartialSigsSighashTypeError::WrongSighashFlag { input_index, got, required, pubkey } => input_index
            < s.len() && (forall|j: int| 0 <= j < input_index ==> sighash_ok(#[trigger] s[j]))
            && required_sighash(s[input_index as int]) == Some(required)
            && s[input_index as int].partial_sigs.contains_key(pubkey@) && standard_sighash(
            s[input_index as int].partial_sigs[pubkey@].sighash_type,
        ) == Some(got) && got != required,
    }
}

/// Every input of the document has a funding output.
pub open spec fn all_funded(p: PsbtView) -> bool {
    forall|i: int| 0 <= i < p.inputs.len() ==> (#[trigger] p.inputs[i]).funding_utxo() is Ok
}

/// The document once each input is finalized with its pair of `finals`.
pub open spec fn finalized_doc(p: PsbtView, finals: Seq<(Seq<u8>, Seq<Seq<u8>>)>) -> PsbtView {
    PsbtView {
        inputs: Seq::new(p.inputs.len(), |i: int| p.inputs[i].finalized(finals[i].0, finals[i].1)),
        ..p
    }
}

impl Finalizer {
    #[verifier::type_invariant]
    spec fn inv(&self) -> bool {
        self.0@.determine_lock_time() is Ok
    }

    /// A finalizer for `psbt`: every input must have a funding output, the lock time must
    /// resolve, and every partial signature must use its input's sighash type; else `psbt` is
    /// handed back with the error.
    pub fn new(psbt: Psbt) -> (r: Result<Self, (Psbt, Error)>)
        ensures
            r matches Err((p, _)) ==> p == psbt,
            match r {
                Ok(f) => f@ == psbt@ && all_funded(psbt@) && psbt@.determine_lock_time() is Ok
                    && forall|i: int| 0 <= i < psbt@.inputs.len() ==> sighash_ok(#[trigger] psbt@.inputs[i]),
                Err((_, Error::FundingUtxo { input_index, error })) => input_index < psbt@.inputs.len()
                    && (forall|j: int| 0 <= j < input_index ==> (#[trigger] psbt@.inputs[j]).funding_utxo() is Ok)
                    && psbt@.inputs[input_index as int].funding_utxo() == Err::<TxOutView, FundingUtxoError>(error),
                Err((_, Error::DetermineLockTime(e))) => all_funded(psbt@) && psbt@.determine_lock_time() == Err::<
                    LockTime,
                    DetermineLockTimeError,
                >(e),
                Err((_, Error::PartialSigsSighashType(e))) => all_funded(psbt@) && psbt@.determine_lock_time() is Ok
                    && sighash_error_is(psbt@.inputs, e),
            },
    {
        let mut i: usize = 0;
        while i < psbt.inputs.len()
            invariant
                0 <= i <= psbt@.inputs.len(),
                forall|j: int| 0 <= j < i ==> (#[trigger] psbt@.inputs[j]).funding_utxo() is Ok,
            decreases psbt@.inputs.len() - i,
        {
            assert(psbt@.inputs[i as int] == psbt.inputs@[i as int]@);
            match psbt.inputs[i].funding_utxo() {
                Ok(_) => {},
                Err(error) => return Err((psbt, Error::FundingUtxo { input_index: i, error })),
            }
            i = i + 1;
        }
        match psbt.determine_lock_time() {
            Ok(_) => {},
            Err(e) => return Err((psbt, Error::DetermineLockTime(e))),
        }
        match Self::check_partial_sigs_sighash_type(&psbt) {
            Ok(()) => {},
            Err(e) => return Err((psbt, Error::PartialSigsSighashType(e))),
        }
        Ok(Finalizer(psbt))
    }

    /// The PSBT's unique id.
    pub fn id(&self) -> (r: Txid)
        ensures
            self@.determine_lock_time() is Ok,
            r@ == crate::types::txid_of(self@.id_tx(self@.determine_lock_time()->Ok_0)),
    {
        proof {
            use_type_invariant(self);
        }
        match self.0.id() {
            Ok(id) => id,
            Err(_) => {
                assert(false);
                [0u8; 32]
            },
        }
    }

    /// The PSBT, for a script finalizer to read.
    pub fn psbt(&self) -> (r: &Psbt)
        ensures
            r@ == self@,
    {
        &self.0
    }

    /// Checks that every partial signature uses the sighash type its input asks for, SIGHASH_ALL
    /// where the input sets none.
    pub fn check_partial_sigs_sighash_type(psbt: &Psbt) -> (r: Result<(), PartialSigsSighashTypeError>)
        ensures
            match r {
                Ok(()) => forall|i: int| 0 <= i < psbt@.inputs.len() ==> sighash_ok(#[trigger] psbt@.inputs[i]),
                Err(e) => sighash_error_is(psbt@.inputs, e),
            },
    {
        let mut input_index: usize = 0;
        while input_index < psbt.inputs.len()
            invariant
                0 <= input_index <= psbt@.inputs.len(),
                forall|j: int| 0 <= j < input_index ==> sighash_ok(#[trigger] psbt@.inputs[j]),
            decreases psbt@.inputs.len() - input_index,
        {
            let input = &psbt.inputs[input_index];
            assert(psbt@.inputs[input_index as int] == input@);
            let target = match input.sighash_type {
                Some(n) => match EcdsaSighashType::from_standard(n) {
                    Ok(t) => t,
                    Err(error) => {
                        return Err(PartialSigsSighashTypeError::NonStandardInputSighashType { input_index, error });
                    },
                },
                None => EcdsaSighashType::All,
            };
            let entries = input.partial_sigs.entries();
            let mut k: usize = 0;
            while k < entries.len()
                invariant
                    0 <= input_index < psbt@.inputs.len(),
                    psbt@.inputs[input_index as int] == input@,
                    forall|j: int| 0 <= j < input_index ==> sighash_ok(#[trigger] psbt@.inputs[j]),
                    required_sighash(input@) == Some(target),
                    lists_map(entries@, input@.partial_sigs),
                    0 <= k <= entries@.len(),
                    forall|j: int| 0 <= j < k ==> standard_sighash((#[trigger] entries@[j]).1.sighash_type) == Some(target),
                decreases entries@.len() - k,
            {
                let sig = &entries[k].1;
                assert(input@.partial_sigs.contains_key(entries@[k as int].0@));
                let flag = match EcdsaSighashType::from_standard(sig.sighash_type) {
                    Ok(f) => f,
                    Err(error) => {
                        return Err(PartialSigsSighashTypeError::NonStandardPartialSigsSighashType { input_index, error });
                    },
                };
                if target != flag {
                    let pubkey = crate::bytes::copy_bytes(&entries[k].0);
                    return Err(
                        PartialSigsSighashTypeError::WrongSighashFlag { input_index, got: flag, required: target, pubkey },
                    );
                }
                k = k + 1;
            }
            assert forall|key: Seq<u8>| #[trigger] input@.partial_sigs.contains_key(key) implies standard_sighash(
                input@.partial_sigs[key].sighash_type,
            ) == required_sighash(input@) by {
                let j = choose|j: int| 0 <= j < entries@.len() && entries@[j].0@ == key;
            }
            input_index = input_index + 1;
        }
        Ok(())
    }

    /// Finalizes every input with the final scriptSig and witness at its index in `finals`, as
    /// a script finalizer produced them (an empty witness for a legacy spend). On an error the
    /// finalizer is handed back unchanged.
    pub fn finalize_with(self, finals: Vec<(Vec<u8>, Vec<Vec<u8>>)>) -> (r: Result<Psbt, (Finalizer, FinalizeError)>)
        ensures
            match r {
                Ok(p) => finals@.len() == self@.inputs.len() && (forall|i: int|
                    0 <= i < finals@.len() ==> !(self@.inputs[i].witness_utxo is Some && (#[trigger] finals@[i]).1@.len()
                        == 0)) && p@ == finalized_doc(self@, finals.deep_view()),
                Err((f, FinalizeError::CountMismatch { inputs, scripts })) => f@ == self@ && inputs
                    == self@.inputs.len() && scripts == finals@.len() && inputs != scripts,
                Err((f, FinalizeError::EmptyWitness(i))) => f@ == self@ && finals@.len() == self@.inputs.len()
                    && i < finals@.len() && (forall|j: int|
                    0 <= j < i ==> !(self@.inputs[j].witness_utxo is Some && (#[trigger] finals@[j]).1@.len() == 0))
                    && self@.inputs[i as int].witness_utxo is Some && finals@[i as int].1@.len() == 0,
            },
    {
        let n = self.0.inputs.len();
        if finals.len() != n {
            return Err((self, FinalizeError::CountMismatch { inputs: n, scripts: finals.len() }));
        }
        let mut i: usize = 0;
        while i < n
            invariant
                n == self@.inputs.len(),
                finals@.len() == n,
                0 <= i <= n,
                forall|j: int| 0 <= j < i ==> !(self@.inputs[j].witness_utxo is Some && (#[trigger] finals@[j]).1@.len() == 0),
            decreases n - i,
        {
            assert(self@.inputs[i as int] == self.0.inputs@[i as int]@);
            if self.0.inputs[i].witness_utxo.is_some() && finals[i].1.len() == 0 {
                return Err((self, FinalizeError::EmptyWitness(i)));
            }
            i = i + 1;
        }
        let ghost fv = finals.deep_view();
        let ghost start = self@;
        let mut psbt = self.0;
        let mut rest = psbt.inputs;
        let mut scripts = finals;
        let mut inputs: Vec<Input> = Vec::new();
        while rest.len() > 0
            invariant
                n == start.inputs.len(),
                fv.len() == n,
                inputs@.len() + rest@.len() == n,
                scripts@.len() == rest@.len(),
                forall|j: int| 0 <= j < n ==> !(start.inputs[j].witness_utxo is Some && (#[trigger] fv[j]).1.len() == 0),
                forall|j: int| 0 <= j < rest@.len() ==> (#[trigger] rest@[j])@ == start.inputs[inputs@.len() + j],
                forall|j: int| 0 <= j < scripts@.len() ==> (#[trigger] scripts@[j]).deep_view() == fv[inputs@.len() + j],
                forall|j: int| 0 <= j < inputs@.len() ==> (#[trigger] inputs@[j])@ == start.inputs[j].finalized(fv[j].0, fv[j].1),
            decreases rest@.len(),
        {
            let ghost (r0, s0) = (rest@, scripts@);
            let x = rest.remove(0);
            let (script_sig, witness) = scripts.remove(0);
            assert forall|j: int| 0 <= j < rest@.len() implies (#[trigger] rest@[j])@ == start.inputs[inputs@.len() + 1 + j] by {
                assert(rest@[j] == r0[j + 1]);
            }
            assert forall|j: int| 0 <= j < scripts@.len() implies (#[trigger] scripts@[j]).deep_view() == fv[inputs@.len() + 1 + j] by {
                assert(scripts@[j] == s0[j + 1]);
            }
            assert(fv[inputs@.len() as int] == (script_sig.deep_view(), witness.deep_view()));
            match x.finalize(script_sig, witness) {
                Ok(done) => inputs.push(done),
                Err(_) => {
                    assert(false);
                },
            }
        }
        psbt.inputs = inputs;
        assert(psbt@.inputs =~= finalized_doc(start, fv).inputs);
        Ok(psbt)
    }
}

} // verus!
