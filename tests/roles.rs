use psbt_v2::error::IndexOutOfBoundsError;
use psbt_v2::roles::extractor::ExtractError;
use psbt_v2::roles::finalizer::{Error as FinalizerError, FinalizeError, PartialSigsSighashTypeError};
use psbt_v2::roles::signer::AddSignatureError;
use psbt_v2::types::{EcdsaSighashType, EcdsaSignature, LockTime, NonStandardSighashTypeError, Transaction, TxOut};
use psbt_v2::{
    Constructor, Creator, Extractor, Finalizer, FundingUtxoError, Input, InputsNotModifiableError,
    InputsOnlyModifiable, Modifiable, Output, OutputsNotModifiableError, OutputsOnlyModifiable, Psbt,
    PsbtNotModifiableError, Signer, Updater,
};

fn funded_input(n: u8) -> Input {
    let mut i = Input::new([n; 32], 0);
    i.witness_utxo = Some(TxOut { value: 10_000, script_pubkey: vec![0x00, 0x14, n] });
    i
}

fn doc(inputs: Vec<Input>) -> Psbt {
    let mut c = Constructor::<Modifiable>::new();
    for i in inputs {
        c = c.input(i);
    }
    c.output(Output::new(9000, vec![0x51])).into_inner().ok().unwrap()
}

fn sig(sighash_type: u32) -> EcdsaSignature {
    EcdsaSignature { signature: vec![0x30, 0x44], sighash_type }
}

#[test]
fn creator_starts_modifiable_and_empty() {
    let p = Creator::new().into_inner();
    assert_eq!(p.tx_version, 2);
    assert_eq!(p.fallback_lock_time, LockTime::Blocks(0));
    assert!(p.is_inputs_modifiable());
    assert!(p.is_outputs_modifiable());
    assert!(!p.has_sighash_single());
    assert_eq!(p.inputs.len(), 0);
    let p = Creator::default().sighash_single().transaction_version(3).into_inner();
    assert!(p.has_sighash_single());
    assert_eq!(p.tx_version, 3);
}

#[test]
fn constructor_variants_set_flags() {
    let p = Constructor::<InputsOnlyModifiable>::new().into_inner().ok().unwrap();
    assert!(p.is_inputs_modifiable() && !p.is_outputs_modifiable());
    let p = Constructor::<OutputsOnlyModifiable>::default().into_inner().ok().unwrap();
    assert!(!p.is_inputs_modifiable() && p.is_outputs_modifiable());
    let p = Constructor::<Modifiable>::default().into_inner().ok().unwrap();
    assert!(p.is_inputs_modifiable() && p.is_outputs_modifiable());
}

#[test]
fn constructor_adds_inputs_and_outputs() {
    let p = doc(vec![funded_input(1), funded_input(2)]);
    assert_eq!(p.input_count, 2);
    assert_eq!(p.inputs.len(), 2);
    assert_eq!(p.output_count, 1);
    assert_eq!(p.inputs[1].previous_txid, [2; 32]);
}

#[test]
fn cleared_inputs_flag_refuses_input_constructor() {
    let p = Creator::new().constructor_modifiable().no_more_inputs().into_inner().ok().unwrap();
    assert!(!p.is_inputs_modifiable());
    assert_eq!(Constructor::<InputsOnlyModifiable>::from_psbt(p).err().map(|e| e.1), Some(InputsNotModifiableError));
    let p = Creator::new().constructor_modifiable().no_more_inputs().into_inner().ok().unwrap();
    assert_eq!(
        Constructor::<Modifiable>::from_psbt(p).err().map(|e| e.1),
        Some(PsbtNotModifiableError::Inputs(InputsNotModifiableError))
    );
    let p = Creator::new().constructor_modifiable().no_more_inputs().into_inner().ok().unwrap();
    assert!(Constructor::<OutputsOnlyModifiable>::from_psbt(p).is_ok());
}

#[test]
fn cleared_outputs_flag_refuses_output_constructor() {
    let p = Creator::new().constructor_modifiable().no_more_outputs().into_inner().ok().unwrap();
    assert_eq!(Constructor::<OutputsOnlyModifiable>::from_psbt(p).err().map(|e| e.1), Some(OutputsNotModifiableError));
    let p = Creator::new().constructor_modifiable().no_more_outputs().into_inner().ok().unwrap();
    assert_eq!(
        Constructor::<Modifiable>::from_psbt(p).err().map(|e| e.1),
        Some(PsbtNotModifiableError::Outputs(OutputsNotModifiableError))
    );
}

#[test]
fn flag_setters_and_clearers() {
    let mut p = Psbt::empty();
    assert_eq!(p.tx_modifiable_flags, 0);
    p.set_inputs_modifiable_flag();
    p.set_outputs_modifiable_flag();
    p.set_sighash_single_flag();
    assert_eq!(p.tx_modifiable_flags, 7);
    p.clear_outputs_modifiable_flag();
    assert_eq!(p.tx_modifiable_flags, 5);
    p.clear_sighash_single_flag();
    p.clear_inputs_modifiable_flag();
    assert_eq!(p.tx_modifiable_flags, 0);
}

#[test]
fn updater_requires_resolvable_lock_time() {
    let mut a = Input::new([1; 32], 0);
    a.min_time = Some(600_000_000);
    let mut b = Input::new([2; 32], 0);
    b.min_height = Some(10);
    let c = Constructor::<Modifiable>::new().input(a).input(b);
    let (c, _) = c.updater().err().unwrap();
    let (c, e) = c.into_inner().err().unwrap();
    assert_eq!(e, psbt_v2::DetermineLockTimeError);
    assert!(c.no_more_outputs().updater().is_err());
    let u = Constructor::<Modifiable>::new().input(funded_input(1)).updater().ok().unwrap();
    assert!(!u.0.is_inputs_modifiable());
    assert!(!u.0.is_outputs_modifiable());
}

#[test]
fn updater_sets_sequence() {
    let u = Updater::from_psbt(doc(vec![funded_input(1)])).ok().unwrap();
    let id = u.id();
    let u = u.set_sequence(7, 0).ok().unwrap();
    assert_eq!(u.0.inputs[0].sequence, Some(7));
    assert_eq!(u.id(), id);
    let err = u.set_sequence(7, 3).err().unwrap();
    assert_eq!(err, IndexOutOfBoundsError { index: 3, length: 1 });
}

#[test]
fn signer_records_signature_and_clears_flags() {
    let mut s = Signer::new(doc(vec![funded_input(1)])).ok().unwrap();
    assert_eq!(s.add_ecdsa_signature(0, vec![2, 5], sig(0x01)), Ok(()));
    let p = s.into_inner();
    assert_eq!(p.inputs[0].partial_sigs.get(&[2, 5]), Some(&sig(0x01)));
    assert!(!p.is_inputs_modifiable());
    assert!(!p.is_outputs_modifiable());
    assert!(!p.has_sighash_single());
}

#[test]
fn signer_flags_follow_sighash_type() {
    let mut s = Signer::new(doc(vec![funded_input(1)])).ok().unwrap();
    s.add_ecdsa_signature(0, vec![2, 5], sig(0x82)).unwrap();
    let p = s.into_inner();
    assert!(p.is_inputs_modifiable());
    assert!(p.is_outputs_modifiable());
    let mut s = Signer::new(doc(vec![funded_input(1)])).ok().unwrap();
    s.ecdsa_clear_tx_modifiable(EcdsaSighashType::SinglePlusAnyoneCanPay);
    let p = s.into_inner();
    assert!(p.is_inputs_modifiable());
    assert!(!p.is_outputs_modifiable());
    assert!(p.has_sighash_single());
}

#[test]
fn signer_refuses_bad_signature() {
    let mut s = Signer::new(doc(vec![funded_input(1)])).ok().unwrap();
    assert_eq!(
        s.add_ecdsa_signature(4, vec![2], sig(1)),
        Err(AddSignatureError::IndexOutOfBounds(IndexOutOfBoundsError { index: 4, length: 1 }))
    );
    assert_eq!(
        s.add_ecdsa_signature(0, vec![2], sig(0x04)),
        Err(AddSignatureError::NonStandardSighashType(NonStandardSighashTypeError(4)))
    );
    let p = s.into_inner();
    assert!(p.inputs[0].partial_sigs.is_empty());
    assert!(p.is_inputs_modifiable());
}

#[test]
fn signer_unsigned_tx_and_id() {
    let s = Signer::new(doc(vec![funded_input(1)])).ok().unwrap();
    let tx: Transaction = s.unsigned_tx();
    assert_eq!(tx.input.len(), 1);
    assert_eq!(tx.output[0].value, 9000);
    assert_ne!(s.id(), [0; 32]);
}

#[test]
fn finalizer_requires_funding_utxo_even_with_signatures() {
    let mut unfunded = Input::new([2; 32], 0);
    unfunded.partial_sigs.insert(vec![2, 1], sig(1));
    let r = Finalizer::new(doc(vec![funded_input(1), unfunded]));
    assert_eq!(r.err().map(|e| e.1), Some(FinalizerError::FundingUtxo { input_index: 1, error: FundingUtxoError::MissingUtxo }));
}

#[test]
fn finalizer_reports_out_of_bounds_funding() {
    let mut i = Input::new([2; 32], 3);
    i.non_witness_utxo = Some(Transaction { version: 2, lock_time: 0, input: vec![], output: vec![] });
    let r = Finalizer::new(doc(vec![i]));
    assert_eq!(
        r.err().map(|e| e.1),
        Some(FinalizerError::FundingUtxo { input_index: 0, error: FundingUtxoError::OutOfBounds { vout: 3, len: 0 } })
    );
}

#[test]
fn finalizer_checks_sighash_types() {
    let mut i = funded_input(1);
    i.partial_sigs.insert(vec![2, 9], sig(0x02));
    let r = Finalizer::new(doc(vec![i]));
    assert_eq!(
        r.err().map(|e| e.1),
        Some(FinalizerError::PartialSigsSighashType(PartialSigsSighashTypeError::WrongSighashFlag {
            input_index: 0,
            got: EcdsaSighashType::SighashNone,
            required: EcdsaSighashType::All,
            pubkey: vec![2, 9],
        }))
    );
    let mut i = funded_input(1);
    i.sighash_type = Some(0x42);
    let r = Finalizer::new(doc(vec![i]));
    assert_eq!(
        r.err().map(|e| e.1),
        Some(FinalizerError::PartialSigsSighashType(PartialSigsSighashTypeError::NonStandardInputSighashType {
            input_index: 0,
            error: NonStandardSighashTypeError(0x42),
        }))
    );
    let mut i = funded_input(1);
    i.sighash_type = Some(0x83);
    i.partial_sigs.insert(vec![2, 9], sig(0x07));
    let r = Finalizer::new(doc(vec![i]));
    assert_eq!(
        r.err().map(|e| e.1),
        Some(FinalizerError::PartialSigsSighashType(PartialSigsSighashTypeError::NonStandardPartialSigsSighashType {
            input_index: 0,
            error: NonStandardSighashTypeError(0x07),
        }))
    );
}

#[test]
fn finalizer_refuses_conflicting_lock_times() {
    let mut a = funded_input(1);
    a.min_time = Some(600_000_000);
    let mut b = funded_input(2);
    b.min_height = Some(10);
    let mut p = doc(vec![]);
    p.inputs = vec![a, b];
    p.input_count = 2;
    let r = Finalizer::new(p);
    assert!(matches!(r.err().map(|e| e.1), Some(FinalizerError::DetermineLockTime(_))));
}

#[test]
fn finalize_replaces_signing_material() {
    let mut i = funded_input(1);
    i.partial_sigs.insert(vec![2, 9], sig(0x01));
    i.witness_script = Some(vec![0x51]);
    i.sequence = Some(9);
    let f = Finalizer::new(doc(vec![i])).ok().unwrap();
    let p = f.finalize_with(vec![(vec![], vec![vec![0x30], vec![0x02]])]).ok().unwrap();
    let done = &p.inputs[0];
    assert!(done.is_finalized());
    assert!(done.partial_sigs.is_empty());
    assert_eq!(done.witness_script, None);
    assert_eq!(done.sequence, Some(9));
    assert_eq!(done.final_script_witness, Some(vec![vec![0x30], vec![0x02]]));
    assert!(done.witness_utxo.is_some());
    assert!(!done.has_sig_data());
}

#[test]
fn finalize_refuses_empty_witness_for_segwit_and_count_mismatch() {
    let f = Finalizer::new(doc(vec![funded_input(1)])).ok().unwrap();
    let (f, e) = f.finalize_with(vec![(vec![1], vec![])]).err().unwrap();
    assert_eq!(e, FinalizeError::EmptyWitness(0));
    let (_, e) = f.finalize_with(vec![]).err().unwrap();
    assert_eq!(e, FinalizeError::CountMismatch { inputs: 1, scripts: 0 });
}

#[test]
fn extractor_requires_finalized_inputs() {
    let r = Extractor::new(doc(vec![funded_input(1)]));
    let (back, e) = r.err().unwrap();
    assert_eq!(e, ExtractError::PsbtNotFinalized);
    assert_eq!(back.inputs.len(), 1);
    let f = Finalizer::new(doc(vec![funded_input(1)])).ok().unwrap();
    let id = f.id();
    let p = f.finalize_with(vec![(vec![], vec![vec![1]])]).ok().unwrap();
    let x = Extractor::new(p).ok().unwrap();
    assert_eq!(x.id(), id);
    assert!(x.psbt().inputs[0].is_finalized());
}

#[test]
fn funding_utxo_prefers_witness_utxo() {
    let mut i = Input::new([1; 32], 1);
    assert_eq!(i.funding_utxo().err(), Some(FundingUtxoError::MissingUtxo));
    i.non_witness_utxo = Some(Transaction {
        version: 2,
        lock_time: 0,
        input: vec![],
        output: vec![TxOut { value: 1, script_pubkey: vec![1] }, TxOut { value: 2, script_pubkey: vec![2] }],
    });
    assert_eq!(i.funding_utxo().unwrap().value, 2);
    i.witness_utxo = Some(TxOut { value: 3, script_pubkey: vec![3] });
    assert_eq!(i.funding_utxo().unwrap().value, 3);
}

#[test]
fn sighash_types_parse_standard_flags_only() {
    assert_eq!(EcdsaSighashType::from_standard(0x81), Ok(EcdsaSighashType::AllPlusAnyoneCanPay));
    assert_eq!(EcdsaSighashType::from_standard(0x03), Ok(EcdsaSighashType::Single));
    assert_eq!(EcdsaSighashType::from_standard(0x04), Err(NonStandardSighashTypeError(4)));
    assert_eq!(EcdsaSighashType::NonePlusAnyoneCanPay.to_u32(), 0x82);
}

#[test]
fn extractor_requires_resolvable_lock_time() {
    let mut a = funded_input(1);
    a.final_script_sig = Some(vec![]);
    a.final_script_witness = Some(vec![vec![1]]);
    a.min_time = Some(600_000_000);
    let mut b = funded_input(2);
    b.final_script_sig = Some(vec![]);
    b.final_script_witness = Some(vec![vec![1]]);
    b.min_height = Some(10);
    let mut p = doc(vec![]);
    p.inputs = vec![a, b];
    p.input_count = 2;
    let (_, e) = Extractor::new(p).err().unwrap();
    assert!(matches!(e, ExtractError::DetermineLockTime(_)));
}

#[test]
fn input_finalize_keeps_spent_output_and_refuses_empty_segwit_witness() {
    let mut i = funded_input(4);
    i.redeem_script = Some(vec![0xa9]);
    i.min_height = Some(5);
    assert_eq!(
        i.finalize(vec![1], vec![]).err(),
        Some(psbt_v2::input::FinalizeError::EmptyWitness)
    );
    let done = i.finalize(vec![1], vec![vec![2]]).ok().unwrap();
    assert_eq!(done.final_script_sig, Some(vec![1]));
    assert_eq!(done.redeem_script, None);
    assert_eq!(done.min_height, Some(5));
    assert_eq!(done.witness_utxo, i.witness_utxo);
    let legacy = Input::new([5; 32], 0).finalize(vec![3], vec![]).ok().unwrap();
    assert!(legacy.is_finalized());
    assert_eq!(legacy.final_script_witness, Some(vec![]));
}
