use psbt_v2::input::{V0InvalidError as InputV0Error, V2InvalidError as InputV2Error};
use psbt_v2::output::{V0InvalidError as OutputV0Error, V2InvalidError as OutputV2Error};
use psbt_v2::types::{LockTime, OutPoint, TxOut};
use psbt_v2::wire::WirePsbt;
use psbt_v2::{Constructor, Creator, Input, InvalidError, Modifiable, Output, Psbt, V0InvalidError, V2InvalidError};

fn doc() -> Psbt {
    let mut first = Input::new([3; 32], 2);
    first.sequence = Some(0xffff_fffd);
    first.min_height = Some(800000);
    first.witness_utxo = Some(TxOut { value: 5000, script_pubkey: vec![0x00, 0x14, 0xaa] });
    let second = Input::new([4; 32], 0);
    let mut out = Output::new(4000, vec![0x51, 0x20]);
    out.tap_internal_key = Some([9; 32]);
    let mut p = Creator::new()
        .fallback_lock_time(LockTime::Blocks(123))
        .constructor_modifiable()
        .input(first)
        .input(second)
        .output(out)
        .into_inner()
        .ok()
        .unwrap();
    p.unknown.insert(vec![0xff], vec![1, 2]);
    p
}

#[test]
fn v2_round_trip_gives_the_document_back() {
    let w = doc().to_psbt_v2();
    assert_eq!(w.version, 2);
    assert!(w.unsigned_tx.is_none());
    assert_eq!(w.inputs[0].previous_txid, Some([3; 32]));
    let p = Psbt::from_psbt(w).ok().unwrap();
    let d = doc();
    assert_eq!(p.tx_version, d.tx_version);
    assert_eq!(p.fallback_lock_time, LockTime::Blocks(123));
    assert_eq!(p.input_count, 2);
    assert_eq!(p.output_count, 1);
    assert_eq!(p.tx_modifiable_flags, d.tx_modifiable_flags);
    assert_eq!(p.inputs[0].previous_txid, [3; 32]);
    assert_eq!(p.inputs[0].spent_output_index, 2);
    assert_eq!(p.inputs[0].sequence, Some(0xffff_fffd));
    assert_eq!(p.inputs[0].min_height, Some(800000));
    assert_eq!(p.inputs[0].witness_utxo, d.inputs[0].witness_utxo);
    assert_eq!(p.inputs[1].sequence, None);
    assert_eq!(p.outputs[0].amount, 4000);
    assert_eq!(p.outputs[0].tap_internal_key, Some([9; 32]));
    assert_eq!(p.unknown.get(&[0xff]), Some(&vec![1, 2]));
}

#[test]
fn v0_round_trip_keeps_all_but_version_2_fields() {
    let w = doc().to_psbt_v0().unwrap();
    assert_eq!(w.version, 0);
    assert_eq!(w.tx_version, None);
    assert_eq!(w.input_count, None);
    assert_eq!(w.inputs[0].previous_txid, None);
    assert_eq!(w.inputs[0].sequence, None);
    assert_eq!(w.outputs[0].amount, None);
    let tx = w.unsigned_tx.as_ref().unwrap();
    assert_eq!(tx.lock_time, 800000);
    assert_eq!(tx.input[0].sequence, 0xffff_fffd);
    assert_eq!(tx.input[1].sequence, 0xffff_ffff);
    assert_eq!(tx.output[0].value, 4000);
    let p = Psbt::from_psbt(w).ok().unwrap();
    assert_eq!(p.fallback_lock_time, LockTime::Blocks(0));
    assert_eq!(p.tx_modifiable_flags, 0);
    assert_eq!(p.tx_version, 2);
    assert_eq!(p.input_count, 2);
    assert_eq!(p.inputs[0].previous_txid, [3; 32]);
    assert_eq!(p.inputs[0].spent_output_index, 2);
    assert_eq!(p.inputs[0].sequence, None);
    assert_eq!(p.inputs[0].min_height, None);
    assert_eq!(p.inputs[0].witness_utxo, doc().inputs[0].witness_utxo);
    assert_eq!(p.inputs[1].sequence, None);
    assert_eq!(p.outputs[0].amount, 4000);
    assert_eq!(p.outputs[0].script_pubkey, vec![0x51, 0x20]);
    assert_eq!(p.outputs[0].tap_internal_key, Some([9; 32]));
    assert_eq!(p.unknown.get(&[0xff]), Some(&vec![1, 2]));
    assert_eq!(p.determine_lock_time(), Ok(LockTime::Blocks(0)));
    let again = p.to_psbt_v0().unwrap();
    assert_eq!(again.unsigned_tx.as_ref().unwrap().lock_time, 0);
    assert_eq!(again.unsigned_tx.as_ref().unwrap().input[0].sequence, 0xffff_ffff);
    assert_eq!(again.inputs.len(), 2);
}

fn v2_error(w: WirePsbt) -> InvalidError {
    Psbt::from_psbt(w).err().unwrap()
}

#[test]
fn v2_reading_reports_missing_globals() {
    let mut w = doc().to_psbt_v2();
    w.tx_version = None;
    assert_eq!(v2_error(w), InvalidError::V2Invalid(V2InvalidError::MissingTxVersion));
    let mut w = doc().to_psbt_v2();
    w.input_count = None;
    assert_eq!(v2_error(w), InvalidError::V2Invalid(V2InvalidError::MissingInputCount));
    let mut w = doc().to_psbt_v2();
    w.output_count = None;
    assert_eq!(v2_error(w), InvalidError::V2Invalid(V2InvalidError::MissingOutputCount));
    let mut w = doc().to_psbt_v2();
    w.input_count = Some(3);
    assert_eq!(v2_error(w), InvalidError::V2Invalid(V2InvalidError::InputCountMismatch { declared: 3, found: 2 }));
    let mut w = doc().to_psbt_v2();
    w.output_count = Some(0);
    assert_eq!(v2_error(w), InvalidError::V2Invalid(V2InvalidError::OutputCountMismatch { declared: 0, found: 1 }));
}

#[test]
fn v2_reading_reports_first_invalid_input_and_output() {
    let mut w = doc().to_psbt_v2();
    w.inputs[1].previous_txid = None;
    assert_eq!(v2_error(w), InvalidError::V2Invalid(V2InvalidError::InvalidInput(1, InputV2Error::MissingPreviousTxid)));
    let mut w = doc().to_psbt_v2();
    w.inputs[0].spent_output_index = None;
    w.inputs[1].previous_txid = None;
    assert_eq!(v2_error(w), InvalidError::V2Invalid(V2InvalidError::InvalidInput(0, InputV2Error::MissingSpentOutputIndex)));
    let mut w = doc().to_psbt_v2();
    w.outputs[0].amount = None;
    assert_eq!(v2_error(w), InvalidError::V2Invalid(V2InvalidError::InvalidOutput(0, OutputV2Error::MissingAmount)));
    let mut w = doc().to_psbt_v2();
    w.outputs[0].script_pubkey = None;
    assert_eq!(v2_error(w), InvalidError::V2Invalid(V2InvalidError::InvalidOutput(0, OutputV2Error::MissingScriptPubkey)));
}

#[test]
fn unsupported_version_is_refused() {
    let mut w = doc().to_psbt_v2();
    w.version = 1;
    assert_eq!(v2_error(w), InvalidError::UnsupportedVersion(1));
}

#[test]
fn v0_reading_reports_errors() {
    let mut w = doc().to_psbt_v0().unwrap();
    w.unsigned_tx = None;
    assert_eq!(v2_error(w), InvalidError::V0Invalid(V0InvalidError::MissingUnsignedTx));
    let mut w = doc().to_psbt_v0().unwrap();
    w.unsigned_tx.as_mut().unwrap().input.pop();
    assert_eq!(v2_error(w), InvalidError::V0Invalid(V0InvalidError::InputCountMismatch { declared: 1, found: 2 }));
    let mut w = doc().to_psbt_v0().unwrap();
    w.unsigned_tx.as_mut().unwrap().output.pop();
    assert_eq!(v2_error(w), InvalidError::V0Invalid(V0InvalidError::OutputCountMismatch { declared: 0, found: 1 }));
    let mut w = doc().to_psbt_v0().unwrap();
    w.inputs[1].sequence = Some(1);
    assert_eq!(v2_error(w), InvalidError::V0Invalid(V0InvalidError::InvalidInput(1, InputV0Error::HasSequence)));
    let mut w = doc().to_psbt_v0().unwrap();
    w.inputs[0].min_time = Some(600_000_000);
    assert_eq!(v2_error(w), InvalidError::V0Invalid(V0InvalidError::InvalidInput(0, InputV0Error::HasMinTime)));
    let mut w = doc().to_psbt_v0().unwrap();
    w.inputs[0].min_height = Some(1);
    assert_eq!(v2_error(w), InvalidError::V0Invalid(V0InvalidError::InvalidInput(0, InputV0Error::HasMinHeight)));
    let mut w = doc().to_psbt_v0().unwrap();
    w.outputs[0].amount = Some(1);
    assert_eq!(v2_error(w), InvalidError::V0Invalid(V0InvalidError::InvalidOutput(0, OutputV0Error::HasAmount)));
    let mut w = doc().to_psbt_v0().unwrap();
    w.outputs[0].script_pubkey = Some(vec![]);
    assert_eq!(v2_error(w), InvalidError::V0Invalid(V0InvalidError::InvalidOutput(0, OutputV0Error::HasScriptPubkey)));
}

#[test]
fn to_psbt_is_version_2() {
    let w = doc().to_psbt();
    assert_eq!(w.version, 2);
    assert_eq!(w.fallback_lock_time, Some(LockTime::Blocks(123)));
    assert_eq!(w.tx_modifiable_flags, Some(3));
}

fn plain_doc() -> Psbt {
    let mut second = Input::new([4; 32], 1);
    second.redeem_script = Some(vec![0xa9]);
    let mut p = Constructor::<Modifiable>::new()
        .input(Input::new([3; 32], 0))
        .input(second)
        .output(Output::new(700, vec![0x51]))
        .into_inner()
        .ok()
        .unwrap();
    p.tx_modifiable_flags = 0;
    p
}

#[test]
fn v0_round_trip_keeps_a_document_version_0_can_hold() {
    let p = Psbt::from_psbt(plain_doc().to_psbt_v0().unwrap()).ok().unwrap();
    let d = plain_doc();
    assert_eq!(p.tx_version, d.tx_version);
    assert_eq!(p.fallback_lock_time, d.fallback_lock_time);
    assert_eq!(p.tx_modifiable_flags, 0);
    assert_eq!(p.input_count, 2);
    assert_eq!(p.inputs[0].sequence, None);
    assert_eq!(p.inputs[1].sequence, None);
    assert_eq!(p.inputs[1].redeem_script, Some(vec![0xa9]));
    assert_eq!(p.inputs[1].previous_txid, [4; 32]);
    assert_eq!(p.inputs[1].spent_output_index, 1);
    assert_eq!(p.outputs[0].amount, 700);
}

#[test]
fn v2_reading_refuses_lock_times_out_of_range() {
    let mut w = doc().to_psbt_v2();
    w.inputs[1].min_time = Some(499_999_999);
    assert_eq!(v2_error(w), InvalidError::V2Invalid(V2InvalidError::InvalidInput(1, InputV2Error::InvalidMinTime)));
    let mut w = doc().to_psbt_v2();
    w.inputs[0].min_height = Some(500_000_000);
    assert_eq!(v2_error(w), InvalidError::V2Invalid(V2InvalidError::InvalidInput(0, InputV2Error::InvalidMinHeight)));
    let mut w = doc().to_psbt_v2();
    w.fallback_lock_time = Some(LockTime::Blocks(600_000_000));
    assert_eq!(v2_error(w), InvalidError::V2Invalid(V2InvalidError::InvalidFallbackLockTime));
    let mut w = doc().to_psbt_v2();
    w.fallback_lock_time = Some(LockTime::Seconds(600_000_000));
    assert!(Psbt::from_psbt(w).is_ok());
}

#[test]
fn v0_input_takes_only_the_spent_output_from_the_transaction() {
    let mut i = Input::new([1; 32], 0);
    i.witness_script = Some(vec![0x51]);
    let w = i.to_v0();
    let read = Input::from_v0(w, &OutPoint { txid: [6; 32], vout: 3 }).ok().unwrap();
    assert_eq!(read.previous_txid, [6; 32]);
    assert_eq!(read.spent_output_index, 3);
    assert_eq!(read.sequence, None);
    assert_eq!(read.min_time, None);
    assert_eq!(read.min_height, None);
    assert_eq!(read.witness_script, Some(vec![0x51]));
}
